//! The life of a directory on the network: how it is created, fetched, updated and
//! deleted, and how a change reaches the directory that holds it.

use vstd::prelude::*;

use crate::clock::Time;
use crate::directory_listing::DirectoryListing;
use crate::directory_listing::DirectoryListingView;
use crate::errors::NfsError;
use crate::exchange::Reply;
use crate::exchange::ReplyView;
use crate::exchange::Turn;
use crate::exchange::TurnView;
use crate::helper::storage::Fetch;
use crate::helper::storage::FetchView;
use crate::helper::storage::Save;
use crate::helper::storage::SaveView;
use crate::helper::storage::Versions;
use crate::helper::storage::VersionsView;
use crate::helper::roots::Configuration;
use crate::helper::roots::ConfigurationView;
use crate::helper::roots::UserRoot;
use crate::helper::roots::UserRootView;
use crate::metadata::directory_key::DirectoryKey;
use crate::metadata::directory_metadata::DirectoryMetadata;
use crate::metadata::directory_metadata::DirectoryMetadataView;
use crate::name::NetworkName;
use crate::views::optional;
use crate::AccessLevel;

verus! {

/// What a new directory takes from outside: a random identifier and the time.
#[derive(Clone, Copy, Debug)]
pub struct Seed {
    /// The identifier of the new directory.
    pub id: NetworkName,
    /// The time at which it is created.
    pub now: Time,
}

impl Seed {
    /// Draws an identifier at random and reads the clock. Gives `None` where no identifier
    /// could be drawn. Of the identifier nothing is known; the time is one that the clock
    /// gave, with nanoseconds that are a part of one second.
    pub fn draw() -> (seed: Option<Seed>)
        ensures
            match seed {
                Some(seed) => seed.now.is_well_formed(),
                None => true,
            },
    {
        match NetworkName::random() {
            Some(id) => Some(Seed { id, now: Time::now() }),
            None => None,
        }
    }
}

/// The new, empty directory that is made of a seed.
pub open spec fn spec_new_directory(
    seed: Seed,
    name: Seq<char>,
    tag_type: u64,
    user_metadata: Seq<u8>,
    versioned: bool,
    access_level: AccessLevel,
    parent_dir_key: Option<DirectoryKey>,
) -> DirectoryListingView {
    DirectoryListingView::empty(
        DirectoryMetadata::spec_with_id_at(
            seed.id,
            seed.now,
            name,
            tag_type,
            versioned,
            access_level,
            user_metadata,
            parent_dir_key,
        ),
    )
}

/// The new, empty directory that is made of a seed.
pub fn new_directory(
    seed: Seed,
    name: String,
    tag_type: u64,
    user_metadata: Vec<u8>,
    versioned: bool,
    access_level: AccessLevel,
    parent_dir_key: Option<DirectoryKey>,
) -> (directory: DirectoryListing)
    ensures
        directory@ == spec_new_directory(
            seed,
            name@,
            tag_type,
            user_metadata@,
            versioned,
            access_level,
            parent_dir_key,
        ),
{
    DirectoryListing::with_metadata(
        DirectoryMetadata::with_id_at(
            seed.id,
            seed.now,
            name,
            tag_type,
            versioned,
            access_level,
            user_metadata,
            parent_dir_key,
        ),
    )
}

/// Where the update of a directory stands.
#[derive(Debug)]
pub enum Update {
    /// A directory is being laid down: the one that is updated, or one further up that
    /// holds what was laid down before it. `parent` is the directory that holds the
    /// updated one, once it is known.
    Saving { saving: Save, directory: DirectoryMetadata, parent: Option<DirectoryListing> },
    /// The directory that holds the one just laid down is being fetched.
    Loading { loading: Fetch, directory: DirectoryMetadata, parent: Option<DirectoryListing> },
    /// The end: the directory that holds the updated one as it is now, or `None` for a
    /// root.
    Updated(Option<DirectoryListing>),
    /// The end: what went wrong.
    Failed(NfsError),
}

/// The mathematical value of an [`Update`].
pub ghost enum UpdateView {
    Saving {
        saving: SaveView,
        directory: DirectoryMetadataView,
        parent: Option<DirectoryListingView>,
    },
    Loading {
        loading: FetchView,
        directory: DirectoryMetadataView,
        parent: Option<DirectoryListingView>,
    },
    Updated(Option<DirectoryListingView>),
    Failed(NfsError),
}

impl View for Update {
    type V = UpdateView;

    open spec fn view(&self) -> UpdateView {
        match self {
            Update::Saving { saving, directory, parent } => UpdateView::Saving {
                saving: saving@,
                directory: directory@,
                parent: optional(*parent),
            },
            Update::Loading { loading, directory, parent } => UpdateView::Loading {
                loading: loading@,
                directory: directory@,
                parent: optional(*parent),
            },
            Update::Updated(parent) => UpdateView::Updated(optional(*parent)),
            Update::Failed(error) => UpdateView::Failed(*error),
        }
    }
}

impl UpdateView {
    /// An update starts with laying the directory down in the place of its earlier state.
    pub open spec fn start(directory: DirectoryListingView) -> TurnView<UpdateView> {
        let saving = SaveView::start(directory, false);
        TurnView {
            state: UpdateView::Saving {
                saving: saving.state,
                directory: directory.metadata,
                parent: None,
            },
            request: saving.request,
        }
    }

    /// What follows a step of the laying down of a directory. When the directory lies on
    /// the network, the directory that holds it is fetched; and when a root lies on the
    /// network, the update is done.
    pub open spec fn after_saving(
        saving: TurnView<SaveView>,
        directory: DirectoryMetadataView,
        parent: Option<DirectoryListingView>,
    ) -> TurnView<UpdateView> {
        match saving.state {
            SaveView::Saved => match directory.parent_dir_key {
                Some(parent_key) => {
                    let loading = FetchView::get(parent_key);
                    TurnView {
                        state: UpdateView::Loading { loading: loading.state, directory, parent },
                        request: loading.request,
                    }
                },
                None => TurnView::end(UpdateView::Updated(parent)),
            },
            SaveView::Failed(error) => TurnView::end(UpdateView::Failed(error)),
            _ => TurnView {
                state: UpdateView::Saving { saving: saving.state, directory, parent },
                request: saving.request,
            },
        }
    }

    /// What follows a step of the fetch of a holder. When the holder is there, it takes
    /// the metadata of the directory that was laid down before it, and is laid down in
    /// its turn, in the place of its earlier state. The first holder that is reached is
    /// the directory that holds the updated one: it is kept as the result.
    pub open spec fn after_loading(
        loading: TurnView<FetchView>,
        directory: DirectoryMetadataView,
        parent: Option<DirectoryListingView>,
    ) -> TurnView<UpdateView> {
        match loading.state {
            FetchView::Fetched(holder) => {
                let holder = holder.upsert_sub_directory(directory);
                let saving = SaveView::start(holder, false);
                TurnView {
                    state: UpdateView::Saving {
                        saving: saving.state,
                        directory: holder.metadata,
                        parent: match parent {
                            Some(parent) => Some(parent),
                            None => Some(holder),
                        },
                    },
                    request: saving.request,
                }
            },
            FetchView::Failed(error) => TurnView::end(UpdateView::Failed(error)),
            _ => TurnView {
                state: UpdateView::Loading { loading: loading.state, directory, parent },
                request: loading.request,
            },
        }
    }

    /// How an update goes on: the reply goes to the part that is under way, and when that
    /// part has ended the next one starts. So the update goes up from the directory to the
    /// directory that holds it, and on to the root. An error in any part ends the update.
    pub open spec fn step(self, reply: ReplyView) -> TurnView<UpdateView> {
        match self {
            UpdateView::Saving { saving, directory, parent } => Self::after_saving(
                saving.step(reply),
                directory,
                parent,
            ),
            UpdateView::Loading { loading, directory, parent } => Self::after_loading(
                loading.step(reply),
                directory,
                parent,
            ),
            _ => TurnView::end(self),
        }
    }

    /// What the update ended with, or `None` while it has not ended.
    pub open spec fn result(self) -> Option<Result<Option<DirectoryListingView>, NfsError>> {
        match self {
            UpdateView::Updated(parent) => Some(Ok(parent)),
            UpdateView::Failed(error) => Some(Err(error)),
            _ => None,
        }
    }
}

impl Update {
    /// Starts the update of `directory`.
    pub fn start(directory: &DirectoryListing) -> (turn: Turn<Update>)
        ensures
            turn@ == UpdateView::start(directory@),
            turn.request is Some,
    {
        let saving = Save::start(directory, false);
        Turn {
            state: Update::Saving {
                saving: saving.state,
                directory: directory.get_metadata().clone(),
                parent: None,
            },
            request: saving.request,
        }
    }

    fn after_saving(
        saving: Turn<Save>,
        directory: DirectoryMetadata,
        parent: Option<DirectoryListing>,
    ) -> (turn: Turn<Update>)
        ensures
            turn@ == UpdateView::after_saving(saving@, directory@, optional(parent)),
    {
        match saving.state {
            Save::Saved => {
                let parent_key = match directory.get_parent_dir_key() {
                    Some(parent_key) => Some(*parent_key),
                    None => None,
                };
                match parent_key {
                    Some(parent_key) => {
                        let loading = Fetch::get(&parent_key);
                        Turn {
                            state: Update::Loading { loading: loading.state, directory, parent },
                            request: loading.request,
                        }
                    },
                    None => Turn::end(Update::Updated(parent)),
                }
            },
            Save::Failed(error) => Turn::end(Update::Failed(error)),
            state => Turn {
                state: Update::Saving { saving: state, directory, parent },
                request: saving.request,
            },
        }
    }

    fn after_loading(
        loading: Turn<Fetch>,
        directory: DirectoryMetadata,
        parent: Option<DirectoryListing>,
    ) -> (turn: Turn<Update>)
        ensures
            turn@ == UpdateView::after_loading(loading@, directory@, optional(parent)),
    {
        match loading.state {
            Fetch::Fetched(holder) => {
                let mut holder = holder;
                holder.upsert_sub_directory(directory);
                let saving = Save::start(&holder, false);
                let metadata = holder.get_metadata().clone();
                let parent = match parent {
                    Some(parent) => Some(parent),
                    None => Some(holder),
                };
                Turn {
                    state: Update::Saving { saving: saving.state, directory: metadata, parent },
                    request: saving.request,
                }
            },
            Fetch::Failed(error) => Turn::end(Update::Failed(error)),
            state => Turn {
                state: Update::Loading { loading: state, directory, parent },
                request: loading.request,
            },
        }
    }

    /// Takes the reply to the pending request and gives the next state.
    pub fn step(self, reply: Reply) -> (next: Turn<Update>)
        ensures
            next@ == self@.step(reply@),
    {
        match self {
            Update::Saving { saving, directory, parent } => {
                let saving = saving.step(reply);
                Update::after_saving(saving, directory, parent)
            },
            Update::Loading { loading, directory, parent } => Update::after_loading(
                loading.step(reply),
                directory,
                parent,
            ),
            Update::Updated(parent) => Turn::end(Update::Updated(parent)),
            Update::Failed(error) => Turn::end(Update::Failed(error)),
        }
    }

    /// What the update ended with, or `None` while it has not ended.
    pub fn finish(self) -> (result: Option<Result<Option<DirectoryListing>, NfsError>>)
        ensures
            match result {
                Some(Ok(parent)) => self@ == UpdateView::Updated(optional(parent)),
                Some(Err(error)) => self@ == UpdateView::Failed(error),
                None => self@.result() is None,
            },
    {
        match self {
            Update::Updated(parent) => Some(Ok(parent)),
            Update::Failed(error) => Some(Err(error)),
            _ => None,
        }
    }
}

/// Where the creation of a directory stands.
#[derive(Debug)]
pub enum Creation {
    /// The new directory is being laid down.
    Saving { saving: Save, directory: DirectoryListing, parent: Option<DirectoryListing> },
    /// The directory that holds the new one is being updated.
    UpdatingParent { updating: Update, directory: DirectoryListing, holder: DirectoryListing },
    /// The end: the new directory, the directory that holds it as it is now, and the
    /// directory that holds that one as it is now.
    Created {
        directory: DirectoryListing,
        parent: Option<DirectoryListing>,
        grand_parent: Option<DirectoryListing>,
    },
    /// The end: what went wrong.
    Failed(NfsError),
}

/// The mathematical value of a [`Creation`].
pub ghost enum CreationView {
    Saving {
        saving: SaveView,
        directory: DirectoryListingView,
        parent: Option<DirectoryListingView>,
    },
    UpdatingParent {
        updating: UpdateView,
        directory: DirectoryListingView,
        holder: DirectoryListingView,
    },
    Created {
        directory: DirectoryListingView,
        parent: Option<DirectoryListingView>,
        grand_parent: Option<DirectoryListingView>,
    },
    Failed(NfsError),
}

impl View for Creation {
    type V = CreationView;

    open spec fn view(&self) -> CreationView {
        match self {
            Creation::Saving { saving, directory, parent } => CreationView::Saving {
                saving: saving@,
                directory: directory@,
                parent: optional(*parent),
            },
            Creation::UpdatingParent {
                updating,
                directory,
                holder,
            } => CreationView::UpdatingParent {
                updating: updating@,
                directory: directory@,
                holder: holder@,
            },
            Creation::Created { directory, parent, grand_parent } => CreationView::Created {
                directory: directory@,
                parent: optional(*parent),
                grand_parent: optional(*grand_parent),
            },
            Creation::Failed(error) => CreationView::Failed(*error),
        }
    }
}

/// The key of a directory that may be absent.
pub open spec fn key_of(directory: Option<DirectoryListingView>) -> Option<DirectoryKey> {
    match directory {
        Some(directory) => Some(directory.metadata.key),
        None => None,
    }
}

impl CreationView {
    /// What asking for a directory comes to. A name that a sub-directory of the parent
    /// bears is refused with `DirectoryAlreadyExistsWithSameName`, and after that a missing
    /// seed with `RandomnessUnavailable`. Else the new directory is made, with the key of
    /// the parent as the key of the directory that holds it, and its creation starts.
    pub open spec fn begin(
        name: Seq<char>,
        tag_type: u64,
        user_metadata: Seq<u8>,
        versioned: bool,
        access_level: AccessLevel,
        parent: Option<DirectoryListingView>,
        seed: Option<Seed>,
    ) -> TurnView<CreationView> {
        if parent is Some && parent->Some_0.find_sub_directory(name) is Some {
            TurnView::end(CreationView::Failed(NfsError::DirectoryAlreadyExistsWithSameName))
        } else {
            match seed {
                Some(seed) => Self::start(
                    spec_new_directory(
                        seed,
                        name,
                        tag_type,
                        user_metadata,
                        versioned,
                        access_level,
                        key_of(parent),
                    ),
                    parent,
                ),
                None => TurnView::end(CreationView::Failed(NfsError::RandomnessUnavailable)),
            }
        }
    }

    /// The creation of a directory starts with laying it down for the first time.
    pub open spec fn start(
        directory: DirectoryListingView,
        parent: Option<DirectoryListingView>,
    ) -> TurnView<CreationView> {
        let saving = SaveView::start(directory, true);
        TurnView {
            state: CreationView::Saving { saving: saving.state, directory, parent },
            request: saving.request,
        }
    }

    /// What follows when the new directory lies on the network: without a parent the
    /// creation is done; with one, the metadata of the new directory is put into the
    /// parent, and the parent is updated.
    pub open spec fn after_saving(
        saving: TurnView<SaveView>,
        directory: DirectoryListingView,
        parent: Option<DirectoryListingView>,
    ) -> TurnView<CreationView> {
        match saving.state {
            SaveView::Saved => match parent {
                Some(parent) => {
                    let parent = parent.upsert_sub_directory(directory.metadata);
                    let updating = UpdateView::start(parent);
                    TurnView {
                        state: CreationView::UpdatingParent {
                            updating: updating.state,
                            directory,
                            holder: parent,
                        },
                        request: updating.request,
                    }
                },
                None => TurnView::end(
                    CreationView::Created { directory, parent: None, grand_parent: None },
                ),
            },
            SaveView::Failed(error) => TurnView::end(CreationView::Failed(error)),
            _ => TurnView {
                state: CreationView::Saving { saving: saving.state, directory, parent },
                request: saving.request,
            },
        }
    }

    /// What follows when the parent is updated: the creation is done, and what the update
    /// of the parent gave is the directory that holds the parent.
    pub open spec fn after_updating(
        updating: TurnView<UpdateView>,
        directory: DirectoryListingView,
        parent: DirectoryListingView,
    ) -> TurnView<CreationView> {
        match updating.state {
            UpdateView::Updated(grand_parent) => TurnView::end(
                CreationView::Created { directory, parent: Some(parent), grand_parent },
            ),
            UpdateView::Failed(error) => TurnView::end(CreationView::Failed(error)),
            _ => TurnView {
                state: CreationView::UpdatingParent {
                    updating: updating.state,
                    directory,
                    holder: parent,
                },
                request: updating.request,
            },
        }
    }

    /// How a creation goes on: the reply goes to the part that is under way, and when that
    /// part has ended the next one starts. An error in any part ends the creation.
    pub open spec fn step(self, reply: ReplyView) -> TurnView<CreationView> {
        match self {
            CreationView::Saving { saving, directory, parent } => Self::after_saving(
                saving.step(reply),
                directory,
                parent,
            ),
            CreationView::UpdatingParent { updating, directory, holder } => Self::after_updating(
                updating.step(reply),
                directory,
                holder,
            ),
            _ => TurnView::end(self),
        }
    }
}

impl Creation {
    /// Starts the creation of the directory `name` in `parent`, or as a root where there
    /// is no parent; `seed` is what the new directory takes from outside.
    pub fn begin(
        name: String,
        tag_type: u64,
        user_metadata: Vec<u8>,
        versioned: bool,
        access_level: AccessLevel,
        parent: Option<DirectoryListing>,
        seed: Option<Seed>,
    ) -> (turn: Turn<Creation>)
        ensures
            turn@ == CreationView::begin(
                name@,
                tag_type,
                user_metadata@,
                versioned,
                access_level,
                optional(parent),
                seed,
            ),
    {
        let parent_key = match &parent {
            Some(parent) => {
                if parent.find_sub_directory(&name).is_some() {
                    return Turn::end(
                        Creation::Failed(NfsError::DirectoryAlreadyExistsWithSameName),
                    );
                }
                Some(*parent.get_key())
            },
            None => None,
        };
        match seed {
            Some(seed) => {
                let directory = new_directory(
                    seed,
                    name,
                    tag_type,
                    user_metadata,
                    versioned,
                    access_level,
                    parent_key,
                );
                Creation::start(directory, parent)
            },
            None => Turn::end(Creation::Failed(NfsError::RandomnessUnavailable)),
        }
    }

    /// Starts the creation of `directory`, which `parent` is to hold.
    pub fn start(directory: DirectoryListing, parent: Option<DirectoryListing>) -> (turn: Turn<
        Creation,
    >)
        ensures
            turn@ == CreationView::start(directory@, optional(parent)),
            turn.request is Some,
    {
        let saving = Save::start(&directory, true);
        Turn {
            state: Creation::Saving { saving: saving.state, directory, parent },
            request: saving.request,
        }
    }

    /// Takes the reply to the pending request and gives the next state.
    pub fn step(self, reply: Reply) -> (next: Turn<Creation>)
        ensures
            next@ == self@.step(reply@),
    {
        match self {
            Creation::Saving { saving, directory, parent } => {
                let saving = saving.step(reply);
                match saving.state {
                    Save::Saved => match parent {
                        Some(parent) => {
                            let mut parent = parent;
                            parent.upsert_sub_directory(directory.get_metadata().clone());
                            let updating = Update::start(&parent);
                            Turn {
                                state: Creation::UpdatingParent {
                                    updating: updating.state,
                                    directory,
                                    holder: parent,
                                },
                                request: updating.request,
                            }
                        },
                        None => Turn::end(
                            Creation::Created { directory, parent: None, grand_parent: None },
                        ),
                    },
                    Save::Failed(error) => Turn::end(Creation::Failed(error)),
                    state => Turn {
                        state: Creation::Saving { saving: state, directory, parent },
                        request: saving.request,
                    },
                }
            },
            Creation::UpdatingParent { updating, directory, holder } => {
                let updating = updating.step(reply);
                match updating.state {
                    Update::Updated(grand_parent) => Turn::end(
                        Creation::Created { directory, parent: Some(holder), grand_parent },
                    ),
                    Update::Failed(error) => Turn::end(Creation::Failed(error)),
                    state => Turn {
                        state: Creation::UpdatingParent { updating: state, directory, holder },
                        request: updating.request,
                    },
                }
            },
            Creation::Created { directory, parent, grand_parent } => Turn::end(
                Creation::Created { directory, parent, grand_parent },
            ),
            Creation::Failed(error) => Turn::end(Creation::Failed(error)),
        }
    }

    /// What the creation ended with: the new directory, the parent as it is now, and the
    /// directory that holds the parent as it is now; or `None` while it has not ended.
    pub fn finish(self) -> (result: Option<
        Result<(DirectoryListing, Option<DirectoryListing>, Option<DirectoryListing>), NfsError>,
    >)
        ensures
            match result {
                Some(Ok((directory, parent, grand_parent))) => self@ == (CreationView::Created {
                    directory: directory@,
                    parent: optional(parent),
                    grand_parent: optional(grand_parent),
                }),
                Some(Err(error)) => self@ == CreationView::Failed(error),
                None => self@ is Saving || self@ is UpdatingParent,
            },
    {
        match self {
            Creation::Created { directory, parent, grand_parent } => Some(
                Ok((directory, parent, grand_parent)),
            ),
            Creation::Failed(error) => Some(Err(error)),
            _ => None,
        }
    }
}

/// The directory without its first sub-directory of the given name, last modified at
/// `now`; or `None` where it has no sub-directory of that name.
pub open spec fn spec_delete(
    parent: DirectoryListingView,
    name: Seq<char>,
    now: Time,
) -> Option<DirectoryListingView> {
    match parent.remove_sub_directory(name) {
        Some(after) => Some(
            DirectoryListingView {
                metadata: DirectoryMetadataView { modified_time: now, ..after.metadata },
                ..after
            },
        ),
        None => None,
    }
}

/// The operations on directories. Each of them starts an operation and hands out its
/// first request; the operation goes on as its `step` says.
#[derive(Clone, Copy, Debug)]
pub struct DirectoryHelper {}

impl DirectoryHelper {
    /// A helper for the operations on directories.
    pub fn new() -> DirectoryHelper {
        DirectoryHelper {  }
    }

    /// Starts the creation of the directory `directory_name` in `parent_directory`, or as
    /// a root where there is none. A name that a sub-directory of the parent bears ends it
    /// at once with `DirectoryAlreadyExistsWithSameName`. The new directory gets a random
    /// identifier and the time of the clock; [`Creation::begin`] says what is made of
    /// them. The creation ends with the new directory, the parent with the new directory
    /// in it, and the directory that holds the parent as it is then.
    pub fn create(
        &self,
        directory_name: String,
        tag_type: u64,
        user_metadata: Vec<u8>,
        versioned: bool,
        access_level: AccessLevel,
        parent_directory: Option<DirectoryListing>,
    ) -> (turn: Turn<Creation>)
        ensures
            exists|seed: Option<Seed>|
                turn@ == CreationView::begin(
                    directory_name@,
                    tag_type,
                    user_metadata@,
                    versioned,
                    access_level,
                    optional(parent_directory),
                    seed,
                ),
            optional(parent_directory) is Some && optional(
                parent_directory,
            )->Some_0.find_sub_directory(directory_name@) is Some ==> turn@ == TurnView::end(
                CreationView::Failed(NfsError::DirectoryAlreadyExistsWithSameName),
            ),
    {
        let seed = Seed::draw();
        Creation::begin(
            directory_name,
            tag_type,
            user_metadata,
            versioned,
            access_level,
            parent_directory,
            seed,
        )
    }

    /// Takes the first sub-directory named `directory_to_delete` out of `parent_directory`,
    /// stamps the parent with the time of the clock, and starts its update. Fails with
    /// `DirectoryNotFound` where the parent has no sub-directory of that name, and then
    /// changes nothing. [`DirectoryHelper::delete_at`] says what is made of the time.
    pub fn delete(
        &self,
        parent_directory: &mut DirectoryListing,
        directory_to_delete: &String,
    ) -> (deleted: Result<Turn<Update>, NfsError>)
        ensures
            match deleted {
                Ok(turn) => exists|now: Time|
                    spec_delete(old(parent_directory)@, directory_to_delete@, now) == Some(
                        final(parent_directory)@,
                    ) && turn@ == UpdateView::start(final(parent_directory)@),
                Err(error) => error == NfsError::DirectoryNotFound && old(
                    parent_directory,
                )@.remove_sub_directory(directory_to_delete@) is None && final(parent_directory)@
                    == old(parent_directory)@,
            },
    {
        let now = Time::now();
        self.delete_at(parent_directory, directory_to_delete, now)
    }

    /// Takes the first sub-directory named `directory_to_delete` out of `parent_directory`,
    /// records `now` as the time at which the parent was last modified, and starts the
    /// update of the parent. Fails with `DirectoryNotFound` where the parent has no
    /// sub-directory of that name, and then changes nothing.
    pub fn delete_at(
        &self,
        parent_directory: &mut DirectoryListing,
        directory_to_delete: &String,
        now: Time,
    ) -> (deleted: Result<Turn<Update>, NfsError>)
        ensures
            match deleted {
                Ok(turn) => spec_delete(old(parent_directory)@, directory_to_delete@, now) == Some(
                    final(parent_directory)@,
                ) && turn@ == UpdateView::start(final(parent_directory)@),
                Err(error) => error == NfsError::DirectoryNotFound && spec_delete(
                    old(parent_directory)@,
                    directory_to_delete@,
                    now,
                ) is None && final(parent_directory)@ == old(parent_directory)@,
            },
    {
        match parent_directory.remove_sub_directory(directory_to_delete) {
            Ok(_) => {
                parent_directory.get_mut_metadata().set_modified_time(now);
                Ok(Update::start(parent_directory))
            },
            Err(error) => Err(error),
        }
    }

    /// Starts the update of `directory`: the directory is laid down in the place of its
    /// earlier state; then, unless it is a root, the directory that holds it is fetched,
    /// takes the metadata of `directory`, and is updated in the same way, and so on up to
    /// the root. The update ends with the directory that holds `directory`, or with `None`
    /// for a root.
    pub fn update(&self, directory: &DirectoryListing) -> (turn: Turn<Update>)
        ensures
            turn@ == UpdateView::start(directory@),
    {
        Update::start(directory)
    }

    /// Starts to ask for the names of the versions of a versioned directory. They come
    /// oldest first.
    pub fn get_versions(&self, directory_id: &NetworkName, type_tag: u64) -> (turn: Turn<Versions>)
        ensures
            turn@ == VersionsView::start(*directory_id, type_tag),
    {
        Versions::start(directory_id, type_tag)
    }

    /// Starts to fetch the version `version` of the directory `directory_id`.
    pub fn get_by_version(
        &self,
        directory_id: &NetworkName,
        access_level: &AccessLevel,
        version: NetworkName,
    ) -> (turn: Turn<Fetch>)
        ensures
            turn@ == FetchView::get_by_version(*directory_id, *access_level, version),
    {
        Fetch::get_by_version(directory_id, access_level, version)
    }

    /// Starts to fetch the newest state of the directory with the given key.
    pub fn get(&self, directory_key: &DirectoryKey) -> (turn: Turn<Fetch>)
        ensures
            turn@ == FetchView::get(*directory_key),
    {
        Fetch::get(directory_key)
    }

    /// Starts the search for the user's root directory. A root directory that has to be
    /// created gets a random identifier and the time of the clock; [`UserRoot::start`]
    /// says what is made of them.
    pub fn get_user_root_directory_listing(&self) -> (turn: Turn<UserRoot>)
        ensures
            exists|seed: Option<Seed>| turn@ == UserRootView::start(seed),
    {
        UserRoot::start(Seed::draw())
    }

    /// Starts the search for the configuration directory `directory_name`. What has to be
    /// created gets a random identifier and the time of the clock;
    /// [`Configuration::start`] says what is made of them.
    pub fn get_configuration_directory_listing(&self, directory_name: String) -> (turn: Turn<
        Configuration,
    >)
        ensures
            exists|root_seed: Option<Seed>, seed: Option<Seed>|
                turn@ == ConfigurationView::start(directory_name@, root_seed, seed),
    {
        let root_seed = Seed::draw();
        let seed = Seed::draw();
        Configuration::start(directory_name, root_seed, seed)
    }

    /// Starts to lay `directory` down for the first time.
    pub fn save_directory_listing(&self, directory: &DirectoryListing) -> (turn: Turn<Save>)
        ensures
            turn@ == SaveView::start(directory@, true),
    {
        Save::start(directory, true)
    }

    /// Starts to lay `directory` down in the place of its earlier state.
    pub fn update_directory_listing(&self, directory: &DirectoryListing) -> (turn: Turn<Save>)
        ensures
            turn@ == SaveView::start(directory@, false),
    {
        Save::start(directory, false)
    }
}

/// A directory is touched only after what it holds lies on the network. While a directory
/// is being laid down, the directory that holds it is not asked for unless the reply ended
/// the laying down well; and while a new directory is being laid down, the update of its
/// parent does not start unless the reply ended the laying down well.
pub proof fn lemma_parent_follows_child(
    saving: SaveView,
    directory: DirectoryListingView,
    parent: Option<DirectoryListingView>,
    reply: ReplyView,
)
    ensures
        ({
            let updating = (UpdateView::Saving {
                saving,
                directory: directory.metadata,
                parent,
            }).step(reply);
            let creating = (CreationView::Saving { saving, directory, parent }).step(reply);
            let saved = saving.step(reply).state;
            &&& updating.state is Loading ==> saved is Saved
            &&& updating.state is Updated ==> saved is Saved && directory.metadata.is_root()
            &&& creating.state is UpdatingParent ==> saved is Saved
            &&& creating.state is Created ==> saved is Saved && parent is None
            &&& saved is Failed ==> updating.state is Failed && creating.state is Failed
        }),
{
}

/// The version that is recorded is the block that was stored: the name that comes back for
/// the block of a versioned directory is the name that goes into its structured data, and
/// nothing goes into the structured data before a name has come back.
pub proof fn lemma_version_follows_block(
    key: DirectoryKey,
    fresh: bool,
    reply: ReplyView,
)
    ensures
        ({
            let next = (SaveView::Storing { key, fresh }).step(reply);
            match reply {
                ReplyView::Name(version) => next.state is Committing && next.request == Some(
                    crate::helper::storage::commit_version(key, fresh, version),
                ),
                _ => next.state is Failed && next.request is None,
            }
        }),
{
}

/// A change reaches the directory that holds the changed one, and goes on from there.
/// When a holder has been fetched in the course of an update, what is laid down next is the
/// holder with the metadata of the directory below it in it: found under the identifier of
/// that directory, and with the holder's time of modification set to that of the
/// directory. The first holder is what the update gives in the end; and the holder is the
/// next whose own holder is asked for.
pub proof fn lemma_update_reaches_parent(
    loading: FetchView,
    directory: DirectoryMetadataView,
    parent: Option<DirectoryListingView>,
    reply: ReplyView,
)
    requires
        loading.step(reply).state is Fetched,
    ensures
        ({
            let fetched = loading.step(reply).state->Fetched_0;
            let holder = fetched.upsert_sub_directory(directory);
            let next = (UpdateView::Loading { loading, directory, parent }).step(reply);
            &&& next.state is Saving
            &&& next.state->Saving_directory == holder.metadata
            &&& next.state->Saving_parent == Some(
                match parent {
                    Some(parent) => parent,
                    None => holder,
                },
            )
            &&& next.request == SaveView::start(holder, false).request
            &&& holder.metadata.modified_time == directory.modified_time
            &&& holder.find_sub_directory_by_id(directory.key.spec_id()) == Some(directory)
            &&& holder.files == fetched.files
        }),
{
    let fetched = loading.step(reply).state->Fetched_0;
    crate::directory_listing::laws::lemma_upsert_then_find(
        fetched,
        crate::file::FileView {
            metadata: crate::metadata::file_metadata::FileMetadata::spec_with_id_at(
                directory.key.spec_id(),
                directory.modified_time,
                Seq::empty(),
                Seq::empty(),
            ),
            datamap: crate::data_map::DataMapView::Empty,
        },
        directory,
    );
}

/// A new directory points to the directory that holds it, and to none where it is a root:
/// where the creation of a directory begins with a request, the directory being created
/// has the key of its parent as the key of the directory that holds it.
pub proof fn lemma_child_points_to_parent(
    name: Seq<char>,
    tag_type: u64,
    user_metadata: Seq<u8>,
    versioned: bool,
    access_level: AccessLevel,
    parent: Option<DirectoryListingView>,
    seed: Option<Seed>,
)
    ensures
        ({
            let begun = CreationView::begin(
                name,
                tag_type,
                user_metadata,
                versioned,
                access_level,
                parent,
                seed,
            );
            begun.request is Some ==> {
                &&& begun.state is Saving
                &&& begun.state->Saving_directory.metadata.parent_dir_key == key_of(parent)
                &&& begun.state->Saving_directory.metadata.is_root() == (parent is None)
                &&& begun.state->Saving_directory.metadata.name == name
                &&& begun.state->Saving_directory.metadata.times_in_order()
                &&& begun.state->Saving_parent == parent
            }
        }),
{
}

} // verus!
