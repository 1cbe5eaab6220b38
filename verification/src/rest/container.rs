//! A container: a directory as an application sees it.
//!
//! A container checks what it is handed, turns containers and blobs into directories and
//! files, and leaves the work to the helpers.

use vstd::pervasive::unreached;
use vstd::prelude::*;
use vstd::utf8::encode_utf8;

use crate::clock::Time;
use crate::codec::primitives::append_bytes;
use crate::directory_listing::directory_info::DirectoryInfo;
use crate::directory_listing::DirectoryListing;
use crate::directory_listing::DirectoryListingView;
use crate::errors::NfsError;
use crate::exchange::Reply;
use crate::exchange::ReplyView;
use crate::exchange::Turn;
use crate::exchange::TurnView;
use crate::file::File;
use crate::file::FileView;
use crate::helper::directory_helper::Creation;
use crate::helper::directory_helper::CreationView;
use crate::helper::directory_helper::DirectoryHelper;
use crate::helper::directory_helper::Seed;
use crate::helper::directory_helper::Update;
use crate::helper::directory_helper::UpdateView;
use crate::helper::file_helper::spec_create;
use crate::helper::file_helper::spec_update;
use crate::helper::file_helper::spec_update_metadata;
use crate::helper::file_helper::FileHelper;
use crate::helper::file_helper::History;
use crate::helper::file_helper::HistoryView;
use crate::helper::reader::Reading;
use crate::helper::reader::ReadingView;
use crate::helper::roots::UserRoot;
use crate::helper::roots::UserRootView;
use crate::helper::storage::Fetch;
use crate::helper::storage::FetchView;
use crate::helper::storage::Versions;
use crate::helper::storage::VersionsView;
use crate::helper::writer::spec_write;
use crate::helper::writer::Closing;
use crate::helper::writer::ClosingView;
use crate::helper::writer::Mode;
use crate::helper::writer::Preparation;
use crate::helper::writer::Writer;
use crate::helper::writer::WriterView;
use crate::metadata::directory_metadata::DirectoryMetadataView;
use crate::metadata::file_metadata::FileMetadataView;
use crate::name::lemma_name_view;
use crate::name::NetworkName;
use crate::rest::blob::metadata_text;
use crate::rest::blob::spec_metadata_text;
use crate::rest::blob::Blob;
use crate::rest::container_info::ContainerInfo;
use crate::views::lemma_views_push;
use crate::views::optional;
use crate::views::outcome;
use crate::views::views;
use crate::AccessLevel;
use crate::UNVERSIONED_DIRECTORY_LISTING_TAG;
use crate::VERSIONED_DIRECTORY_LISTING_TAG;

verus! {

/// The bytes that user metadata handed in as text is kept as: none where no text is handed
/// in, and the UTF-8 form of the text otherwise. Empty text is refused with
/// `ParameterInvalid`.
pub open spec fn spec_validate_metadata(metadata: Option<Seq<char>>) -> Result<Seq<u8>, NfsError> {
    match metadata {
        Some(text) => if text.len() == 0 {
            Err(NfsError::ParameterInvalid)
        } else {
            Ok(encode_utf8(text))
        },
        None => Ok(Seq::empty()),
    }
}

/// The text of what may be absent.
pub open spec fn optional_text(text: Option<String>) -> Option<Seq<char>> {
    match text {
        Some(text) => Some(text@),
        None => None,
    }
}

/// The tag under which a directory lies: one for the versioned, another for the
/// unversioned.
pub open spec fn spec_tag_type(versioned: bool) -> u64 {
    if versioned {
        VERSIONED_DIRECTORY_LISTING_TAG
    } else {
        UNVERSIONED_DIRECTORY_LISTING_TAG
    }
}

/// The tag under which a directory lies: one for the versioned, another for the
/// unversioned.
pub fn get_tag_type(versioned: bool) -> (tag: u64)
    ensures
        tag == spec_tag_type(versioned),
{
    if versioned {
        VERSIONED_DIRECTORY_LISTING_TAG
    } else {
        UNVERSIONED_DIRECTORY_LISTING_TAG
    }
}

/// A directory, with the operations that an application has on it.
#[derive(Debug)]
pub struct Container {
    directory_listing: DirectoryListing,
}

impl View for Container {
    type V = DirectoryListingView;

    closed spec fn view(&self) -> DirectoryListingView {
        self.directory_listing@
    }
}

/// Where the fetching of a container stands.
#[derive(Debug)]
pub enum Authorisation {
    /// The directory of the container is being fetched.
    Loading { loading: Fetch },
    /// The user's root directory is being looked for.
    Rooting { rooting: UserRoot },
    /// The end: the container.
    Authorised(Container),
    /// The end: what went wrong.
    Failed(NfsError),
}

/// The mathematical value of an [`Authorisation`].
pub ghost enum AuthorisationView {
    Loading { loading: FetchView },
    Rooting { rooting: UserRootView },
    Authorised(DirectoryListingView),
    Failed(NfsError),
}

impl View for Authorisation {
    type V = AuthorisationView;

    open spec fn view(&self) -> AuthorisationView {
        match self {
            Authorisation::Loading { loading } => AuthorisationView::Loading { loading: loading@ },
            Authorisation::Rooting { rooting } => AuthorisationView::Rooting { rooting: rooting@ },
            Authorisation::Authorised(container) => AuthorisationView::Authorised(container@),
            Authorisation::Failed(error) => AuthorisationView::Failed(*error),
        }
    }
}

impl AuthorisationView {
    /// A container that is named by its entry is fetched by the key in the entry, and
    /// without an entry the container is the user's root directory.
    pub open spec fn start(
        container_info: Option<DirectoryMetadataView>,
        seed: Option<Seed>,
    ) -> TurnView<AuthorisationView> {
        match container_info {
            Some(info) => Self::after_loading(FetchView::get(info.key)),
            None => Self::after_rooting(UserRootView::start(seed)),
        }
    }

    /// A container is fetched by the key in its entry: in its newest state, or in the
    /// version that is named.
    pub open spec fn get_container(
        container_info: DirectoryMetadataView,
        version: Option<NetworkName>,
    ) -> TurnView<AuthorisationView> {
        match version {
            Some(version) => Self::after_loading(
                FetchView::get_by_version(
                    container_info.key.spec_id(),
                    container_info.key.spec_access_level(),
                    version,
                ),
            ),
            None => Self::after_loading(FetchView::get(container_info.key)),
        }
    }

    /// What follows a step of the fetch: the directory fetched is the container.
    pub open spec fn after_loading(loading: TurnView<FetchView>) -> TurnView<AuthorisationView> {
        match loading.state {
            FetchView::Fetched(directory) => TurnView::end(
                AuthorisationView::Authorised(directory),
            ),
            FetchView::Failed(error) => TurnView::end(AuthorisationView::Failed(error)),
            _ => TurnView {
                state: AuthorisationView::Loading { loading: loading.state },
                request: loading.request,
            },
        }
    }

    /// What follows a step of the search for the root directory: the directory found is
    /// the container.
    pub open spec fn after_rooting(rooting: TurnView<UserRootView>) -> TurnView<
        AuthorisationView,
    > {
        match rooting.state {
            UserRootView::Found(directory) => TurnView::end(
                AuthorisationView::Authorised(directory),
            ),
            UserRootView::Failed(error) => TurnView::end(AuthorisationView::Failed(error)),
            _ => TurnView {
                state: AuthorisationView::Rooting { rooting: rooting.state },
                request: rooting.request,
            },
        }
    }

    /// How the fetching goes on: the reply goes to the part that is under way.
    pub open spec fn step(self, reply: ReplyView) -> TurnView<AuthorisationView> {
        match self {
            AuthorisationView::Loading { loading } => Self::after_loading(loading.step(reply)),
            AuthorisationView::Rooting { rooting } => Self::after_rooting(rooting.step(reply)),
            _ => TurnView::end(self),
        }
    }
}

impl Authorisation {
    fn after_loading(loading: Turn<Fetch>) -> (turn: Turn<Authorisation>)
        ensures
            turn@ == AuthorisationView::after_loading(loading@),
    {
        match loading.state {
            Fetch::Fetched(directory) => Turn::end(
                Authorisation::Authorised(Container::with_listing(directory)),
            ),
            Fetch::Failed(error) => Turn::end(Authorisation::Failed(error)),
            state => Turn {
                state: Authorisation::Loading { loading: state },
                request: loading.request,
            },
        }
    }

    fn after_rooting(rooting: Turn<UserRoot>) -> (turn: Turn<Authorisation>)
        ensures
            turn@ == AuthorisationView::after_rooting(rooting@),
    {
        match rooting.state {
            UserRoot::Found(directory) => Turn::end(
                Authorisation::Authorised(Container::with_listing(directory)),
            ),
            UserRoot::Failed(error) => Turn::end(Authorisation::Failed(error)),
            state => Turn {
                state: Authorisation::Rooting { rooting: state },
                request: rooting.request,
            },
        }
    }

    /// Takes the reply to the pending request and gives the next state.
    pub fn step(self, reply: Reply) -> (next: Turn<Authorisation>)
        ensures
            next@ == self@.step(reply@),
    {
        match self {
            Authorisation::Loading { loading } => Authorisation::after_loading(
                loading.step(reply),
            ),
            Authorisation::Rooting { rooting } => Authorisation::after_rooting(
                rooting.step(reply),
            ),
            Authorisation::Authorised(container) => Turn::end(
                Authorisation::Authorised(container),
            ),
            Authorisation::Failed(error) => Turn::end(Authorisation::Failed(error)),
        }
    }

    /// What the fetching ended with, or `None` while it has not ended.
    pub fn finish(self) -> (result: Option<Result<Container, NfsError>>)
        ensures
            match result {
                Some(Ok(container)) => self@ == AuthorisationView::Authorised(container@),
                Some(Err(error)) => self@ == AuthorisationView::Failed(error),
                None => self@ is Loading || self@ is Rooting,
            },
    {
        match self {
            Authorisation::Authorised(container) => Some(Ok(container)),
            Authorisation::Failed(error) => Some(Err(error)),
            _ => None,
        }
    }
}

/// Where the copying of a blob stands.
#[derive(Debug)]
pub enum Copying {
    /// The container that is to take the copy is being fetched.
    Loading { loading: Fetch, file: File },
    /// The container, with the copy in it, is being updated.
    Updating { updating: Update, destination: DirectoryListing },
    /// The end: the container with the copy in it, and the container that holds it as it
    /// is now.
    Copied { destination: DirectoryListing, parent: Option<DirectoryListing> },
    /// The end: what went wrong.
    Failed(NfsError),
}

/// The mathematical value of a [`Copying`].
pub ghost enum CopyingView {
    Loading { loading: FetchView, file: FileView },
    Updating { updating: UpdateView, destination: DirectoryListingView },
    Copied { destination: DirectoryListingView, parent: Option<DirectoryListingView> },
    Failed(NfsError),
}

impl View for Copying {
    type V = CopyingView;

    open spec fn view(&self) -> CopyingView {
        match self {
            Copying::Loading { loading, file } => CopyingView::Loading {
                loading: loading@,
                file: file@,
            },
            Copying::Updating { updating, destination } => CopyingView::Updating {
                updating: updating@,
                destination: destination@,
            },
            Copying::Copied { destination, parent } => CopyingView::Copied {
                destination: destination@,
                parent: optional(*parent),
            },
            Copying::Failed(error) => CopyingView::Failed(*error),
        }
    }
}

impl CopyingView {
    /// What follows a step of the fetch of the destination. A destination that holds a
    /// file of the name of the copy ends the copying with
    /// `FileAlreadyExistsWithSameName`. Into any other the file goes as it is, behind the
    /// files that are there, and the destination is updated.
    pub open spec fn after_loading(loading: TurnView<FetchView>, file: FileView) -> TurnView<
        CopyingView,
    > {
        match loading.state {
            FetchView::Fetched(destination) => if destination.find_file(file.metadata.name)
                is Some {
                TurnView::end(CopyingView::Failed(NfsError::FileAlreadyExistsWithSameName))
            } else {
                let destination = DirectoryListingView {
                    files: destination.files.push(file),
                    ..destination
                };
                Self::after_updating(UpdateView::start(destination), destination)
            },
            FetchView::Failed(error) => TurnView::end(CopyingView::Failed(error)),
            _ => TurnView {
                state: CopyingView::Loading { loading: loading.state, file },
                request: loading.request,
            },
        }
    }

    /// What follows a step of the update of the destination: when it has ended, the blob
    /// is copied.
    pub open spec fn after_updating(
        updating: TurnView<UpdateView>,
        destination: DirectoryListingView,
    ) -> TurnView<CopyingView> {
        match updating.state {
            UpdateView::Updated(parent) => TurnView::end(
                CopyingView::Copied { destination, parent },
            ),
            UpdateView::Failed(error) => TurnView::end(CopyingView::Failed(error)),
            _ => TurnView {
                state: CopyingView::Updating { updating: updating.state, destination },
                request: updating.request,
            },
        }
    }

    /// How the copying goes on: the reply goes to the part that is under way.
    pub open spec fn step(self, reply: ReplyView) -> TurnView<CopyingView> {
        match self {
            CopyingView::Loading { loading, file } => Self::after_loading(
                loading.step(reply),
                file,
            ),
            CopyingView::Updating { updating, destination } => Self::after_updating(
                updating.step(reply),
                destination,
            ),
            _ => TurnView::end(self),
        }
    }
}

impl Copying {
    fn after_loading(loading: Turn<Fetch>, file: File) -> (turn: Turn<Copying>)
        ensures
            turn@ == CopyingView::after_loading(loading@, file@),
    {
        match loading.state {
            Fetch::Fetched(destination) => {
                if destination.find_file(file.get_name()).is_some() {
                    Turn::end(Copying::Failed(NfsError::FileAlreadyExistsWithSameName))
                } else {
                    let mut destination = destination;
                    let files = destination.get_mut_files();
                    proof {
                        lemma_views_push(files@, file);
                    }
                    files.push(file);
                    let updating = Update::start(&destination);
                    Copying::after_updating(updating, destination)
                }
            },
            Fetch::Failed(error) => Turn::end(Copying::Failed(error)),
            state => Turn {
                state: Copying::Loading { loading: state, file },
                request: loading.request,
            },
        }
    }

    fn after_updating(updating: Turn<Update>, destination: DirectoryListing) -> (turn: Turn<
        Copying,
    >)
        ensures
            turn@ == CopyingView::after_updating(updating@, destination@),
    {
        match updating.state {
            Update::Updated(parent) => Turn::end(Copying::Copied { destination, parent }),
            Update::Failed(error) => Turn::end(Copying::Failed(error)),
            state => Turn {
                state: Copying::Updating { updating: state, destination },
                request: updating.request,
            },
        }
    }

    /// Takes the reply to the pending request and gives the next state.
    pub fn step(self, reply: Reply) -> (next: Turn<Copying>)
        ensures
            next@ == self@.step(reply@),
    {
        match self {
            Copying::Loading { loading, file } => Copying::after_loading(
                loading.step(reply),
                file,
            ),
            Copying::Updating { updating, destination } => Copying::after_updating(
                updating.step(reply),
                destination,
            ),
            Copying::Copied { destination, parent } => Turn::end(
                Copying::Copied { destination, parent },
            ),
            Copying::Failed(error) => Turn::end(Copying::Failed(error)),
        }
    }

    /// What the copying ended with: the container with the copy in it, and the container
    /// that holds it as it is now; or `None` while it has not ended.
    pub fn finish(self) -> (result: Option<
        Result<(DirectoryListing, Option<DirectoryListing>), NfsError>,
    >)
        ensures
            match result {
                Some(Ok((destination, parent))) => self@ == (CopyingView::Copied {
                    destination: destination@,
                    parent: optional(parent),
                }),
                Some(Err(error)) => self@ == CopyingView::Failed(error),
                None => self@ is Loading || self@ is Updating,
            },
    {
        match self {
            Copying::Copied { destination, parent } => Some(Ok((destination, parent))),
            Copying::Failed(error) => Some(Err(error)),
            _ => None,
        }
    }
}

impl DirectoryListingView {
    /// What asking a container for a new container comes to. An empty name is refused with
    /// `ParameterInvalid`, and a name that a sub-directory bears with
    /// `DirectoryAlreadyExistsWithSameName`. Else a directory of that name, without user
    /// metadata and under the tag of its kind, is created in this one.
    pub open spec fn create_container(
        self,
        name: Seq<char>,
        versioned: bool,
        access_level: AccessLevel,
        seed: Option<Seed>,
    ) -> Result<TurnView<CreationView>, NfsError> {
        if name.len() == 0 {
            Err(NfsError::ParameterInvalid)
        } else if self.find_sub_directory(name) is Some {
            Err(NfsError::DirectoryAlreadyExistsWithSameName)
        } else {
            Ok(
                CreationView::begin(
                    name,
                    spec_tag_type(versioned),
                    Seq::empty(),
                    versioned,
                    access_level,
                    Some(self),
                    seed,
                ),
            )
        }
    }

    /// What asking a container for a new blob comes to. An empty name and empty user
    /// metadata are refused with `ParameterInvalid`; the rest is as for a new file.
    pub open spec fn create_blob(
        self,
        name: Seq<char>,
        metadata: Option<Seq<char>>,
        seed: Option<Seed>,
    ) -> Result<WriterView, NfsError> {
        if name.len() == 0 {
            Err(NfsError::ParameterInvalid)
        } else {
            match spec_validate_metadata(metadata) {
                Ok(user_metadata) => spec_create(name, user_metadata, self, seed),
                Err(error) => Err(error),
            }
        }
    }

    /// What asking a container to put other content in the place of a blob's comes to:
    /// the blob has to be one that the container holds; a writer that overwrites takes
    /// the content at its start and is closed.
    pub open spec fn update_blob_content(
        self,
        blob: FileView,
        data: Seq<u8>,
        now: Time,
    ) -> Result<TurnView<ClosingView>, NfsError> {
        match spec_update(blob, Mode::Overwrite, self) {
            Ok(_) => Ok(
                ClosingView::start(
                    WriterView {
                        file: blob,
                        parent_directory: self,
                        content: spec_write(Seq::empty(), data, 0),
                    },
                    now,
                ),
            ),
            Err(error) => Err(error),
        }
    }

    /// What asking a container for a reader of a blob comes to: `FileNotFound` where the
    /// container holds no blob of that name, and the opening of the blob otherwise.
    pub open spec fn read_blob(self, blob: FileView) -> Result<TurnView<ReadingView>, NfsError> {
        if self.find_file(blob.metadata.name) is Some {
            Ok(ReadingView::start(blob))
        } else {
            Err(NfsError::FileNotFound)
        }
    }

    /// What asking a container for the versions of a blob comes to: `FileNotFound` where
    /// the container holds no blob of that name, and the search for the versions of the
    /// blob otherwise.
    pub open spec fn blob_versions(self, name: Seq<char>) -> Result<
        TurnView<HistoryView>,
        NfsError,
    > {
        match self.find_file(name) {
            Some(file) => Ok(HistoryView::start(file, self)),
            None => Err(NfsError::FileNotFound),
        }
    }

    /// The container after the user metadata of one of its blobs was changed: empty
    /// metadata is refused with `ParameterInvalid`; the blob takes the metadata, none where
    /// none is handed in; the rest is as for a change of a file's metadata.
    pub open spec fn update_blob_metadata(
        self,
        blob: FileView,
        metadata: Option<Seq<char>>,
    ) -> Result<DirectoryListingView, NfsError> {
        match spec_validate_metadata(metadata) {
            Ok(user_metadata) => spec_update_metadata(
                FileView {
                    metadata: FileMetadataView { user_metadata, ..blob.metadata },
                    ..blob
                },
                self,
            ),
            Err(error) => Err(error),
        }
    }

    /// What asking a container to copy one of its blobs comes to. A destination with the
    /// identifier and the tag of the container itself is refused with
    /// `DestinationAndSourceAreSame`, and after that a name that no blob of the container
    /// bears with `FileNotFound`. Else the destination is fetched, to take the blob.
    pub open spec fn copy_blob(
        self,
        blob_name: Seq<char>,
        to_container: DirectoryMetadataView,
    ) -> Result<TurnView<CopyingView>, NfsError> {
        if self.metadata.key.spec_id() == to_container.key.spec_id()
            && self.metadata.key.spec_type_tag() == to_container.key.spec_type_tag() {
            Err(NfsError::DestinationAndSourceAreSame)
        } else {
            match self.find_file(blob_name) {
                Some(file) => Ok(CopyingView::after_loading(FetchView::get(to_container.key), file)),
                None => Err(NfsError::FileNotFound),
            }
        }
    }
}

impl Container {
    /// Starts to fetch the container that `container_info` names, or the user's root
    /// directory where none is named. A root directory that has to be created gets a
    /// random identifier and the time of the clock; [`Container::authorise_with`] says
    /// what is made of them.
    pub fn authorise(container_info: Option<ContainerInfo>) -> (turn: Turn<Authorisation>)
        ensures
            exists|seed: Option<Seed>|
                turn@ == #[trigger] AuthorisationView::start(optional(container_info), seed),
    {
        Container::authorise_with(container_info, Seed::draw())
    }

    /// Starts to fetch the container that `container_info` names, or the user's root
    /// directory where none is named; `seed` is what a new root directory would take from
    /// outside.
    pub fn authorise_with(container_info: Option<ContainerInfo>, seed: Option<Seed>) -> (turn: Turn<
        Authorisation,
    >)
        ensures
            turn@ == AuthorisationView::start(optional(container_info), seed),
    {
        match container_info {
            Some(info) => {
                let directory = info.convert_to_directory_info();
                Authorisation::after_loading(Fetch::get(directory.get_key()))
            },
            None => Authorisation::after_rooting(UserRoot::start(seed)),
        }
    }

    /// The container that the directory is.
    pub fn with_listing(directory_listing: DirectoryListing) -> (container: Container)
        ensures
            container@ == directory_listing@,
    {
        Container { directory_listing }
    }

    /// The directory that the container is.
    pub fn get_directory_listing(&self) -> (directory_listing: &DirectoryListing)
        ensures
            directory_listing@ == self@,
    {
        &self.directory_listing
    }

    /// Puts another state of the directory in the place of the one that the container
    /// holds.
    pub fn refresh(&mut self, directory_listing: DirectoryListing)
        ensures
            final(self)@ == directory_listing@,
    {
        self.directory_listing = directory_listing;
    }

    /// Starts the creation of a container named `name` in this one. The creation ends
    /// with the new directory and with this one as it is then. The new directory gets a
    /// random identifier and the time of the clock; [`Container::create_with`] says what
    /// is made of them.
    pub fn create(&self, name: String, versioned: bool, access_level: AccessLevel) -> (created:
        Result<Turn<Creation>, NfsError>)
        ensures
            exists|seed: Option<Seed>|
                outcome(created) == #[trigger] self@.create_container(
                    name@,
                    versioned,
                    access_level,
                    seed,
                ),
    {
        self.create_with(name, versioned, access_level, Seed::draw())
    }

    /// Starts the creation of a container named `name` in this one; `seed` is what the new
    /// directory takes from outside.
    pub fn create_with(
        &self,
        name: String,
        versioned: bool,
        access_level: AccessLevel,
        seed: Option<Seed>,
    ) -> (created: Result<Turn<Creation>, NfsError>)
        ensures
            outcome(created) == self@.create_container(name@, versioned, access_level, seed),
    {
        if name.as_str().is_empty() {
            return Err(NfsError::ParameterInvalid);
        }
        if self.directory_listing.find_sub_directory(&name).is_some() {
            return Err(NfsError::DirectoryAlreadyExistsWithSameName);
        }
        Ok(
            Creation::begin(
                name,
                get_tag_type(versioned),
                Vec::new(),
                versioned,
                access_level,
                Some(self.directory_listing.clone()),
                seed,
            ),
        )
    }

    /// When the container was created.
    pub fn get_created_time(&self) -> (time: &Time)
        ensures
            *time == self@.metadata.created_time,
    {
        self.directory_listing.get_metadata().get_created_time()
    }

    /// The entry by which the container is fetched.
    pub fn get_info(&self) -> (info: ContainerInfo)
        ensures
            info@ == self@.metadata,
    {
        ContainerInfo::convert_from_directory_info(
            DirectoryInfo::new(self.directory_listing.get_metadata().clone()),
        )
    }

    /// The user metadata of the container as text; empty where it is no text.
    pub fn get_metadata(&self) -> (text: String)
        ensures
            text@ == spec_metadata_text(self@.metadata.user_metadata),
    {
        metadata_text(self.directory_listing.get_metadata().get_user_metadata())
    }

    /// The name of the container.
    pub fn get_name(&self) -> (name: &String)
        ensures
            name@ == self@.metadata.name,
    {
        self.directory_listing.get_metadata().get_name()
    }

    /// The blobs of the container, in the order in which they were added.
    pub fn get_blobs(&self) -> (blobs: Vec<Blob>)
        ensures
            views(blobs@) == self@.files,
    {
        let files = self.directory_listing.get_files();
        let mut blobs: Vec<Blob> = Vec::with_capacity(files.len());
        let mut i: usize = 0;
        while i < files.len()
            invariant
                0 <= i <= files.len(),
                views(blobs@) == views(files@).subrange(0, i as int),
            decreases files.len() - i,
        {
            let blob = Blob::convert_from_file(files[i].clone());
            proof {
                lemma_views_push(blobs@, blob);
            }
            blobs.push(blob);
            assert(views(blobs@) =~= views(files@).subrange(0, i + 1));
            i += 1;
        }
        assert(views(blobs@) =~= views(files@));
        blobs
    }

    /// The first blob named `name`. Fails with `FileNotFound` where the container holds
    /// none.
    pub fn get_blob(&self, name: String) -> (blob: Result<Blob, NfsError>)
        ensures
            match blob {
                Ok(blob) => self@.find_file(name@) == Some(blob@),
                Err(error) => error == NfsError::FileNotFound && self@.find_file(name@) is None,
            },
    {
        match self.directory_listing.find_file(&name) {
            Some(file) => Ok(Blob::convert_from_file(file.clone())),
            None => Err(NfsError::FileNotFound),
        }
    }

    /// The entries of the containers in this one, in the order in which they were added.
    pub fn get_containers(&self) -> (containers: Vec<ContainerInfo>)
        ensures
            views(containers@) == self@.sub_directories,
    {
        let directories = self.directory_listing.get_sub_directories();
        let mut containers: Vec<ContainerInfo> = Vec::with_capacity(directories.len());
        let mut i: usize = 0;
        while i < directories.len()
            invariant
                0 <= i <= directories.len(),
                views(containers@) == views(directories@).subrange(0, i as int),
            decreases directories.len() - i,
        {
            let info = ContainerInfo::convert_from_directory_info(
                DirectoryInfo::new(directories[i].clone()),
            );
            proof {
                lemma_views_push(containers@, info);
            }
            containers.push(info);
            assert(views(containers@) =~= views(directories@).subrange(0, i + 1));
            i += 1;
        }
        assert(views(containers@) =~= views(directories@));
        containers
    }

    /// Starts to ask for the names of the versions of the container, oldest first.
    pub fn get_versions(&self) -> (turn: Turn<Versions>)
        ensures
            turn@ == VersionsView::start(
                self@.metadata.key.spec_id(),
                self@.metadata.key.spec_type_tag(),
            ),
    {
        let key = self.directory_listing.get_key();
        Versions::start(key.get_id(), key.get_type_tag())
    }

    /// Starts to ask for the names of the versions of the container that `container_info`
    /// names, oldest first.
    pub fn get_container_versions(&self, container_info: &ContainerInfo) -> (turn: Turn<Versions>)
        ensures
            turn@ == VersionsView::start(
                container_info@.key.spec_id(),
                container_info@.key.spec_type_tag(),
            ),
    {
        let directory = container_info.convert_to_directory_info();
        Versions::start(directory.get_key().get_id(), directory.get_key().get_type_tag())
    }

    /// Starts to fetch the container that `container_info` names: its newest state, or the
    /// version named.
    pub fn get_container(&self, container_info: &ContainerInfo, version: Option<NetworkName>) -> (turn:
        Turn<Authorisation>)
        ensures
            turn@ == AuthorisationView::get_container(container_info@, version),
    {
        let directory = container_info.convert_to_directory_info();
        let key = directory.get_key();
        match version {
            Some(version) => Authorisation::after_loading(
                Fetch::get_by_version(key.get_id(), key.get_access_level(), version),
            ),
            None => Authorisation::after_loading(Fetch::get(key)),
        }
    }

    /// Takes the first container named `name` out of this one, stamps this one with the
    /// time of the clock, and starts its update. Fails with `DirectoryNotFound` where
    /// there is no container of that name, and then changes nothing.
    pub fn delete_container(&mut self, name: &String) -> (deleted: Result<Turn<Update>, NfsError>)
        ensures
            match deleted {
                Ok(turn) => exists|now: Time|
                    crate::helper::directory_helper::spec_delete(old(self)@, name@, now) == Some(
                        final(self)@,
                    ) && turn@ == UpdateView::start(final(self)@),
                Err(error) => error == NfsError::DirectoryNotFound && old(
                    self,
                )@.remove_sub_directory(name@) is None && final(self)@ == old(self)@,
            },
    {
        DirectoryHelper::new().delete(&mut self.directory_listing, name)
    }

    /// A writer for a new blob named `name` in the container. Fails with
    /// `ParameterInvalid` where the name or the metadata is empty, and with
    /// `FileAlreadyExistsWithSameName` where the container holds a blob of that name. The
    /// blob is in the container once the writer is closed.
    pub fn create_blob(&self, name: String, metadata: Option<String>) -> (made: Result<
        Writer,
        NfsError,
    >)
        ensures
            exists|seed: Option<Seed>|
                outcome(made) == #[trigger] self@.create_blob(name@, optional_text(metadata), seed),
    {
        self.create_blob_with(name, metadata, Seed::draw())
    }

    /// A writer for a new blob named `name` in the container; `seed` is what the new blob
    /// takes from outside.
    pub fn create_blob_with(&self, name: String, metadata: Option<String>, seed: Option<Seed>) -> (made:
        Result<Writer, NfsError>)
        ensures
            outcome(made) == self@.create_blob(name@, optional_text(metadata), seed),
    {
        if name.as_str().is_empty() {
            return Err(NfsError::ParameterInvalid);
        }
        let user_metadata = match Container::validate_metadata(metadata) {
            Ok(user_metadata) => user_metadata,
            Err(error) => { return Err(error); },
        };
        FileHelper::new().create_with(name, user_metadata, self.directory_listing.clone(), seed)
    }

    /// Starts to put `data` in the place of the content of `blob`, which the container has
    /// to hold as it is handed in. It ends with the container as it is then.
    pub fn update_blob_content(&self, blob: &Blob, data: &[u8]) -> (updated: Result<
        Turn<Closing>,
        NfsError,
    >)
        ensures
            exists|now: Time|
                outcome(updated) == #[trigger] self@.update_blob_content(blob@, data@, now),
    {
        let file = blob.convert_to_file().clone();
        let prepared = match FileHelper::new().update(
            file,
            Mode::Overwrite,
            self.directory_listing.clone(),
        ) {
            Ok(prepared) => prepared,
            Err(error) => {
                assert(self@.update_blob_content(blob@, data@, Time { sec: 0, nsec: 0 }) == Err::<
                    TurnView<ClosingView>,
                    NfsError,
                >(error));
                return Err(error);
            },
        };
        match prepared.state {
            Preparation::Ready(writer) => {
                let mut writer = writer;
                let length = data.len();
                assert(data@.len() == length);
                writer.write(data, 0);
                let now = Time::now();
                let turn = writer.close_at(now);
                assert(turn@ == self@.update_blob_content(blob@, data@, now)->Ok_0);
                assert(self@.update_blob_content(blob@, data@, now) is Ok);
                Ok(turn)
            },
            _ => unreached(),
        }
    }

    /// Starts a writer that modifies the content of `blob`, which the container has to
    /// hold as it is handed in.
    pub fn get_blob_writer(&self, blob: &Blob) -> (prepared: Result<Turn<Preparation>, NfsError>)
        ensures
            outcome(prepared) == spec_update(blob@, Mode::Modify, self@),
    {
        FileHelper::new().update(
            blob.convert_to_file().clone(),
            Mode::Modify,
            self.directory_listing.clone(),
        )
    }

    /// Starts to fetch the content of `blob`; the reader that it ends with holds all of
    /// it. Fails with `FileNotFound` where the container holds no blob of that name.
    pub fn get_blob_content(&self, blob: &Blob) -> (reading: Result<Turn<Reading>, NfsError>)
        ensures
            outcome(reading) == self@.read_blob(blob@),
    {
        self.get_blob_reader(blob)
    }

    /// Starts to open `blob` for reading. Fails with `FileNotFound` where the container
    /// holds no blob of that name.
    pub fn get_blob_reader(&self, blob: &Blob) -> (reading: Result<Turn<Reading>, NfsError>)
        ensures
            outcome(reading) == self@.read_blob(blob@),
    {
        if self.directory_listing.find_file(blob.get_name()).is_some() {
            Ok(Reading::start(blob.convert_to_file()))
        } else {
            Err(NfsError::FileNotFound)
        }
    }

    /// Starts the search for the versions of the blob named `name`. Fails with
    /// `FileNotFound` where the container holds no blob of that name.
    pub fn get_blob_versions(&self, name: &String) -> (history: Result<Turn<History>, NfsError>)
        ensures
            outcome(history) == self@.blob_versions(name@),
    {
        match self.directory_listing.find_file(name) {
            Some(file) => Ok(History::start(file, &self.directory_listing)),
            None => Err(NfsError::FileNotFound),
        }
    }

    /// Gives `blob` the user metadata `metadata`, or none where none is handed in, puts it
    /// in the place of the blob of the container that has its identifier, and starts the
    /// update of the container. A failure changes nothing.
    pub fn update_blob_metadata(&mut self, blob: Blob, metadata: Option<String>) -> (updated:
        Result<Turn<Update>, NfsError>)
        ensures
            match updated {
                Ok(turn) => old(self)@.update_blob_metadata(blob@, optional_text(metadata)) == Ok::<
                    DirectoryListingView,
                    NfsError,
                >(final(self)@) && turn@ == UpdateView::start(final(self)@),
                Err(error) => old(self)@.update_blob_metadata(blob@, optional_text(metadata))
                    == Err::<DirectoryListingView, NfsError>(error) && final(self)@ == old(self)@,
            },
    {
        let user_metadata = match Container::validate_metadata(metadata) {
            Ok(user_metadata) => user_metadata,
            Err(error) => { return Err(error); },
        };
        let mut file = blob.into_file();
        file.get_mut_metadata().set_user_metadata(user_metadata);
        FileHelper::new().update_metadata(file, &mut self.directory_listing)
    }

    /// Takes the first blob named `name` out of the container and starts the update of
    /// the container. Fails with `FileNotFound` where the container holds no blob of that
    /// name, and then changes nothing.
    pub fn delete_blob(&mut self, name: String) -> (deleted: Result<Turn<Update>, NfsError>)
        ensures
            match deleted {
                Ok(turn) => old(self)@.remove_file(name@) == Some(final(self)@) && turn@
                    == UpdateView::start(final(self)@),
                Err(error) => error == NfsError::FileNotFound && old(self)@.remove_file(name@)
                    is None && final(self)@ == old(self)@,
            },
    {
        FileHelper::new().delete(name, &mut self.directory_listing)
    }

    /// Starts to copy the blob named `blob_name` into the container that `to_container`
    /// names. The copy is the file itself, with its identifier and its data map. It ends
    /// with the destination as it is then.
    pub fn copy_blob(&self, blob_name: &String, to_container: &ContainerInfo) -> (copying: Result<
        Turn<Copying>,
        NfsError,
    >)
        ensures
            outcome(copying) == self@.copy_blob(blob_name@, to_container@),
    {
        let destination = to_container.convert_to_directory_info();
        let key = self.directory_listing.get_key();
        proof {
            lemma_name_view(key.spec_id(), destination@.key.spec_id());
        }
        if key.get_id().equals(destination.get_key().get_id()) && key.get_type_tag()
            == destination.get_key().get_type_tag() {
            return Err(NfsError::DestinationAndSourceAreSame);
        }
        match self.directory_listing.find_file(blob_name) {
            Some(file) => Ok(
                Copying::after_loading(Fetch::get(destination.get_key()), file.clone()),
            ),
            None => Err(NfsError::FileNotFound),
        }
    }

    /// The bytes that user metadata handed in as text is kept as. Fails with
    /// `ParameterInvalid` where the text is empty.
    pub fn validate_metadata(metadata: Option<String>) -> (validated: Result<Vec<u8>, NfsError>)
        ensures
            outcome(validated) == spec_validate_metadata(optional_text(metadata)),
    {
        match metadata {
            Some(text) => {
                if text.as_str().is_empty() {
                    Err(NfsError::ParameterInvalid)
                } else {
                    let mut bytes: Vec<u8> = Vec::new();
                    append_bytes(&mut bytes, text.as_str().as_bytes());
                    assert(bytes@ =~= encode_utf8(text@));
                    Ok(bytes)
                }
            },
            None => Ok(Vec::new()),
        }
    }
}

/// A copy keeps the names of the destination apart: the file goes into a destination
/// only where no file of the destination bears its name.
pub proof fn lemma_copy_keeps_names(destination: DirectoryListingView, file: FileView)
    requires
        destination.names_are_unique(),
    ensures
        ({
            let next = CopyingView::after_loading(
                TurnView::end(FetchView::Fetched(destination)),
                file,
            );
            let copied = DirectoryListingView {
                files: destination.files.push(file),
                ..destination
            };
            if destination.find_file(file.metadata.name) is Some {
                next == TurnView::end(
                    CopyingView::Failed(NfsError::FileAlreadyExistsWithSameName),
                )
            } else {
                &&& copied.names_are_unique()
                &&& next == CopyingView::after_updating(UpdateView::start(copied), copied)
            }
        }),
{
    let names = crate::directory_listing::file_names(destination.files);
    crate::views::lemma_first_position(names, file.metadata.name);
    if destination.find_file(file.metadata.name) is None {
        let copied = destination.files.push(file);
        let copied_names = crate::directory_listing::file_names(copied);
        assert forall|i: int, j: int|
            0 <= i < copied_names.len() && 0 <= j < copied_names.len() && i
                != j implies copied_names[i] != copied_names[j] by {
            if i < names.len() {
                assert(copied_names[i] == names[i]);
            }
            if j < names.len() {
                assert(copied_names[j] == names[j]);
            }
        }
    }
}

} // verus!
