//! The life of a file in its directory: how it is created, rewritten, renamed and deleted,
//! and how its earlier versions are found.

use vstd::prelude::*;

use crate::data_map::DataMap;
use crate::data_map::DataMapView;
use crate::directory_listing::file_ids;
use crate::directory_listing::file_names;
use crate::directory_listing::laws::lemma_upsert_file_names;
use crate::directory_listing::DirectoryListing;
use crate::directory_listing::DirectoryListingView;
use crate::errors::NfsError;
use crate::exchange::Reply;
use crate::exchange::ReplyView;
use crate::exchange::Request;
use crate::exchange::RequestView;
use crate::exchange::Turn;
use crate::exchange::TurnView;
use crate::file::File;
use crate::file::FileView;
use crate::helper::directory_helper::Seed;
use crate::helper::directory_helper::Update;
use crate::helper::directory_helper::UpdateView;
use crate::helper::reader::Reading;
use crate::helper::reader::ReadingView;
use crate::helper::storage::Fetch;
use crate::helper::storage::FetchView;
use crate::helper::writer::spec_closed_file;
use crate::helper::writer::Mode;
use crate::helper::writer::Preparation;
use crate::helper::writer::PreparationView;
use crate::helper::writer::Writer;
use crate::helper::writer::WriterView;
use crate::metadata::file_metadata::FileMetadata;
use crate::name::NetworkName;
use crate::views::first_position;
use crate::views::lemma_first_position;
use crate::views::lemma_views_push;
use crate::views::outcome;
use crate::views::views;
use crate::AccessLevel;

verus! {

/// The new, empty file that is made of a seed.
pub open spec fn spec_new_file(seed: Seed, name: Seq<char>, user_metadata: Seq<u8>) -> FileView {
    FileView {
        metadata: FileMetadata::spec_with_id_at(seed.id, seed.now, name, user_metadata),
        datamap: DataMapView::Empty,
    }
}

/// What asking for a new file comes to. A name that a file of the directory bears is
/// refused with `FileAlreadyExistsWithSameName`, and after that a missing seed with
/// `RandomnessUnavailable`. Else there is a writer for the new file, with empty content.
pub open spec fn spec_create(
    name: Seq<char>,
    user_metadata: Seq<u8>,
    parent_directory: DirectoryListingView,
    seed: Option<Seed>,
) -> Result<WriterView, NfsError> {
    if parent_directory.find_file(name) is Some {
        Err(NfsError::FileAlreadyExistsWithSameName)
    } else {
        match seed {
            Some(seed) => Ok(
                WriterView {
                    file: spec_new_file(seed, name, user_metadata),
                    parent_directory,
                    content: Seq::empty(),
                },
            ),
            None => Err(NfsError::RandomnessUnavailable),
        }
    }
}

/// What asking to rewrite a file comes to. The file has to be the one that the directory
/// holds under its name: where the directory holds none of that name the answer is
/// `FileNotFound`, and where it holds another, `FileDoesNotMatch`. Else a writer is made.
pub open spec fn spec_update(
    file: FileView,
    mode: Mode,
    parent_directory: DirectoryListingView,
) -> Result<TurnView<PreparationView>, NfsError> {
    match parent_directory.find_file(file.metadata.name) {
        Some(existing) => if existing == file {
            Ok(PreparationView::start(mode, parent_directory, file))
        } else {
            Err(NfsError::FileDoesNotMatch)
        },
        None => Err(NfsError::FileNotFound),
    }
}

/// The directory after the metadata of one of its files was changed to that of `file`. The
/// file is looked up by its identifier: where the directory holds none with it the answer
/// is `FileNotFound`. Where the name is new to the file and another file bears it, the
/// answer is `FileAlreadyExistsWithSameName`. Else `file` takes the place of the file.
pub open spec fn spec_update_metadata(
    file: FileView,
    parent_directory: DirectoryListingView,
) -> Result<DirectoryListingView, NfsError> {
    match parent_directory.find_file_by_id(file.metadata.id) {
        Some(existing) => if existing.metadata.name != file.metadata.name
            && parent_directory.find_file(file.metadata.name) is Some {
            Err(NfsError::FileAlreadyExistsWithSameName)
        } else {
            Ok(parent_directory.upsert_file(file))
        },
        None => Err(NfsError::FileNotFound),
    }
}

/// The versions found so far, and behind them the file named `name` of `directory` where
/// it has one that was modified at another time than the last version found.
pub open spec fn spec_note(
    found: Seq<FileView>,
    directory: DirectoryListingView,
    name: Seq<char>,
) -> Seq<FileView> {
    match directory.find_file(name) {
        Some(file) => if found.len() > 0 && found.last().metadata.modified_time
            == file.metadata.modified_time {
            found
        } else {
            found.push(file)
        },
        None => found,
    }
}

/// Where the search for the versions of a file stands.
#[derive(Debug)]
pub enum History {
    /// Waits for the names of the versions of the directory.
    Listing { name: String, id: NetworkName, access_level: AccessLevel },
    /// One version of the directory is being fetched.
    Fetching {
        fetch: Fetch,
        name: String,
        id: NetworkName,
        access_level: AccessLevel,
        versions: Vec<NetworkName>,
        next: usize,
        found: Vec<File>,
    },
    /// The end: the versions of the file, oldest first.
    Collected(Vec<File>),
    /// The end: what went wrong.
    Failed(NfsError),
}

/// The mathematical value of a [`History`]. Of the versions of the directory it keeps
/// those that are still to be fetched.
pub ghost enum HistoryView {
    Listing { name: Seq<char>, id: NetworkName, access_level: AccessLevel },
    Fetching {
        fetch: FetchView,
        name: Seq<char>,
        id: NetworkName,
        access_level: AccessLevel,
        remaining: Seq<NetworkName>,
        found: Seq<FileView>,
    },
    Collected(Seq<FileView>),
    Failed(NfsError),
}

/// The versions from place `next` on.
pub open spec fn spec_remaining(versions: Seq<NetworkName>, next: usize) -> Seq<NetworkName> {
    if next <= versions.len() {
        versions.subrange(next as int, versions.len() as int)
    } else {
        Seq::empty()
    }
}

impl View for History {
    type V = HistoryView;

    open spec fn view(&self) -> HistoryView {
        match self {
            History::Listing { name, id, access_level } => HistoryView::Listing {
                name: name@,
                id: *id,
                access_level: *access_level,
            },
            History::Fetching {
                fetch,
                name,
                id,
                access_level,
                versions,
                next,
                found,
            } => HistoryView::Fetching {
                fetch: fetch@,
                name: name@,
                id: *id,
                access_level: *access_level,
                remaining: spec_remaining(versions@, *next),
                found: views(found@),
            },
            History::Collected(found) => HistoryView::Collected(views(found@)),
            History::Failed(error) => HistoryView::Failed(*error),
        }
    }
}

impl HistoryView {
    /// The versions of a file in a versioned directory are looked for in the versions of
    /// the directory, whose names are asked for first. An unversioned directory has its
    /// present state only, and the file of that name in it, if there is one, is all there
    /// is to find.
    pub open spec fn start(
        file: FileView,
        parent_directory: DirectoryListingView,
    ) -> TurnView<HistoryView> {
        let key = parent_directory.metadata.key;
        if key.spec_versioned() {
            TurnView::ask(
                HistoryView::Listing {
                    name: file.metadata.name,
                    id: key.spec_id(),
                    access_level: key.spec_access_level(),
                },
                RequestView::GetVersions { id: key.spec_id(), tag: key.spec_type_tag() },
            )
        } else {
            TurnView::end(
                HistoryView::Collected(
                    spec_note(Seq::empty(), parent_directory, file.metadata.name),
                ),
            )
        }
    }

    /// What is done between two versions: the next version of the directory is fetched,
    /// or, where none is left, the search ends with what was found.
    pub open spec fn proceed(
        name: Seq<char>,
        id: NetworkName,
        access_level: AccessLevel,
        remaining: Seq<NetworkName>,
        found: Seq<FileView>,
    ) -> TurnView<HistoryView> {
        if remaining.len() == 0 {
            TurnView::end(HistoryView::Collected(found))
        } else {
            let fetch = FetchView::get_by_version(id, access_level, remaining[0]);
            TurnView {
                state: HistoryView::Fetching {
                    fetch: fetch.state,
                    name,
                    id,
                    access_level,
                    remaining: remaining.drop_first(),
                    found,
                },
                request: fetch.request,
            }
        }
    }

    /// How the search goes on. The versions of the directory are fetched one after the
    /// other, oldest first, and of each the file of the name is noted as [`spec_note`]
    /// says. An error in any fetch ends the search.
    pub open spec fn step(self, reply: ReplyView) -> TurnView<HistoryView> {
        match self {
            HistoryView::Listing { name, id, access_level } => match reply {
                ReplyView::Names(versions) => Self::proceed(
                    name,
                    id,
                    access_level,
                    versions,
                    Seq::empty(),
                ),
                _ => TurnView::end(HistoryView::Failed(reply.as_error())),
            },
            HistoryView::Fetching { fetch, name, id, access_level, remaining, found } => {
                let fetch = fetch.step(reply);
                match fetch.state {
                    FetchView::Fetched(directory) => Self::proceed(
                        name,
                        id,
                        access_level,
                        remaining,
                        spec_note(found, directory, name),
                    ),
                    FetchView::Failed(error) => TurnView::end(HistoryView::Failed(error)),
                    _ => TurnView {
                        state: HistoryView::Fetching {
                            fetch: fetch.state,
                            name,
                            id,
                            access_level,
                            remaining,
                            found,
                        },
                        request: fetch.request,
                    },
                }
            },
            _ => TurnView::end(self),
        }
    }
}

/// Notes the file named `name` of `directory` behind the versions found so far.
fn note(found: &mut Vec<File>, directory: &DirectoryListing, name: &String)
    ensures
        views(final(found)@) == spec_note(views(old(found)@), directory@, name@),
{
    match directory.find_file(name) {
        Some(file) => {
            let known = found.len() > 0 && *found[found.len() - 1].get_metadata().get_modified_time()
                == *file.get_metadata().get_modified_time();
            if !known {
                let copy = file.clone();
                proof {
                    lemma_views_push(found@, copy);
                }
                found.push(copy);
            }
        },
        None => {},
    }
}

impl History {
    /// Starts the search for the versions of `file` in `parent_directory`.
    pub fn start(file: &File, parent_directory: &DirectoryListing) -> (turn: Turn<History>)
        ensures
            turn@ == HistoryView::start(file@, parent_directory@),
    {
        let key = parent_directory.get_key();
        if key.is_versioned() {
            Turn::ask(
                History::Listing {
                    name: file.get_name().clone(),
                    id: *key.get_id(),
                    access_level: *key.get_access_level(),
                },
                Request::GetVersions { id: *key.get_id(), tag: key.get_type_tag() },
            )
        } else {
            let mut found: Vec<File> = Vec::new();
            assert(views(found@) =~= Seq::<FileView>::empty());
            note(&mut found, parent_directory, file.get_name());
            Turn::end(History::Collected(found))
        }
    }

    fn proceed(
        name: String,
        id: NetworkName,
        access_level: AccessLevel,
        versions: Vec<NetworkName>,
        next: usize,
        found: Vec<File>,
    ) -> (turn: Turn<History>)
        ensures
            turn@ == HistoryView::proceed(
                name@,
                id,
                access_level,
                spec_remaining(versions@, next),
                views(found@),
            ),
    {
        if next < versions.len() {
            let fetch = Fetch::get_by_version(&id, &access_level, versions[next]);
            assert(spec_remaining(versions@, next).drop_first() =~= spec_remaining(
                versions@,
                (next + 1) as usize,
            ));
            Turn {
                state: History::Fetching {
                    fetch: fetch.state,
                    name,
                    id,
                    access_level,
                    versions,
                    next: next + 1,
                    found,
                },
                request: fetch.request,
            }
        } else {
            Turn::end(History::Collected(found))
        }
    }

    /// Takes the reply to the pending request and gives the next state.
    pub fn step(self, reply: Reply) -> (next: Turn<History>)
        ensures
            next@ == self@.step(reply@),
    {
        match self {
            History::Listing { name, id, access_level } => match reply {
                Reply::Names(versions) => {
                    let found: Vec<File> = Vec::new();
                    assert(views(found@) =~= Seq::<FileView>::empty());
                    assert(spec_remaining(versions@, 0) =~= versions@);
                    History::proceed(name, id, access_level, versions, 0, found)
                },
                other => Turn::end(History::Failed(other.as_error())),
            },
            History::Fetching { fetch, name, id, access_level, versions, next, found } => {
                let fetch = fetch.step(reply);
                match fetch.state {
                    Fetch::Fetched(directory) => {
                        let mut found = found;
                        note(&mut found, &directory, &name);
                        History::proceed(name, id, access_level, versions, next, found)
                    },
                    Fetch::Failed(error) => Turn::end(History::Failed(error)),
                    state => Turn {
                        state: History::Fetching {
                            fetch: state,
                            name,
                            id,
                            access_level,
                            versions,
                            next,
                            found,
                        },
                        request: fetch.request,
                    },
                }
            },
            History::Collected(found) => Turn::end(History::Collected(found)),
            History::Failed(error) => Turn::end(History::Failed(error)),
        }
    }

    /// What the search ended with, or `None` while it has not ended.
    pub fn finish(self) -> (result: Option<Result<Vec<File>, NfsError>>)
        ensures
            match result {
                Some(Ok(found)) => self@ == HistoryView::Collected(views(found@)),
                Some(Err(error)) => self@ == HistoryView::Failed(error),
                None => self@ is Listing || self@ is Fetching,
            },
    {
        match self {
            History::Collected(found) => Some(Ok(found)),
            History::Failed(error) => Some(Err(error)),
            _ => None,
        }
    }
}

/// The operations on files. Those that need the network start an operation and hand out
/// its first request; the operation goes on as its `step` says.
#[derive(Clone, Copy, Debug)]
pub struct FileHelper {}

impl FileHelper {
    /// A helper for the operations on files.
    pub fn new() -> FileHelper {
        FileHelper {  }
    }

    /// A writer for a new file named `name` in `parent_directory`. Fails with
    /// `FileAlreadyExistsWithSameName` where the directory holds a file of that name. The
    /// new file gets a random identifier and the time of the clock;
    /// [`FileHelper::create_with`] says what is made of them. The file is in the directory
    /// once the writer is closed.
    pub fn create(&self, name: String, user_metadata: Vec<u8>, parent_directory: DirectoryListing) -> (made:
        Result<Writer, NfsError>)
        ensures
            exists|seed: Option<Seed>|
                outcome(made) == #[trigger] spec_create(
                    name@,
                    user_metadata@,
                    parent_directory@,
                    seed,
                ),
            parent_directory@.find_file(name@) is Some ==> outcome(made) == Err::<
                WriterView,
                NfsError,
            >(NfsError::FileAlreadyExistsWithSameName),
    {
        let seed = Seed::draw();
        self.create_with(name, user_metadata, parent_directory, seed)
    }

    /// A writer for a new file named `name` in `parent_directory`; `seed` is what the new
    /// file takes from outside.
    pub fn create_with(
        &self,
        name: String,
        user_metadata: Vec<u8>,
        parent_directory: DirectoryListing,
        seed: Option<Seed>,
    ) -> (made: Result<Writer, NfsError>)
        ensures
            outcome(made) == spec_create(name@, user_metadata@, parent_directory@, seed),
    {
        if parent_directory.find_file(&name).is_some() {
            return Err(NfsError::FileAlreadyExistsWithSameName);
        }
        match seed {
            Some(seed) => {
                let file = File::new(
                    FileMetadata::with_id_at(seed.id, seed.now, name, user_metadata),
                    DataMap::Empty,
                );
                Ok(Writer::with_content(parent_directory, file, Vec::new()))
            },
            None => Err(NfsError::RandomnessUnavailable),
        }
    }

    /// Takes the first file named `file_name` out of `parent_directory` and starts the
    /// update of the directory. Fails with `FileNotFound` where the directory holds no file
    /// of that name, and then changes nothing.
    pub fn delete(&self, file_name: String, parent_directory: &mut DirectoryListing) -> (deleted:
        Result<Turn<Update>, NfsError>)
        ensures
            match deleted {
                Ok(turn) => old(parent_directory)@.remove_file(file_name@) == Some(
                    final(parent_directory)@,
                ) && turn@ == UpdateView::start(final(parent_directory)@),
                Err(error) => error == NfsError::FileNotFound && old(
                    parent_directory,
                )@.remove_file(file_name@) is None && final(parent_directory)@ == old(
                    parent_directory,
                )@,
            },
    {
        match parent_directory.remove_file(&file_name) {
            Ok(_) => Ok(Update::start(parent_directory)),
            Err(error) => Err(error),
        }
    }

    /// Starts a writer for the content of `file`, which `parent_directory` has to hold as
    /// it is handed in. To overwrite, the writer starts from empty content; to modify,
    /// from the content that the file holds. Fails with `FileNotFound` where the directory
    /// holds no file of that name, and with `FileDoesNotMatch` where the file it holds
    /// under that name is another.
    pub fn update(&self, file: File, mode: Mode, parent_directory: DirectoryListing) -> (updated:
        Result<Turn<Preparation>, NfsError>)
        ensures
            outcome(updated) == spec_update(file@, mode, parent_directory@),
    {
        let same = match parent_directory.find_file(file.get_name()) {
            Some(existing) => existing.equals(&file),
            None => { return Err(NfsError::FileNotFound); },
        };
        if same {
            Ok(Writer::new(mode, parent_directory, file))
        } else {
            Err(NfsError::FileDoesNotMatch)
        }
    }

    /// Puts `file` in the place of the file of `parent_directory` that has its identifier,
    /// and starts the update of the directory. Fails with `FileNotFound` where the
    /// directory holds no file with that identifier, and with
    /// `FileAlreadyExistsWithSameName` where the name is new to the file and another file of
    /// the directory bears it; a failure changes nothing.
    pub fn update_metadata(&self, file: File, parent_directory: &mut DirectoryListing) -> (updated:
        Result<Turn<Update>, NfsError>)
        ensures
            match updated {
                Ok(turn) => spec_update_metadata(file@, old(parent_directory)@) == Ok::<
                    DirectoryListingView,
                    NfsError,
                >(final(parent_directory)@) && turn@ == UpdateView::start(
                    final(parent_directory)@,
                ),
                Err(error) => spec_update_metadata(file@, old(parent_directory)@) == Err::<
                    DirectoryListingView,
                    NfsError,
                >(error) && final(parent_directory)@ == old(parent_directory)@,
            },
    {
        let renamed = match parent_directory.find_file_by_id(file.get_id()) {
            Some(existing) => !(*existing.get_name() == *file.get_name()),
            None => { return Err(NfsError::FileNotFound); },
        };
        if renamed && parent_directory.find_file(file.get_name()).is_some() {
            return Err(NfsError::FileAlreadyExistsWithSameName);
        }
        parent_directory.upsert_file(file);
        Ok(Update::start(parent_directory))
    }

    /// Starts the search for the versions of `file` in the versions of
    /// `parent_directory`. It ends with the versions of the file, oldest first.
    pub fn get_versions(&self, file: &File, parent_directory: &DirectoryListing) -> (turn: Turn<
        History,
    >)
        ensures
            turn@ == HistoryView::start(file@, parent_directory@),
    {
        History::start(file, parent_directory)
    }

    /// Starts to open `file` for reading.
    pub fn read(&self, file: &File) -> (turn: Turn<Reading>)
        ensures
            turn@ == ReadingView::start(file@),
    {
        Reading::start(file)
    }
}

/// A change of metadata leaves every file who it was: the files of the directory are as
/// many as before and have the identifiers they had, each in its place, and the file that
/// was handed in is found under its identifier.
pub proof fn lemma_update_metadata_keeps_identity(
    file: FileView,
    parent_directory: DirectoryListingView,
)
    requires
        spec_update_metadata(file, parent_directory) is Ok,
    ensures
        ({
            let after = spec_update_metadata(file, parent_directory)->Ok_0;
            &&& file_ids(after.files) == file_ids(parent_directory.files)
            &&& after.find_file_by_id(file.metadata.id) == Some(file)
            &&& after.sub_directories == parent_directory.sub_directories
        }),
{
    let after = spec_update_metadata(file, parent_directory)->Ok_0;
    lemma_first_position(file_ids(parent_directory.files), file.metadata.id);
    assert(file_ids(after.files) =~= file_ids(parent_directory.files));
}

/// Rewriting a file leaves every file who it was: where the directory holds a file with
/// the identifier of the file that is put in, its files are as many as before and have
/// the identifiers they had, each in its place.
pub proof fn lemma_rewrite_keeps_identity(file: FileView, parent_directory: DirectoryListingView)
    requires
        parent_directory.find_file_by_id(file.metadata.id) is Some,
    ensures
        file_ids(parent_directory.upsert_file(file).files) == file_ids(parent_directory.files),
{
    lemma_first_position(file_ids(parent_directory.files), file.metadata.id);
    assert(file_ids(parent_directory.upsert_file(file).files) =~= file_ids(
        parent_directory.files,
    ));
}

/// The operations on files keep the names of the files of a directory apart. A new file,
/// whose name the directory was searched for in vain, can be put in; in a directory whose
/// identifiers are unique a file can be put back in with another data map, size and time
/// of modification; and so can a file whose change of metadata was accepted.
pub proof fn lemma_file_operations_keep_names(
    file: FileView,
    parent_directory: DirectoryListingView,
    data_map: DataMapView,
    size: u64,
    now: crate::clock::Time,
)
    requires
        parent_directory.names_are_unique(),
    ensures
        parent_directory.find_file(file.metadata.name) is None ==> parent_directory.upsert_file(
            spec_closed_file(file, data_map, size, now),
        ).names_are_unique(),
        parent_directory.ids_are_unique() && parent_directory.find_file(file.metadata.name)
            == Some(file) ==> parent_directory.upsert_file(
            spec_closed_file(file, data_map, size, now),
        ).names_are_unique(),
        parent_directory.ids_are_unique() && spec_update_metadata(file, parent_directory) is Ok
            ==> spec_update_metadata(file, parent_directory)->Ok_0.names_are_unique(),
{
    let closed = spec_closed_file(file, data_map, size, now);
    let names = file_names(parent_directory.files);
    let ids = file_ids(parent_directory.files);
    lemma_first_position(names, file.metadata.name);
    lemma_first_position(ids, file.metadata.id);
    lemma_upsert_file_names(parent_directory, closed);
    lemma_upsert_file_names(parent_directory, file);
    if parent_directory.find_file(file.metadata.name) is None {
        assert forall|i: int|
            0 <= i < parent_directory.files.len()
                && #[trigger] parent_directory.files[i].metadata.name
                == closed.metadata.name implies first_position(ids, closed.metadata.id) == Some(
            i,
        ) by {
            assert(names[i] == file.metadata.name);
        }
    }
    if parent_directory.ids_are_unique() && parent_directory.find_file(file.metadata.name)
        == Some(file) {
        let k = first_position(names, file.metadata.name)->Some_0;
        assert(ids[k] == file.metadata.id);
        let j = first_position(ids, file.metadata.id)->Some_0;
        assert(j == k) by {
            if j != k {
                assert(ids[j] != ids[k]);
            }
        }
        assert forall|i: int|
            0 <= i < parent_directory.files.len()
                && #[trigger] parent_directory.files[i].metadata.name
                == closed.metadata.name implies first_position(ids, closed.metadata.id) == Some(
            i,
        ) by {
            assert(names[i] == names[k]);
        }
    }
    if parent_directory.ids_are_unique() && spec_update_metadata(file, parent_directory) is Ok {
        let j = first_position(ids, file.metadata.id)->Some_0;
        assert forall|i: int|
            0 <= i < parent_directory.files.len()
                && #[trigger] parent_directory.files[i].metadata.name
                == file.metadata.name implies first_position(ids, file.metadata.id) == Some(
            i,
        ) by {
            assert(names[i] == file.metadata.name);
            if parent_directory.files[j].metadata.name == file.metadata.name {
                assert(names[j] == names[i]);
            } else {
                assert(parent_directory.find_file(file.metadata.name) is None);
            }
        }
    }
}

} // verus!
