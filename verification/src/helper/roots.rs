//! The two directories that a session knows by heart: the root of everything a user
//! stores, and the root of the configuration directories. Both are unversioned and
//! private, no directory holds them, and each is created when it is first asked for.

use vstd::prelude::*;

use crate::directory_listing::DirectoryListing;
use crate::directory_listing::DirectoryListingView;
use crate::errors::NfsError;
use crate::exchange::Reply;
use crate::exchange::ReplyView;
use crate::exchange::Request;
use crate::exchange::RequestView;
use crate::exchange::Turn;
use crate::exchange::TurnView;
use crate::helper::directory_helper::Creation;
use crate::helper::directory_helper::CreationView;
use crate::helper::directory_helper::Seed;
use crate::helper::storage::Fetch;
use crate::helper::storage::FetchView;
use crate::metadata::directory_key::DirectoryKey;
use crate::name::NetworkName;
use crate::AccessLevel;
use crate::CONFIGURATION_DIRECTORY_NAME;
use crate::ROOT_DIRECTORY_NAME;
use crate::UNVERSIONED_DIRECTORY_LISTING_TAG;

verus! {

/// The key of the root directory with the given identifier.
pub open spec fn spec_root_key(id: NetworkName) -> DirectoryKey {
    DirectoryKey::spec_new(id, UNVERSIONED_DIRECTORY_LISTING_TAG, false, AccessLevel::Private)
}

/// The key of the root directory with the given identifier.
pub fn root_key(id: NetworkName) -> (key: DirectoryKey)
    ensures
        key == spec_root_key(id),
{
    DirectoryKey::new(id, UNVERSIONED_DIRECTORY_LISTING_TAG, false, AccessLevel::Private)
}

/// How the creation of a root directory of the given name begins.
pub open spec fn spec_create_root(name: Seq<char>, seed: Option<Seed>) -> TurnView<CreationView> {
    CreationView::begin(
        name,
        UNVERSIONED_DIRECTORY_LISTING_TAG,
        Seq::empty(),
        false,
        AccessLevel::Private,
        None,
        seed,
    )
}

/// Begins the creation of a root directory of the given name.
fn create_root(name: &str, seed: Option<Seed>) -> (turn: Turn<Creation>)
    ensures
        turn@ == spec_create_root(name@, seed),
{
    Creation::begin(
        name.to_owned(),
        UNVERSIONED_DIRECTORY_LISTING_TAG,
        Vec::new(),
        false,
        AccessLevel::Private,
        None,
        seed,
    )
}

/// Where the search for the user's root directory stands.
#[derive(Debug)]
pub enum UserRoot {
    /// Waits for the identifier that the session records.
    Asking { seed: Option<Seed> },
    /// The directory that the session records is being fetched.
    Loading { loading: Fetch },
    /// The session records none, and a root directory is being created.
    Creating { creating: Creation },
    /// Waits for the session to record the identifier of the new root directory.
    Recording { directory: DirectoryListing },
    /// The end: the user's root directory.
    Found(DirectoryListing),
    /// The end: what went wrong.
    Failed(NfsError),
}

/// The mathematical value of a [`UserRoot`].
pub ghost enum UserRootView {
    Asking { seed: Option<Seed> },
    Loading { loading: FetchView },
    Creating { creating: CreationView },
    Recording { directory: DirectoryListingView },
    Found(DirectoryListingView),
    Failed(NfsError),
}

impl View for UserRoot {
    type V = UserRootView;

    open spec fn view(&self) -> UserRootView {
        match self {
            UserRoot::Asking { seed } => UserRootView::Asking { seed: *seed },
            UserRoot::Loading { loading } => UserRootView::Loading { loading: loading@ },
            UserRoot::Creating { creating } => UserRootView::Creating { creating: creating@ },
            UserRoot::Recording { directory } => UserRootView::Recording { directory: directory@ },
            UserRoot::Found(directory) => UserRootView::Found(directory@),
            UserRoot::Failed(error) => UserRootView::Failed(*error),
        }
    }
}

impl UserRootView {
    /// The search starts with asking the session; `seed` is kept for the case that a root
    /// directory has to be created.
    pub open spec fn start(seed: Option<Seed>) -> TurnView<UserRootView> {
        TurnView::ask(UserRootView::Asking { seed }, RequestView::UserRootDirectoryId)
    }

    /// What follows a step of the fetch: the directory fetched is the root directory.
    pub open spec fn after_loading(loading: TurnView<FetchView>) -> TurnView<UserRootView> {
        match loading.state {
            FetchView::Fetched(directory) => TurnView::end(UserRootView::Found(directory)),
            FetchView::Failed(error) => TurnView::end(UserRootView::Failed(error)),
            _ => TurnView {
                state: UserRootView::Loading { loading: loading.state },
                request: loading.request,
            },
        }
    }

    /// What follows a step of the creation: the session is told the identifier of the
    /// directory created.
    pub open spec fn after_creating(creating: TurnView<CreationView>) -> TurnView<UserRootView> {
        match creating.state {
            CreationView::Created { directory, parent, grand_parent } => TurnView::ask(
                UserRootView::Recording { directory },
                RequestView::SetUserRootDirectoryId { id: directory.metadata.key.spec_id() },
            ),
            CreationView::Failed(error) => TurnView::end(UserRootView::Failed(error)),
            _ => TurnView {
                state: UserRootView::Creating { creating: creating.state },
                request: creating.request,
            },
        }
    }

    /// How the search goes on. Where the session records an identifier, the unversioned,
    /// private directory with that identifier is fetched. Where it records none, a
    /// directory named `USER_ROOT` is created, the session is told its identifier, and
    /// then it is the root directory.
    pub open spec fn step(self, reply: ReplyView) -> TurnView<UserRootView> {
        match self {
            UserRootView::Asking { seed } => match reply {
                ReplyView::RootId(Some(id)) => Self::after_loading(
                    FetchView::get(spec_root_key(id)),
                ),
                ReplyView::RootId(None) => Self::after_creating(
                    spec_create_root(ROOT_DIRECTORY_NAME@, seed),
                ),
                _ => TurnView::end(UserRootView::Failed(reply.as_error())),
            },
            UserRootView::Loading { loading } => Self::after_loading(loading.step(reply)),
            UserRootView::Creating { creating } => Self::after_creating(creating.step(reply)),
            UserRootView::Recording { directory } => match reply {
                ReplyView::Done => TurnView::end(UserRootView::Found(directory)),
                _ => TurnView::end(UserRootView::Failed(reply.as_error())),
            },
            _ => TurnView::end(self),
        }
    }
}

impl UserRoot {
    /// Starts the search for the user's root directory; `seed` is what a new root
    /// directory would take from outside.
    pub fn start(seed: Option<Seed>) -> (turn: Turn<UserRoot>)
        ensures
            turn@ == UserRootView::start(seed),
    {
        Turn::ask(UserRoot::Asking { seed }, Request::UserRootDirectoryId)
    }

    fn after_loading(loading: Turn<Fetch>) -> (turn: Turn<UserRoot>)
        ensures
            turn@ == UserRootView::after_loading(loading@),
    {
        match loading.state {
            Fetch::Fetched(directory) => Turn::end(UserRoot::Found(directory)),
            Fetch::Failed(error) => Turn::end(UserRoot::Failed(error)),
            state => Turn { state: UserRoot::Loading { loading: state }, request: loading.request },
        }
    }

    fn after_creating(creating: Turn<Creation>) -> (turn: Turn<UserRoot>)
        ensures
            turn@ == UserRootView::after_creating(creating@),
    {
        match creating.state {
            Creation::Created { directory, parent, grand_parent } => {
                let id = *directory.get_key().get_id();
                Turn::ask(
                    UserRoot::Recording { directory },
                    Request::SetUserRootDirectoryId { id },
                )
            },
            Creation::Failed(error) => Turn::end(UserRoot::Failed(error)),
            state => Turn {
                state: UserRoot::Creating { creating: state },
                request: creating.request,
            },
        }
    }

    /// Takes the reply to the pending request and gives the next state.
    pub fn step(self, reply: Reply) -> (next: Turn<UserRoot>)
        ensures
            next@ == self@.step(reply@),
    {
        match self {
            UserRoot::Asking { seed } => match reply {
                Reply::RootId(Some(id)) => UserRoot::after_loading(Fetch::get(&root_key(id))),
                Reply::RootId(None) => UserRoot::after_creating(
                    create_root(ROOT_DIRECTORY_NAME, seed),
                ),
                other => Turn::end(UserRoot::Failed(other.as_error())),
            },
            UserRoot::Loading { loading } => UserRoot::after_loading(loading.step(reply)),
            UserRoot::Creating { creating } => UserRoot::after_creating(creating.step(reply)),
            UserRoot::Recording { directory } => match reply {
                Reply::Done => Turn::end(UserRoot::Found(directory)),
                other => Turn::end(UserRoot::Failed(other.as_error())),
            },
            UserRoot::Found(directory) => Turn::end(UserRoot::Found(directory)),
            UserRoot::Failed(error) => Turn::end(UserRoot::Failed(error)),
        }
    }

    /// What the search ended with, or `None` while it has not ended.
    pub fn finish(self) -> (result: Option<Result<DirectoryListing, NfsError>>)
        ensures
            match result {
                Some(Ok(directory)) => self@ == UserRootView::Found(directory@),
                Some(Err(error)) => self@ == UserRootView::Failed(error),
                None => !(self@ is Found) && !(self@ is Failed),
            },
    {
        match self {
            UserRoot::Found(directory) => Some(Ok(directory)),
            UserRoot::Failed(error) => Some(Err(error)),
            _ => None,
        }
    }
}

/// Where the search for a configuration directory stands.
#[derive(Debug)]
pub enum Configuration {
    /// Waits for the identifier of the configuration root that the session records.
    Asking { name: String, root_seed: Option<Seed>, seed: Option<Seed> },
    /// The configuration root that the session records is being fetched.
    LoadingRoot { loading: Fetch, name: String, seed: Option<Seed> },
    /// The session records none, and a configuration root is being created.
    CreatingRoot { creating: Creation, name: String, seed: Option<Seed> },
    /// Waits for the session to record the identifier of the new configuration root.
    RecordingRoot { root: DirectoryListing, name: String, seed: Option<Seed> },
    /// The directory of the name asked for is being fetched.
    Loading { loading: Fetch },
    /// The configuration root holds no directory of that name, and one is being created.
    Creating { creating: Creation },
    /// The end: the configuration directory of the name asked for.
    Found(DirectoryListing),
    /// The end: what went wrong.
    Failed(NfsError),
}

/// The mathematical value of a [`Configuration`].
pub ghost enum ConfigurationView {
    Asking { name: Seq<char>, root_seed: Option<Seed>, seed: Option<Seed> },
    LoadingRoot { loading: FetchView, name: Seq<char>, seed: Option<Seed> },
    CreatingRoot { creating: CreationView, name: Seq<char>, seed: Option<Seed> },
    RecordingRoot { root: DirectoryListingView, name: Seq<char>, seed: Option<Seed> },
    Loading { loading: FetchView },
    Creating { creating: CreationView },
    Found(DirectoryListingView),
    Failed(NfsError),
}

impl View for Configuration {
    type V = ConfigurationView;

    open spec fn view(&self) -> ConfigurationView {
        match self {
            Configuration::Asking { name, root_seed, seed } => ConfigurationView::Asking {
                name: name@,
                root_seed: *root_seed,
                seed: *seed,
            },
            Configuration::LoadingRoot { loading, name, seed } => ConfigurationView::LoadingRoot {
                loading: loading@,
                name: name@,
                seed: *seed,
            },
            Configuration::CreatingRoot {
                creating,
                name,
                seed,
            } => ConfigurationView::CreatingRoot { creating: creating@, name: name@, seed: *seed },
            Configuration::RecordingRoot { root, name, seed } => ConfigurationView::RecordingRoot {
                root: root@,
                name: name@,
                seed: *seed,
            },
            Configuration::Loading { loading } => ConfigurationView::Loading { loading: loading@ },
            Configuration::Creating { creating } => ConfigurationView::Creating {
                creating: creating@,
            },
            Configuration::Found(directory) => ConfigurationView::Found(directory@),
            Configuration::Failed(error) => ConfigurationView::Failed(*error),
        }
    }
}

impl ConfigurationView {
    /// The search starts with asking the session. `root_seed` is kept for the case that the
    /// configuration root has to be created, and `seed` for the case that the directory
    /// asked for has to be.
    pub open spec fn start(
        name: Seq<char>,
        root_seed: Option<Seed>,
        seed: Option<Seed>,
    ) -> TurnView<ConfigurationView> {
        TurnView::ask(
            ConfigurationView::Asking { name, root_seed, seed },
            RequestView::ConfigurationRootDirectoryId,
        )
    }

    /// What follows a step of the fetch of the configuration root.
    pub open spec fn after_loading_root(
        loading: TurnView<FetchView>,
        name: Seq<char>,
        seed: Option<Seed>,
    ) -> TurnView<ConfigurationView> {
        match loading.state {
            FetchView::Fetched(root) => Self::resolve(root, name, seed),
            FetchView::Failed(error) => TurnView::end(ConfigurationView::Failed(error)),
            _ => TurnView {
                state: ConfigurationView::LoadingRoot { loading: loading.state, name, seed },
                request: loading.request,
            },
        }
    }

    /// What follows a step of the creation of the configuration root: the session is told
    /// the identifier of the directory created.
    pub open spec fn after_creating_root(
        creating: TurnView<CreationView>,
        name: Seq<char>,
        seed: Option<Seed>,
    ) -> TurnView<ConfigurationView> {
        match creating.state {
            CreationView::Created { directory, parent, grand_parent } => TurnView::ask(
                ConfigurationView::RecordingRoot { root: directory, name, seed },
                RequestView::SetConfigurationRootDirectoryId {
                    id: directory.metadata.key.spec_id(),
                },
            ),
            CreationView::Failed(error) => TurnView::end(ConfigurationView::Failed(error)),
            _ => TurnView {
                state: ConfigurationView::CreatingRoot { creating: creating.state, name, seed },
                request: creating.request,
            },
        }
    }

    /// What is done once the configuration root is there: the first of its sub-directories
    /// that bears the name is fetched, and where none bears it, an unversioned, private
    /// directory of that name is created in the configuration root.
    pub open spec fn resolve(
        root: DirectoryListingView,
        name: Seq<char>,
        seed: Option<Seed>,
    ) -> TurnView<ConfigurationView> {
        match root.find_sub_directory(name) {
            Some(directory) => Self::after_loading(FetchView::get(directory.key)),
            None => Self::after_creating(
                CreationView::begin(
                    name,
                    UNVERSIONED_DIRECTORY_LISTING_TAG,
                    Seq::empty(),
                    false,
                    AccessLevel::Private,
                    Some(root),
                    seed,
                ),
            ),
        }
    }

    /// What follows a step of the fetch of the directory asked for.
    pub open spec fn after_loading(loading: TurnView<FetchView>) -> TurnView<ConfigurationView> {
        match loading.state {
            FetchView::Fetched(directory) => TurnView::end(ConfigurationView::Found(directory)),
            FetchView::Failed(error) => TurnView::end(ConfigurationView::Failed(error)),
            _ => TurnView {
                state: ConfigurationView::Loading { loading: loading.state },
                request: loading.request,
            },
        }
    }

    /// What follows a step of the creation of the directory asked for.
    pub open spec fn after_creating(creating: TurnView<CreationView>) -> TurnView<
        ConfigurationView,
    > {
        match creating.state {
            CreationView::Created { directory, parent, grand_parent } => TurnView::end(
                ConfigurationView::Found(directory),
            ),
            CreationView::Failed(error) => TurnView::end(ConfigurationView::Failed(error)),
            _ => TurnView {
                state: ConfigurationView::Creating { creating: creating.state },
                request: creating.request,
            },
        }
    }

    /// How the search goes on. Where the session records a configuration root, the
    /// unversioned, private directory with that identifier is fetched; where it records
    /// none, a directory named `CONFIGURATION_ROOT` is created and the session is told its
    /// identifier. Then the directory asked for is looked up in the configuration root.
    pub open spec fn step(self, reply: ReplyView) -> TurnView<ConfigurationView> {
        match self {
            ConfigurationView::Asking { name, root_seed, seed } => match reply {
                ReplyView::RootId(Some(id)) => Self::after_loading_root(
                    FetchView::get(spec_root_key(id)),
                    name,
                    seed,
                ),
                ReplyView::RootId(None) => Self::after_creating_root(
                    spec_create_root(CONFIGURATION_DIRECTORY_NAME@, root_seed),
                    name,
                    seed,
                ),
                _ => TurnView::end(ConfigurationView::Failed(reply.as_error())),
            },
            ConfigurationView::LoadingRoot { loading, name, seed } => Self::after_loading_root(
                loading.step(reply),
                name,
                seed,
            ),
            ConfigurationView::CreatingRoot { creating, name, seed } => Self::after_creating_root(
                creating.step(reply),
                name,
                seed,
            ),
            ConfigurationView::RecordingRoot { root, name, seed } => match reply {
                ReplyView::Done => Self::resolve(root, name, seed),
                _ => TurnView::end(ConfigurationView::Failed(reply.as_error())),
            },
            ConfigurationView::Loading { loading } => Self::after_loading(loading.step(reply)),
            ConfigurationView::Creating { creating } => Self::after_creating(
                creating.step(reply),
            ),
            _ => TurnView::end(self),
        }
    }
}

impl Configuration {
    /// Starts the search for the configuration directory `name`; `root_seed` is what a new
    /// configuration root would take from outside, and `seed` what a new directory of that
    /// name would.
    pub fn start(name: String, root_seed: Option<Seed>, seed: Option<Seed>) -> (turn: Turn<
        Configuration,
    >)
        ensures
            turn@ == ConfigurationView::start(name@, root_seed, seed),
    {
        Turn::ask(
            Configuration::Asking { name, root_seed, seed },
            Request::ConfigurationRootDirectoryId,
        )
    }

    fn after_loading_root(loading: Turn<Fetch>, name: String, seed: Option<Seed>) -> (turn: Turn<
        Configuration,
    >)
        ensures
            turn@ == ConfigurationView::after_loading_root(loading@, name@, seed),
    {
        match loading.state {
            Fetch::Fetched(root) => Configuration::resolve(root, name, seed),
            Fetch::Failed(error) => Turn::end(Configuration::Failed(error)),
            state => Turn {
                state: Configuration::LoadingRoot { loading: state, name, seed },
                request: loading.request,
            },
        }
    }

    fn after_creating_root(creating: Turn<Creation>, name: String, seed: Option<Seed>) -> (turn:
        Turn<Configuration>)
        ensures
            turn@ == ConfigurationView::after_creating_root(creating@, name@, seed),
    {
        match creating.state {
            Creation::Created { directory, parent, grand_parent } => {
                let id = *directory.get_key().get_id();
                Turn::ask(
                    Configuration::RecordingRoot { root: directory, name, seed },
                    Request::SetConfigurationRootDirectoryId { id },
                )
            },
            Creation::Failed(error) => Turn::end(Configuration::Failed(error)),
            state => Turn {
                state: Configuration::CreatingRoot { creating: state, name, seed },
                request: creating.request,
            },
        }
    }

    fn resolve(root: DirectoryListing, name: String, seed: Option<Seed>) -> (turn: Turn<
        Configuration,
    >)
        ensures
            turn@ == ConfigurationView::resolve(root@, name@, seed),
    {
        let found = match root.find_sub_directory(&name) {
            Some(directory) => Some(*directory.get_key()),
            None => None,
        };
        match found {
            Some(key) => Configuration::after_loading(Fetch::get(&key)),
            None => Configuration::after_creating(
                Creation::begin(
                    name,
                    UNVERSIONED_DIRECTORY_LISTING_TAG,
                    Vec::new(),
                    false,
                    AccessLevel::Private,
                    Some(root),
                    seed,
                ),
            ),
        }
    }

    fn after_loading(loading: Turn<Fetch>) -> (turn: Turn<Configuration>)
        ensures
            turn@ == ConfigurationView::after_loading(loading@),
    {
        match loading.state {
            Fetch::Fetched(directory) => Turn::end(Configuration::Found(directory)),
            Fetch::Failed(error) => Turn::end(Configuration::Failed(error)),
            state => Turn {
                state: Configuration::Loading { loading: state },
                request: loading.request,
            },
        }
    }

    fn after_creating(creating: Turn<Creation>) -> (turn: Turn<Configuration>)
        ensures
            turn@ == ConfigurationView::after_creating(creating@),
    {
        match creating.state {
            Creation::Created { directory, parent, grand_parent } => Turn::end(
                Configuration::Found(directory),
            ),
            Creation::Failed(error) => Turn::end(Configuration::Failed(error)),
            state => Turn {
                state: Configuration::Creating { creating: state },
                request: creating.request,
            },
        }
    }

    /// Takes the reply to the pending request and gives the next state.
    pub fn step(self, reply: Reply) -> (next: Turn<Configuration>)
        ensures
            next@ == self@.step(reply@),
    {
        match self {
            Configuration::Asking { name, root_seed, seed } => match reply {
                Reply::RootId(Some(id)) => Configuration::after_loading_root(
                    Fetch::get(&root_key(id)),
                    name,
                    seed,
                ),
                Reply::RootId(None) => Configuration::after_creating_root(
                    create_root(CONFIGURATION_DIRECTORY_NAME, root_seed),
                    name,
                    seed,
                ),
                other => Turn::end(Configuration::Failed(other.as_error())),
            },
            Configuration::LoadingRoot { loading, name, seed } => {
                Configuration::after_loading_root(loading.step(reply), name, seed)
            },
            Configuration::CreatingRoot { creating, name, seed } => {
                Configuration::after_creating_root(creating.step(reply), name, seed)
            },
            Configuration::RecordingRoot { root, name, seed } => match reply {
                Reply::Done => Configuration::resolve(root, name, seed),
                other => Turn::end(Configuration::Failed(other.as_error())),
            },
            Configuration::Loading { loading } => Configuration::after_loading(
                loading.step(reply),
            ),
            Configuration::Creating { creating } => Configuration::after_creating(
                creating.step(reply),
            ),
            Configuration::Found(directory) => Turn::end(Configuration::Found(directory)),
            Configuration::Failed(error) => Turn::end(Configuration::Failed(error)),
        }
    }

    /// What the search ended with, or `None` while it has not ended.
    pub fn finish(self) -> (result: Option<Result<DirectoryListing, NfsError>>)
        ensures
            match result {
                Some(Ok(directory)) => self@ == ConfigurationView::Found(directory@),
                Some(Err(error)) => self@ == ConfigurationView::Failed(error),
                None => !(self@ is Found) && !(self@ is Failed),
            },
    {
        match self {
            Configuration::Found(directory) => Some(Ok(directory)),
            Configuration::Failed(error) => Some(Err(error)),
            _ => None,
        }
    }
}

} // verus!
