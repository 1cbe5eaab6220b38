//! How a directory is laid down on the network and taken up again.
//!
//! A versioned directory lies in an immutable block of its own for each version, and a
//! versioned structured data holds the names of the blocks, oldest first. An unversioned
//! directory is the payload of an unversioned structured data. A private directory is
//! sealed: the block of a versioned one holds its sealed form, and the payload of an
//! unversioned one is sealed under the nonce of the directory.

use vstd::prelude::*;

use crate::codec::deserialise;
use crate::codec::serialise;
use crate::codec::spec_deserialise;
use crate::codec::spec_serialise;
use crate::directory_listing::sealing::Decryption;
use crate::directory_listing::sealing::DecryptionView;
use crate::directory_listing::sealing::Encryption;
use crate::directory_listing::sealing::EncryptionView;
use crate::directory_listing::spec_nonce;
use crate::directory_listing::DirectoryListing;
use crate::directory_listing::DirectoryListingView;
use crate::errors::NfsError;
use crate::exchange::Reply;
use crate::exchange::ReplyView;
use crate::exchange::Request;
use crate::exchange::RequestView;
use crate::exchange::Turn;
use crate::exchange::TurnView;
use crate::metadata::directory_key::DirectoryKey;
use crate::name::NetworkName;
use crate::AccessLevel;

verus! {

/// Where the laying down of a directory stands.
#[derive(Debug)]
pub enum Save {
    /// A private, versioned directory is being sealed.
    Sealing { sealing: Encryption, key: DirectoryKey, fresh: bool },
    /// Waits for the name of the block that holds the directory.
    Storing { key: DirectoryKey, fresh: bool },
    /// Waits for the structured data to be put or posted.
    Committing,
    /// The end: the directory lies on the network.
    Saved,
    /// The end: what went wrong.
    Failed(NfsError),
}

/// The mathematical value of a [`Save`].
pub ghost enum SaveView {
    Sealing { sealing: EncryptionView, key: DirectoryKey, fresh: bool },
    Storing { key: DirectoryKey, fresh: bool },
    Committing,
    Saved,
    Failed(NfsError),
}

impl View for Save {
    type V = SaveView;

    open spec fn view(&self) -> SaveView {
        match self {
            Save::Sealing { sealing, key, fresh } => SaveView::Sealing {
                sealing: sealing@,
                key: *key,
                fresh: *fresh,
            },
            Save::Storing { key, fresh } => SaveView::Storing { key: *key, fresh: *fresh },
            Save::Committing => SaveView::Committing,
            Save::Saved => SaveView::Saved,
            Save::Failed(error) => SaveView::Failed(*error),
        }
    }
}

/// The nonce under which the payload of an unversioned directory is sealed: that of the
/// directory where it is private, and none where it is public.
pub open spec fn payload_nonce(key: DirectoryKey) -> Option<Seq<u8>> {
    match key.spec_access_level() {
        AccessLevel::Private => Some(spec_nonce(key.spec_id())),
        AccessLevel::Public => None,
    }
}

/// The request that records `version` as the newest version of a directory: a put of a
/// new structured data for a directory that is new, a post of the extended one otherwise.
pub open spec fn commit_version(key: DirectoryKey, fresh: bool, version: NetworkName) -> RequestView {
    if fresh {
        RequestView::PutVersioned { id: key.spec_id(), tag: key.spec_type_tag(), version }
    } else {
        RequestView::PostVersioned { id: key.spec_id(), tag: key.spec_type_tag(), version }
    }
}

/// The request that makes `payload` the payload of an unversioned directory: a put of a
/// new structured data for a directory that is new, a post of its successor otherwise.
pub open spec fn commit_payload(key: DirectoryKey, fresh: bool, payload: Seq<u8>) -> RequestView {
    if fresh {
        RequestView::PutUnversioned {
            id: key.spec_id(),
            tag: key.spec_type_tag(),
            payload,
            seal: payload_nonce(key),
        }
    } else {
        RequestView::PostUnversioned {
            id: key.spec_id(),
            tag: key.spec_type_tag(),
            payload,
            seal: payload_nonce(key),
        }
    }
}

impl SaveView {
    /// How laying down starts. A versioned directory goes into a block first: sealed where
    /// it is private, as it is written where it is public. An unversioned directory goes
    /// into the structured data at once.
    pub open spec fn start(directory: DirectoryListingView, fresh: bool) -> TurnView<SaveView> {
        let key = directory.metadata.key;
        if key.spec_versioned() {
            match key.spec_access_level() {
                AccessLevel::Private => {
                    let sealing = EncryptionView::start(directory);
                    TurnView {
                        state: SaveView::Sealing { sealing: sealing.state, key, fresh },
                        request: sealing.request,
                    }
                },
                AccessLevel::Public => TurnView::ask(
                    SaveView::Storing { key, fresh },
                    RequestView::PutImmutable {
                        data: spec_serialise::<DirectoryListing>(directory),
                    },
                ),
            }
        } else {
            TurnView::ask(
                SaveView::Committing,
                commit_payload(key, fresh, spec_serialise::<DirectoryListing>(directory)),
            )
        }
    }

    /// How laying down goes on. The sealed form goes into a block; the name of the block
    /// goes into the structured data; and when that is done, the directory is saved. A
    /// reply of another kind ends it with the error that the reply stands for.
    pub open spec fn step(self, reply: ReplyView) -> TurnView<SaveView> {
        match self {
            SaveView::Sealing { sealing, key, fresh } => {
                let next = sealing.step(reply);
                match next.state {
                    EncryptionView::Sealed(sealed) => TurnView::ask(
                        SaveView::Storing { key, fresh },
                        RequestView::PutImmutable { data: sealed },
                    ),
                    EncryptionView::Failed(error) => TurnView::end(SaveView::Failed(error)),
                    _ => TurnView {
                        state: SaveView::Sealing { sealing: next.state, key, fresh },
                        request: next.request,
                    },
                }
            },
            SaveView::Storing { key, fresh } => match reply {
                ReplyView::Name(version) => TurnView::ask(
                    SaveView::Committing,
                    commit_version(key, fresh, version),
                ),
                _ => TurnView::end(SaveView::Failed(reply.as_error())),
            },
            SaveView::Committing => match reply {
                ReplyView::Done => TurnView::end(SaveView::Saved),
                _ => TurnView::end(SaveView::Failed(reply.as_error())),
            },
            _ => TurnView::end(self),
        }
    }
}

impl Save {
    /// Starts to lay `directory` down: for the first time where `fresh` is set, in the
    /// place of its earlier state otherwise.
    pub fn start(directory: &DirectoryListing, fresh: bool) -> (turn: Turn<Save>)
        ensures
            turn@ == SaveView::start(directory@, fresh),
            turn.request is Some,
    {
        let key = *directory.get_key();
        if key.is_versioned() {
            match key.get_access_level() {
                AccessLevel::Private => {
                    let sealing = directory.encrypt();
                    Turn {
                        state: Save::Sealing { sealing: sealing.state, key, fresh },
                        request: sealing.request,
                    }
                },
                AccessLevel::Public => Turn::ask(
                    Save::Storing { key, fresh },
                    Request::PutImmutable { data: serialise(directory) },
                ),
            }
        } else {
            let nonce = match key.get_access_level() {
                AccessLevel::Private => Some(DirectoryListing::generate_nonce(key.get_id())),
                AccessLevel::Public => None,
            };
            let payload = serialise(directory);
            let request = if fresh {
                Request::PutUnversioned {
                    id: *key.get_id(),
                    tag: key.get_type_tag(),
                    payload,
                    seal: nonce,
                }
            } else {
                Request::PostUnversioned {
                    id: *key.get_id(),
                    tag: key.get_type_tag(),
                    payload,
                    seal: nonce,
                }
            };
            Turn::ask(Save::Committing, request)
        }
    }

    /// Takes the reply to the pending request and gives the next state.
    pub fn step(self, reply: Reply) -> (next: Turn<Save>)
        ensures
            next@ == self@.step(reply@),
    {
        match self {
            Save::Sealing { sealing, key, fresh } => {
                let next = sealing.step(reply);
                match next.state {
                    Encryption::Sealed(sealed) => Turn::ask(
                        Save::Storing { key, fresh },
                        Request::PutImmutable { data: sealed },
                    ),
                    Encryption::Failed(error) => Turn::end(Save::Failed(error)),
                    state => Turn {
                        state: Save::Sealing { sealing: state, key, fresh },
                        request: next.request,
                    },
                }
            },
            Save::Storing { key, fresh } => match reply {
                Reply::Name(version) => {
                    let request = if fresh {
                        Request::PutVersioned {
                            id: *key.get_id(),
                            tag: key.get_type_tag(),
                            version,
                        }
                    } else {
                        Request::PostVersioned {
                            id: *key.get_id(),
                            tag: key.get_type_tag(),
                            version,
                        }
                    };
                    Turn::ask(Save::Committing, request)
                },
                other => Turn::end(Save::Failed(other.as_error())),
            },
            Save::Committing => match reply {
                Reply::Done => Turn::end(Save::Saved),
                other => Turn::end(Save::Failed(other.as_error())),
            },
            Save::Saved => Turn::end(Save::Saved),
            Save::Failed(error) => Turn::end(Save::Failed(error)),
        }
    }
}

/// Where the taking up of a directory stands.
#[derive(Debug)]
pub enum Fetch {
    /// Waits for the names of the versions of the directory.
    Versions { id: NetworkName, access_level: AccessLevel },
    /// Waits for the block that holds one version of the directory.
    Block { id: NetworkName, access_level: AccessLevel },
    /// The sealed form of a private directory is being opened.
    Opening { opening: Decryption },
    /// Waits for the payload of the structured data of an unversioned directory.
    Payload,
    /// The end: the directory.
    Fetched(DirectoryListing),
    /// The end: what went wrong.
    Failed(NfsError),
}

/// The mathematical value of a [`Fetch`].
pub ghost enum FetchView {
    Versions { id: NetworkName, access_level: AccessLevel },
    Block { id: NetworkName, access_level: AccessLevel },
    Opening { opening: DecryptionView },
    Payload,
    Fetched(DirectoryListingView),
    Failed(NfsError),
}

impl View for Fetch {
    type V = FetchView;

    open spec fn view(&self) -> FetchView {
        match self {
            Fetch::Versions { id, access_level } => FetchView::Versions {
                id: *id,
                access_level: *access_level,
            },
            Fetch::Block { id, access_level } => FetchView::Block {
                id: *id,
                access_level: *access_level,
            },
            Fetch::Opening { opening } => FetchView::Opening { opening: opening@ },
            Fetch::Payload => FetchView::Payload,
            Fetch::Fetched(directory) => FetchView::Fetched(directory@),
            Fetch::Failed(error) => FetchView::Failed(*error),
        }
    }
}

impl FetchView {
    /// How the newest state of a directory is taken up: by way of the names of its
    /// versions where it is versioned, and from the payload of its structured data, opened
    /// under the directory's nonce where it is private, where it is not.
    pub open spec fn get(key: DirectoryKey) -> TurnView<FetchView> {
        if key.spec_versioned() {
            TurnView::ask(
                FetchView::Versions { id: key.spec_id(), access_level: key.spec_access_level() },
                RequestView::GetVersions { id: key.spec_id(), tag: key.spec_type_tag() },
            )
        } else {
            TurnView::ask(
                FetchView::Payload,
                RequestView::GetPayload {
                    id: key.spec_id(),
                    tag: key.spec_type_tag(),
                    seal: payload_nonce(key),
                },
            )
        }
    }

    /// How one version of a directory is taken up: from the block of that name.
    pub open spec fn get_by_version(
        id: NetworkName,
        access_level: AccessLevel,
        version: NetworkName,
    ) -> TurnView<FetchView> {
        TurnView::ask(
            FetchView::Block { id, access_level },
            RequestView::GetImmutable { name: version },
        )
    }

    /// What is made of bytes that should hold a directory as it is written.
    pub open spec fn read(bytes: Seq<u8>) -> TurnView<FetchView> {
        match spec_deserialise::<DirectoryListing>(bytes) {
            Some(directory) => TurnView::end(FetchView::Fetched(directory)),
            None => TurnView::end(FetchView::Failed(NfsError::SerialisationFailed)),
        }
    }

    /// How taking up goes on. Of the names of the versions the last is the newest, and its
    /// block is fetched as for that version; a directory without versions ends the fetch
    /// with `VersionNotFound`. The block of a private directory is opened, that of a public
    /// one is read as it is, and so is a payload. A reply of another kind ends the fetch
    /// with the error that the reply stands for.
    pub open spec fn step(self, reply: ReplyView) -> TurnView<FetchView> {
        match self {
            FetchView::Versions { id, access_level } => match reply {
                ReplyView::Names(versions) => if versions.len() > 0 {
                    Self::get_by_version(id, access_level, versions.last())
                } else {
                    TurnView::end(FetchView::Failed(NfsError::VersionNotFound))
                },
                _ => TurnView::end(FetchView::Failed(reply.as_error())),
            },
            FetchView::Block { id, access_level } => match reply {
                ReplyView::Bytes(bytes) => match access_level {
                    AccessLevel::Private => {
                        let opening = DecryptionView::start(id, bytes);
                        TurnView {
                            state: FetchView::Opening { opening: opening.state },
                            request: opening.request,
                        }
                    },
                    AccessLevel::Public => Self::read(bytes),
                },
                _ => TurnView::end(FetchView::Failed(reply.as_error())),
            },
            FetchView::Opening { opening } => {
                let next = opening.step(reply);
                match next.state {
                    DecryptionView::Opened(directory) => TurnView::end(
                        FetchView::Fetched(directory),
                    ),
                    DecryptionView::Failed(error) => TurnView::end(FetchView::Failed(error)),
                    _ => TurnView {
                        state: FetchView::Opening { opening: next.state },
                        request: next.request,
                    },
                }
            },
            FetchView::Payload => match reply {
                ReplyView::Bytes(bytes) => Self::read(bytes),
                _ => TurnView::end(FetchView::Failed(reply.as_error())),
            },
            _ => TurnView::end(self),
        }
    }

    /// What the fetch ended with, or `None` while it has not ended.
    pub open spec fn result(self) -> Option<Result<DirectoryListingView, NfsError>> {
        match self {
            FetchView::Fetched(directory) => Some(Ok(directory)),
            FetchView::Failed(error) => Some(Err(error)),
            _ => None,
        }
    }
}

impl Fetch {
    /// Starts to take up the newest state of the directory with the given key.
    pub fn get(key: &DirectoryKey) -> (turn: Turn<Fetch>)
        ensures
            turn@ == FetchView::get(*key),
            turn.request is Some,
    {
        if key.is_versioned() {
            Turn::ask(
                Fetch::Versions { id: *key.get_id(), access_level: *key.get_access_level() },
                Request::GetVersions { id: *key.get_id(), tag: key.get_type_tag() },
            )
        } else {
            let nonce = match key.get_access_level() {
                AccessLevel::Private => Some(DirectoryListing::generate_nonce(key.get_id())),
                AccessLevel::Public => None,
            };
            Turn::ask(
                Fetch::Payload,
                Request::GetPayload { id: *key.get_id(), tag: key.get_type_tag(), seal: nonce },
            )
        }
    }

    /// Starts to take up the version `version` of the directory `id`.
    pub fn get_by_version(id: &NetworkName, access_level: &AccessLevel, version: NetworkName) -> (turn:
        Turn<Fetch>)
        ensures
            turn@ == FetchView::get_by_version(*id, *access_level, version),
            turn.request is Some,
    {
        Turn::ask(
            Fetch::Block { id: *id, access_level: *access_level },
            Request::GetImmutable { name: version },
        )
    }

    /// Reads bytes that should hold a directory as it is written.
    fn read(bytes: &Vec<u8>) -> (turn: Turn<Fetch>)
        ensures
            turn@ == FetchView::read(bytes@),
    {
        match deserialise::<DirectoryListing>(bytes) {
            Ok(directory) => Turn::end(Fetch::Fetched(directory)),
            Err(error) => Turn::end(Fetch::Failed(error)),
        }
    }

    /// Takes the reply to the pending request and gives the next state.
    pub fn step(self, reply: Reply) -> (next: Turn<Fetch>)
        ensures
            next@ == self@.step(reply@),
    {
        match self {
            Fetch::Versions { id, access_level } => match reply {
                Reply::Names(versions) => {
                    if versions.len() > 0 {
                        Fetch::get_by_version(&id, &access_level, versions[versions.len() - 1])
                    } else {
                        Turn::end(Fetch::Failed(NfsError::VersionNotFound))
                    }
                },
                other => Turn::end(Fetch::Failed(other.as_error())),
            },
            Fetch::Block { id, access_level } => match reply {
                Reply::Bytes(bytes) => match access_level {
                    AccessLevel::Private => {
                        let opening = DirectoryListing::decrypt(&id, bytes);
                        Turn {
                            state: Fetch::Opening { opening: opening.state },
                            request: opening.request,
                        }
                    },
                    AccessLevel::Public => Fetch::read(&bytes),
                },
                other => Turn::end(Fetch::Failed(other.as_error())),
            },
            Fetch::Opening { opening } => {
                let next = opening.step(reply);
                match next.state {
                    Decryption::Opened(directory) => Turn::end(Fetch::Fetched(directory)),
                    Decryption::Failed(error) => Turn::end(Fetch::Failed(error)),
                    state => Turn {
                        state: Fetch::Opening { opening: state },
                        request: next.request,
                    },
                }
            },
            Fetch::Payload => match reply {
                Reply::Bytes(bytes) => Fetch::read(&bytes),
                other => Turn::end(Fetch::Failed(other.as_error())),
            },
            Fetch::Fetched(directory) => Turn::end(Fetch::Fetched(directory)),
            Fetch::Failed(error) => Turn::end(Fetch::Failed(error)),
        }
    }

    /// What the fetch ended with, or `None` while it has not ended.
    pub fn finish(self) -> (result: Option<Result<DirectoryListing, NfsError>>)
        ensures
            match result {
                Some(Ok(directory)) => self@.result() == Some(
                    Ok::<DirectoryListingView, NfsError>(directory@),
                ),
                Some(Err(error)) => self@.result() == Some(
                    Err::<DirectoryListingView, NfsError>(error),
                ),
                None => self@.result() is None,
            },
    {
        match self {
            Fetch::Fetched(directory) => Some(Ok(directory)),
            Fetch::Failed(error) => Some(Err(error)),
            _ => None,
        }
    }
}

/// Where the asking for the versions of a directory stands.
#[derive(Debug)]
pub enum Versions {
    /// Waits for the names of the versions.
    Asking,
    /// The end: the names of the versions, oldest first.
    Listed(Vec<NetworkName>),
    /// The end: what went wrong.
    Failed(NfsError),
}

/// The mathematical value of a [`Versions`].
pub ghost enum VersionsView {
    Asking,
    Listed(Seq<NetworkName>),
    Failed(NfsError),
}

impl View for Versions {
    type V = VersionsView;

    open spec fn view(&self) -> VersionsView {
        match self {
            Versions::Asking => VersionsView::Asking,
            Versions::Listed(versions) => VersionsView::Listed(versions@),
            Versions::Failed(error) => VersionsView::Failed(*error),
        }
    }
}

impl VersionsView {
    /// The versions of a directory are asked of its structured data.
    pub open spec fn start(id: NetworkName, tag: u64) -> TurnView<VersionsView> {
        TurnView::ask(VersionsView::Asking, RequestView::GetVersions { id, tag })
    }

    /// The names that come back are the versions, in the order in which they come. A reply
    /// of another kind ends the asking with the error that the reply stands for.
    pub open spec fn step(self, reply: ReplyView) -> TurnView<VersionsView> {
        match self {
            VersionsView::Asking => match reply {
                ReplyView::Names(versions) => TurnView::end(VersionsView::Listed(versions)),
                _ => TurnView::end(VersionsView::Failed(reply.as_error())),
            },
            _ => TurnView::end(self),
        }
    }
}

impl Versions {
    /// Starts to ask for the versions of the directory `id` under `tag`.
    pub fn start(id: &NetworkName, tag: u64) -> (turn: Turn<Versions>)
        ensures
            turn@ == VersionsView::start(*id, tag),
    {
        Turn::ask(Versions::Asking, Request::GetVersions { id: *id, tag })
    }

    /// Takes the reply to the pending request and gives the next state.
    pub fn step(self, reply: Reply) -> (next: Turn<Versions>)
        ensures
            next@ == self@.step(reply@),
    {
        match self {
            Versions::Asking => match reply {
                Reply::Names(versions) => Turn::end(Versions::Listed(versions)),
                other => Turn::end(Versions::Failed(other.as_error())),
            },
            Versions::Listed(versions) => Turn::end(Versions::Listed(versions)),
            Versions::Failed(error) => Turn::end(Versions::Failed(error)),
        }
    }

    /// What the asking ended with, or `None` while it has not ended.
    pub fn finish(self) -> (result: Option<Result<Vec<NetworkName>, NfsError>>)
        ensures
            match result {
                Some(Ok(versions)) => self@ == VersionsView::Listed(versions@),
                Some(Err(error)) => self@ == VersionsView::Failed(error),
                None => self@ is Asking,
            },
    {
        match self {
            Versions::Listed(versions) => Some(Ok(versions)),
            Versions::Failed(error) => Some(Err(error)),
            _ => None,
        }
    }
}

/// The newest state of a versioned directory is its last version: once the names of the
/// versions are there, fetching the directory goes on as fetching its last version starts,
/// and the names are asked for as [`Versions`] asks for them.
pub proof fn lemma_get_is_get_by_last_version(key: DirectoryKey, versions: Seq<NetworkName>)
    requires
        key.spec_versioned(),
        versions.len() > 0,
    ensures
        FetchView::get(key).request == VersionsView::start(
            key.spec_id(),
            key.spec_type_tag(),
        ).request,
        FetchView::get(key).state.step(ReplyView::Names(versions)) == FetchView::get_by_version(
            key.spec_id(),
            key.spec_access_level(),
            versions.last(),
        ),
        VersionsView::start(key.spec_id(), key.spec_type_tag()).state.step(
            ReplyView::Names(versions),
        ).state == VersionsView::Listed(versions),
{
}

/// What is laid down is taken up again. Lay a directory down and answer each request as it
/// asks: with some data map for the self-encryption, with some envelope for the sealing,
/// with some name for the block. Then the laying down ends well, and it has put the
/// directory, or its sealed form, where the fetch looks for it. Fetch the directory and
/// answer each request with what was laid down: the versions, of which the name of the
/// block is the last; the block; what was sealed; what was self-encrypted. Then the fetch
/// ends with the directory that was laid down.
pub proof fn lemma_fetch_undoes_save(
    directory: DirectoryListingView,
    fresh: bool,
    data_map: crate::data_map::DataMapView,
    sealed: Seq<u8>,
    version: NetworkName,
    earlier: Seq<NetworkName>,
)
    requires
        <DirectoryListing as crate::codec::Wire>::fits(directory),
        <crate::data_map::DataMap as crate::codec::Wire>::fits(data_map),
    ensures
        ({
            let key = directory.metadata.key;
            let written = spec_serialise::<DirectoryListing>(directory);
            let plain = spec_serialise::<crate::data_map::DataMap>(data_map);
            let nonce = spec_nonce(key.spec_id());
            let save = SaveView::start(directory, fresh);
            let fetch = FetchView::get(key);
            if key.spec_versioned() {
                let listed = fetch.state.step(ReplyView::Names(earlier.push(version)));
                &&& fetch.request == Some(
                    RequestView::GetVersions { id: key.spec_id(), tag: key.spec_type_tag() },
                )
                &&& listed.request == Some(RequestView::GetImmutable { name: version })
                &&& match key.spec_access_level() {
                    AccessLevel::Private => {
                        let encrypted = save.state.step(ReplyView::DataMap(data_map));
                        let enveloped = encrypted.state.step(ReplyView::Bytes(sealed));
                        let stored = enveloped.state.step(ReplyView::Name(version));
                        let saved = stored.state.step(ReplyView::Done);
                        let block = listed.state.step(ReplyView::Bytes(sealed));
                        let opened = block.state.step(ReplyView::Bytes(plain));
                        let fetched = opened.state.step(ReplyView::Bytes(written));
                        &&& save.request == Some(RequestView::SelfEncrypt { content: written })
                        &&& encrypted.request == Some(
                            RequestView::HybridEncrypt { plain, nonce },
                        )
                        &&& enveloped.request == Some(RequestView::PutImmutable { data: sealed })
                        &&& stored.request == Some(commit_version(key, fresh, version))
                        &&& saved == TurnView::end(SaveView::Saved)
                        &&& block.request == Some(RequestView::HybridDecrypt { sealed, nonce })
                        &&& opened.request == Some(RequestView::SelfDecrypt { data_map })
                        &&& fetched == TurnView::end(FetchView::Fetched(directory))
                    },
                    AccessLevel::Public => {
                        let stored = save.state.step(ReplyView::Name(version));
                        let saved = stored.state.step(ReplyView::Done);
                        let fetched = listed.state.step(ReplyView::Bytes(written));
                        &&& save.request == Some(RequestView::PutImmutable { data: written })
                        &&& stored.request == Some(commit_version(key, fresh, version))
                        &&& saved == TurnView::end(SaveView::Saved)
                        &&& fetched == TurnView::end(FetchView::Fetched(directory))
                    },
                }
            } else {
                let saved = save.state.step(ReplyView::Done);
                let fetched = fetch.state.step(ReplyView::Bytes(written));
                &&& save.request == Some(commit_payload(key, fresh, written))
                &&& saved == TurnView::end(SaveView::Saved)
                &&& fetch.request == Some(
                    RequestView::GetPayload {
                        id: key.spec_id(),
                        tag: key.spec_type_tag(),
                        seal: payload_nonce(key),
                    },
                )
                &&& fetched == TurnView::end(FetchView::Fetched(directory))
            }
        }),
{
    crate::codec::lemma_serialise_round_trip::<DirectoryListing>(directory);
    crate::codec::lemma_serialise_round_trip::<crate::data_map::DataMap>(data_map);
    assert(earlier.push(version).last() == version);
}

} // verus!
