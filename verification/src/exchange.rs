//! What an operation asks of the network, and what it is told in return.
//!
//! No operation of this crate reaches the network, the keys or the session itself. An
//! operation that needs one of them is a state: it comes with the [`Request`] that it waits
//! for, and its `step` takes the [`Reply`] and gives the next state, until a state comes
//! without a request. The caller performs each request, in the order in which the requests
//! are handed out.

use vstd::prelude::*;

use crate::data_map::DataMap;
use crate::data_map::DataMapView;
use crate::errors::NfsError;
use crate::name::NetworkName;
use crate::name::Nonce;

verus! {

/// One piece of work for the network client, the self-encryption primitive or the session.
#[derive(Debug, PartialEq, Eq)]
pub enum Request {
    /// Fetch the versioned structured data at `(tag, id)` and give the names of all its
    /// versions, oldest first. Answered by [`Reply::Names`].
    GetVersions { id: NetworkName, tag: u64 },
    /// Fetch the unversioned structured data at `(tag, id)` and give its payload, opened
    /// with the session's encryption keys under the nonce `seal` where one is given. Answered by
    /// [`Reply::Bytes`].
    GetPayload { id: NetworkName, tag: u64, seal: Option<Nonce> },
    /// Fetch the immutable data of that name and give its value. Answered by
    /// [`Reply::Bytes`].
    GetImmutable { name: NetworkName },
    /// Put `data` as immutable data and give the name it has. Answered by [`Reply::Name`].
    PutImmutable { data: Vec<u8> },
    /// Build a versioned structured data at `(tag, id)` with `version` as its first version
    /// and put it. Answered by [`Reply::Done`].
    PutVersioned { id: NetworkName, tag: u64, version: NetworkName },
    /// Fetch the versioned structured data at `(tag, id)`, append `version` to its versions
    /// and post it. Answered by [`Reply::Done`].
    PostVersioned { id: NetworkName, tag: u64, version: NetworkName },
    /// Build an unversioned structured data at `(tag, id)` that carries `payload`, sealed
    /// with the session's encryption keys under the nonce `seal` where one is given, and put
    /// it.
    /// Answered by [`Reply::Done`].
    PutUnversioned { id: NetworkName, tag: u64, payload: Vec<u8>, seal: Option<Nonce> },
    /// Fetch the unversioned structured data at `(tag, id)`, build its successor that
    /// carries `payload`, sealed as for [`Request::PutUnversioned`], and post it. Answered
    /// by [`Reply::Done`].
    PostUnversioned { id: NetworkName, tag: u64, payload: Vec<u8>, seal: Option<Nonce> },
    /// Self-encrypt `content`, store its chunks, and give the data map. Answered by
    /// [`Reply::DataMap`].
    SelfEncrypt { content: Vec<u8> },
    /// Fetch the chunks of `data_map` and give the content that they hold. Answered by
    /// [`Reply::Bytes`].
    SelfDecrypt { data_map: DataMap },
    /// Seal `plain` in an envelope for the session's own keys under `nonce`. Answered by
    /// [`Reply::Bytes`].
    HybridEncrypt { plain: Vec<u8>, nonce: Nonce },
    /// Open the envelope `sealed` with the session's keys under `nonce`. Answered by
    /// [`Reply::Bytes`].
    HybridDecrypt { sealed: Vec<u8>, nonce: Nonce },
    /// Give the identifier of the user's root directory that the session records, if it
    /// records one. Answered by [`Reply::RootId`].
    UserRootDirectoryId,
    /// Record `id` in the session as the identifier of the user's root directory. Answered
    /// by [`Reply::Done`].
    SetUserRootDirectoryId { id: NetworkName },
    /// Give the identifier of the configuration root directory that the session records, if
    /// it records one. Answered by [`Reply::RootId`].
    ConfigurationRootDirectoryId,
    /// Record `id` in the session as the identifier of the configuration root directory.
    /// Answered by [`Reply::Done`].
    SetConfigurationRootDirectoryId { id: NetworkName },
}

/// The bytes of a nonce that may be absent.
pub open spec fn nonce_view(nonce: Option<Nonce>) -> Option<Seq<u8>> {
    match nonce {
        Some(nonce) => Some(nonce@),
        None => None,
    }
}

/// The mathematical value of a [`Request`].
pub ghost enum RequestView {
    GetVersions { id: NetworkName, tag: u64 },
    GetPayload { id: NetworkName, tag: u64, seal: Option<Seq<u8>> },
    GetImmutable { name: NetworkName },
    PutImmutable { data: Seq<u8> },
    PutVersioned { id: NetworkName, tag: u64, version: NetworkName },
    PostVersioned { id: NetworkName, tag: u64, version: NetworkName },
    PutUnversioned { id: NetworkName, tag: u64, payload: Seq<u8>, seal: Option<Seq<u8>> },
    PostUnversioned { id: NetworkName, tag: u64, payload: Seq<u8>, seal: Option<Seq<u8>> },
    SelfEncrypt { content: Seq<u8> },
    SelfDecrypt { data_map: DataMapView },
    HybridEncrypt { plain: Seq<u8>, nonce: Seq<u8> },
    HybridDecrypt { sealed: Seq<u8>, nonce: Seq<u8> },
    UserRootDirectoryId,
    SetUserRootDirectoryId { id: NetworkName },
    ConfigurationRootDirectoryId,
    SetConfigurationRootDirectoryId { id: NetworkName },
}

impl View for Request {
    type V = RequestView;

    open spec fn view(&self) -> RequestView {
        match self {
            Request::GetVersions { id, tag } => RequestView::GetVersions { id: *id, tag: *tag },
            Request::GetPayload { id, tag, seal } => RequestView::GetPayload {
                id: *id,
                tag: *tag,
                seal: nonce_view(*seal),
            },
            Request::GetImmutable { name } => RequestView::GetImmutable { name: *name },
            Request::PutImmutable { data } => RequestView::PutImmutable { data: data@ },
            Request::PutVersioned { id, tag, version } => RequestView::PutVersioned {
                id: *id,
                tag: *tag,
                version: *version,
            },
            Request::PostVersioned { id, tag, version } => RequestView::PostVersioned {
                id: *id,
                tag: *tag,
                version: *version,
            },
            Request::PutUnversioned { id, tag, payload, seal } => RequestView::PutUnversioned {
                id: *id,
                tag: *tag,
                payload: payload@,
                seal: nonce_view(*seal),
            },
            Request::PostUnversioned { id, tag, payload, seal } => RequestView::PostUnversioned {
                id: *id,
                tag: *tag,
                payload: payload@,
                seal: nonce_view(*seal),
            },
            Request::SelfEncrypt { content } => RequestView::SelfEncrypt { content: content@ },
            Request::SelfDecrypt { data_map } => RequestView::SelfDecrypt { data_map: data_map@ },
            Request::HybridEncrypt { plain, nonce } => RequestView::HybridEncrypt {
                plain: plain@,
                nonce: nonce@,
            },
            Request::HybridDecrypt { sealed, nonce } => RequestView::HybridDecrypt {
                sealed: sealed@,
                nonce: nonce@,
            },
            Request::UserRootDirectoryId => RequestView::UserRootDirectoryId,
            Request::SetUserRootDirectoryId { id } => RequestView::SetUserRootDirectoryId {
                id: *id,
            },
            Request::ConfigurationRootDirectoryId => RequestView::ConfigurationRootDirectoryId,
            Request::SetConfigurationRootDirectoryId {
                id,
            } => RequestView::SetConfigurationRootDirectoryId { id: *id },
        }
    }
}

/// What came of a [`Request`].
#[derive(Debug, PartialEq, Eq)]
pub enum Reply {
    /// The work was done; there is nothing to give.
    Done,
    /// The names asked for, oldest first.
    Names(Vec<NetworkName>),
    /// The name under which the data was stored.
    Name(NetworkName),
    /// The identifier that the session records, if it records one.
    RootId(Option<NetworkName>),
    /// The bytes asked for.
    Bytes(Vec<u8>),
    /// The data map of the content that was encrypted.
    DataMap(DataMap),
    /// The work failed; the value is the client layer's code for the failure.
    Failed(i32),
}

/// The mathematical value of a [`Reply`].
pub ghost enum ReplyView {
    Done,
    Names(Seq<NetworkName>),
    Name(NetworkName),
    RootId(Option<NetworkName>),
    Bytes(Seq<u8>),
    DataMap(DataMapView),
    Failed(i32),
}

impl View for Reply {
    type V = ReplyView;

    open spec fn view(&self) -> ReplyView {
        match self {
            Reply::Done => ReplyView::Done,
            Reply::Names(names) => ReplyView::Names(names@),
            Reply::Name(name) => ReplyView::Name(*name),
            Reply::RootId(id) => ReplyView::RootId(*id),
            Reply::Bytes(bytes) => ReplyView::Bytes(bytes@),
            Reply::DataMap(data_map) => ReplyView::DataMap(data_map@),
            Reply::Failed(code) => ReplyView::Failed(*code),
        }
    }
}

impl ReplyView {
    /// The error that a reply stands for where it is not the reply that was waited for: the
    /// client's failure where it reports one, and `UnexpectedReply` otherwise.
    pub open spec fn as_error(self) -> NfsError {
        match self {
            ReplyView::Failed(code) => NfsError::NetworkError(code),
            _ => NfsError::UnexpectedReply,
        }
    }
}

impl Reply {
    /// The error that a reply stands for where it is not the reply that was waited for: the
    /// client's failure where it reports one, and `UnexpectedReply` otherwise.
    pub fn as_error(&self) -> (error: NfsError)
        ensures
            error == self@.as_error(),
    {
        match self {
            Reply::Failed(code) => NfsError::NetworkError(*code),
            _ => NfsError::UnexpectedReply,
        }
    }
}

/// A state of an operation together with the request that it waits for. A state that
/// waits for nothing is the end of its operation.
#[derive(Debug)]
pub struct Turn<S> {
    /// Where the operation stands.
    pub state: S,
    /// What it waits for, or `None` at its end.
    pub request: Option<Request>,
}

/// The mathematical value of a [`Turn`].
pub ghost struct TurnView<V> {
    pub state: V,
    pub request: Option<RequestView>,
}

impl<S: View> View for Turn<S> {
    type V = TurnView<S::V>;

    open spec fn view(&self) -> TurnView<S::V> {
        TurnView {
            state: self.state@,
            request: match self.request {
                Some(request) => Some(request@),
                None => None,
            },
        }
    }
}

impl<V> TurnView<V> {
    /// The state `state`, waiting for `request`.
    pub open spec fn ask(state: V, request: RequestView) -> TurnView<V> {
        TurnView { state, request: Some(request) }
    }

    /// The state `state` as the end of its operation.
    pub open spec fn end(state: V) -> TurnView<V> {
        TurnView { state, request: None }
    }
}

impl<S: View> Turn<S> {
    /// The state `state`, waiting for `request`.
    pub fn ask(state: S, request: Request) -> (turn: Turn<S>)
        ensures
            turn@ == TurnView::ask(state@, request@),
    {
        Turn { state, request: Some(request) }
    }

    /// The state `state` as the end of its operation.
    pub fn end(state: S) -> (turn: Turn<S>)
        ensures
            turn@ == TurnView::<S::V>::end(state@),
    {
        Turn { state, request: None }
    }
}

} // verus!
