//! How a private directory is sealed for storage, and how it is opened again.
//!
//! Sealing writes the directory down, has the bytes self-encrypted, writes the data map
//! down, and has that sealed in an envelope under the nonce of the directory. Opening goes
//! the same way back.

use vstd::prelude::*;

use crate::codec::deserialise;
use crate::codec::lemma_serialise_round_trip;
use crate::codec::serialise;
use crate::codec::spec_deserialise;
use crate::codec::spec_serialise;
use crate::codec::Wire;
use crate::data_map::DataMap;
use crate::data_map::DataMapView;
use crate::directory_listing::spec_nonce;
use crate::directory_listing::DirectoryListing;
use crate::directory_listing::DirectoryListingView;
use crate::errors::NfsError;
use crate::exchange::Reply;
use crate::exchange::ReplyView;
use crate::exchange::Request;
use crate::exchange::RequestView;
use crate::exchange::Turn;
use crate::exchange::TurnView;
use crate::name::NetworkName;
use crate::name::Nonce;

verus! {

/// Where the sealing of a directory stands.
#[derive(Debug)]
pub enum Encryption {
    /// Waits for the data map of the directory's bytes.
    Encrypting { nonce: Nonce },
    /// Waits for the envelope around the data map.
    Sealing,
    /// The end: the sealed form of the directory.
    Sealed(Vec<u8>),
    /// The end: what went wrong.
    Failed(NfsError),
}

/// The mathematical value of an [`Encryption`].
pub ghost enum EncryptionView {
    Encrypting { nonce: Seq<u8> },
    Sealing,
    Sealed(Seq<u8>),
    Failed(NfsError),
}

impl View for Encryption {
    type V = EncryptionView;

    open spec fn view(&self) -> EncryptionView {
        match self {
            Encryption::Encrypting { nonce } => EncryptionView::Encrypting { nonce: nonce@ },
            Encryption::Sealing => EncryptionView::Sealing,
            Encryption::Sealed(sealed) => EncryptionView::Sealed(sealed@),
            Encryption::Failed(error) => EncryptionView::Failed(*error),
        }
    }
}

impl EncryptionView {
    /// Sealing starts with the self-encryption of the directory's bytes.
    pub open spec fn start(directory: DirectoryListingView) -> TurnView<EncryptionView> {
        TurnView::ask(
            EncryptionView::Encrypting { nonce: spec_nonce(directory.metadata.key.spec_id()) },
            RequestView::SelfEncrypt { content: spec_serialise::<DirectoryListing>(directory) },
        )
    }

    /// The data map that comes back is written down and sealed under the directory's
    /// nonce; the envelope that comes back is the result. Any other reply ends the sealing
    /// with the error that the reply stands for.
    pub open spec fn step(self, reply: ReplyView) -> TurnView<EncryptionView> {
        match self {
            EncryptionView::Encrypting { nonce } => match reply {
                ReplyView::DataMap(data_map) => TurnView::ask(
                    EncryptionView::Sealing,
                    RequestView::HybridEncrypt {
                        plain: spec_serialise::<DataMap>(data_map),
                        nonce,
                    },
                ),
                _ => TurnView::end(EncryptionView::Failed(reply.as_error())),
            },
            EncryptionView::Sealing => match reply {
                ReplyView::Bytes(sealed) => TurnView::end(EncryptionView::Sealed(sealed)),
                _ => TurnView::end(EncryptionView::Failed(reply.as_error())),
            },
            _ => TurnView::end(self),
        }
    }

    /// What the sealing ended with, or `None` while it has not ended.
    pub open spec fn result(self) -> Option<Result<Seq<u8>, NfsError>> {
        match self {
            EncryptionView::Sealed(sealed) => Some(Ok(sealed)),
            EncryptionView::Failed(error) => Some(Err(error)),
            _ => None,
        }
    }
}

impl Encryption {
    /// Takes the reply to the pending request and gives the next state.
    pub fn step(self, reply: Reply) -> (next: Turn<Encryption>)
        ensures
            next@ == self@.step(reply@),
    {
        match self {
            Encryption::Encrypting { nonce } => match reply {
                Reply::DataMap(data_map) => Turn::ask(
                    Encryption::Sealing,
                    Request::HybridEncrypt { plain: serialise(&data_map), nonce },
                ),
                other => Turn::end(Encryption::Failed(other.as_error())),
            },
            Encryption::Sealing => match reply {
                Reply::Bytes(sealed) => Turn::end(Encryption::Sealed(sealed)),
                other => Turn::end(Encryption::Failed(other.as_error())),
            },
            Encryption::Sealed(sealed) => Turn::end(Encryption::Sealed(sealed)),
            Encryption::Failed(error) => Turn::end(Encryption::Failed(error)),
        }
    }

    /// What the sealing ended with, or `None` while it has not ended.
    pub fn finish(self) -> (result: Option<Result<Vec<u8>, NfsError>>)
        ensures
            match result {
                Some(Ok(sealed)) => self@.result() == Some(Ok::<Seq<u8>, NfsError>(sealed@)),
                Some(Err(error)) => self@.result() == Some(Err::<Seq<u8>, NfsError>(error)),
                None => self@.result() is None,
            },
    {
        match self {
            Encryption::Sealed(sealed) => Some(Ok(sealed)),
            Encryption::Failed(error) => Some(Err(error)),
            _ => None,
        }
    }
}

/// Where the opening of a sealed directory stands.
#[derive(Debug)]
pub enum Decryption {
    /// Waits for the bytes inside the envelope.
    Opening,
    /// Waits for the content that the data map stands for.
    Decrypting,
    /// The end: the directory that was sealed.
    Opened(DirectoryListing),
    /// The end: what went wrong.
    Failed(NfsError),
}

/// The mathematical value of a [`Decryption`].
pub ghost enum DecryptionView {
    Opening,
    Decrypting,
    Opened(DirectoryListingView),
    Failed(NfsError),
}

impl View for Decryption {
    type V = DecryptionView;

    open spec fn view(&self) -> DecryptionView {
        match self {
            Decryption::Opening => DecryptionView::Opening,
            Decryption::Decrypting => DecryptionView::Decrypting,
            Decryption::Opened(directory) => DecryptionView::Opened(directory@),
            Decryption::Failed(error) => DecryptionView::Failed(*error),
        }
    }
}

impl DecryptionView {
    /// Opening starts with the envelope, under the nonce of the directory.
    pub open spec fn start(directory_id: NetworkName, data: Seq<u8>) -> TurnView<DecryptionView> {
        TurnView::ask(
            DecryptionView::Opening,
            RequestView::HybridDecrypt { sealed: data, nonce: spec_nonce(directory_id) },
        )
    }

    /// The bytes out of the envelope are read as a data map, whose content is asked for;
    /// the content that comes back is read as the directory. Bytes that hold no data map,
    /// or no directory, end the opening with `SerialisationFailed`, and any other reply
    /// with the error that the reply stands for.
    pub open spec fn step(self, reply: ReplyView) -> TurnView<DecryptionView> {
        match self {
            DecryptionView::Opening => match reply {
                ReplyView::Bytes(plain) => match spec_deserialise::<DataMap>(plain) {
                    Some(data_map) => TurnView::ask(
                        DecryptionView::Decrypting,
                        RequestView::SelfDecrypt { data_map },
                    ),
                    None => TurnView::end(DecryptionView::Failed(NfsError::SerialisationFailed)),
                },
                _ => TurnView::end(DecryptionView::Failed(reply.as_error())),
            },
            DecryptionView::Decrypting => match reply {
                ReplyView::Bytes(content) => match spec_deserialise::<DirectoryListing>(content) {
                    Some(directory) => TurnView::end(DecryptionView::Opened(directory)),
                    None => TurnView::end(DecryptionView::Failed(NfsError::SerialisationFailed)),
                },
                _ => TurnView::end(DecryptionView::Failed(reply.as_error())),
            },
            _ => TurnView::end(self),
        }
    }

    /// What the opening ended with, or `None` while it has not ended.
    pub open spec fn result(self) -> Option<Result<DirectoryListingView, NfsError>> {
        match self {
            DecryptionView::Opened(directory) => Some(Ok(directory)),
            DecryptionView::Failed(error) => Some(Err(error)),
            _ => None,
        }
    }
}

impl Decryption {
    /// Takes the reply to the pending request and gives the next state.
    pub fn step(self, reply: Reply) -> (next: Turn<Decryption>)
        ensures
            next@ == self@.step(reply@),
    {
        match self {
            Decryption::Opening => match reply {
                Reply::Bytes(plain) => match deserialise::<DataMap>(&plain) {
                    Ok(data_map) => Turn::ask(
                        Decryption::Decrypting,
                        Request::SelfDecrypt { data_map },
                    ),
                    Err(error) => Turn::end(Decryption::Failed(error)),
                },
                other => Turn::end(Decryption::Failed(other.as_error())),
            },
            Decryption::Decrypting => match reply {
                Reply::Bytes(content) => match deserialise::<DirectoryListing>(&content) {
                    Ok(directory) => Turn::end(Decryption::Opened(directory)),
                    Err(error) => Turn::end(Decryption::Failed(error)),
                },
                other => Turn::end(Decryption::Failed(other.as_error())),
            },
            Decryption::Opened(directory) => Turn::end(Decryption::Opened(directory)),
            Decryption::Failed(error) => Turn::end(Decryption::Failed(error)),
        }
    }

    /// What the opening ended with, or `None` while it has not ended.
    pub fn finish(self) -> (result: Option<Result<DirectoryListing, NfsError>>)
        ensures
            match result {
                Some(Ok(directory)) => self@.result() == Some(
                    Ok::<DirectoryListingView, NfsError>(directory@),
                ),
                Some(Err(error)) => self@.result() == Some(
                    Err::<DirectoryListingView, NfsError>(error),
                ),
                None => self@.result() is None,
            },
    {
        match self {
            Decryption::Opened(directory) => Some(Ok(directory)),
            Decryption::Failed(error) => Some(Err(error)),
            _ => None,
        }
    }
}

impl DirectoryListing {
    /// Starts the sealing of the directory.
    pub fn encrypt(&self) -> (turn: Turn<Encryption>)
        ensures
            turn@ == EncryptionView::start(self@),
            DirectoryListing::fits(self@),
    {
        let nonce = DirectoryListing::generate_nonce(self.get_key().get_id());
        let content = serialise(self);
        Turn::ask(Encryption::Encrypting { nonce }, Request::SelfEncrypt { content })
    }

    /// Starts the opening of the sealed form `data` of the directory `directory_id`.
    pub fn decrypt(directory_id: &NetworkName, data: Vec<u8>) -> (turn: Turn<Decryption>)
        ensures
            turn@ == DecryptionView::start(*directory_id, data@),
    {
        let nonce = DirectoryListing::generate_nonce(directory_id);
        Turn::ask(Decryption::Opening, Request::HybridDecrypt { sealed: data, nonce })
    }
}

/// Opening undoes sealing. Take a directory and seal it: whatever data map the
/// self-encryption gives for its bytes, and whatever envelope comes back for the data map,
/// that envelope is the sealed form. Open the sealed form: it is asked to be opened under
/// the nonce under which it was sealed; where the bytes that were sealed come back, the
/// content of the data map that self-encryption gave is asked for; and where the bytes
/// that were self-encrypted come back, the opening ends with the directory that was sealed.
pub proof fn lemma_decrypt_undoes_encrypt(
    directory: DirectoryListingView,
    data_map: DataMapView,
    sealed: Seq<u8>,
)
    requires
        DirectoryListing::fits(directory),
        DataMap::fits(data_map),
    ensures
        ({
            let content = spec_serialise::<DirectoryListing>(directory);
            let plain = spec_serialise::<DataMap>(data_map);
            let nonce = spec_nonce(directory.metadata.key.spec_id());
            let first = EncryptionView::start(directory);
            let second = first.state.step(ReplyView::DataMap(data_map));
            let third = second.state.step(ReplyView::Bytes(sealed));
            let opening = DecryptionView::start(directory.metadata.key.spec_id(), sealed);
            let decrypting = opening.state.step(ReplyView::Bytes(plain));
            let opened = decrypting.state.step(ReplyView::Bytes(content));
            &&& first.request == Some(RequestView::SelfEncrypt { content })
            &&& second.request == Some(RequestView::HybridEncrypt { plain, nonce })
            &&& third == TurnView::end(EncryptionView::Sealed(sealed))
            &&& opening.request == Some(RequestView::HybridDecrypt { sealed, nonce })
            &&& decrypting.request == Some(RequestView::SelfDecrypt { data_map })
            &&& opened == TurnView::end(DecryptionView::Opened(directory))
        }),
{
    lemma_serialise_round_trip::<DirectoryListing>(directory);
    lemma_serialise_round_trip::<DataMap>(data_map);
}

} // verus!
