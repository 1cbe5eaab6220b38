//! Network names: the fixed-length identifiers under which data is found on the network.

use vstd::prelude::*;

verus! {

/// Number of bytes in a network name.
pub const NAME_LEN: usize = 64;

/// An identifier on the network. It names a directory, a file or a block of immutable data.
#[derive(Clone, Copy, Debug, PartialEq, Eq, PartialOrd, Ord, Hash)]
pub struct NetworkName(pub [u8; 64]);

impl View for NetworkName {
    type V = Seq<u8>;

    open spec fn view(&self) -> Seq<u8> {
        self.0@
    }
}

impl NetworkName {
    /// The name made of the given bytes.
    pub fn new(bytes: [u8; 64]) -> (name: NetworkName)
        ensures
            name@ == bytes@,
    {
        NetworkName(bytes)
    }

    /// A name drawn at random, or `None` where the random source cannot be used. Nothing is
    /// known of the bytes drawn.
    pub fn random() -> (name: Option<NetworkName>) {
        if random_source_ready() {
            let mut bytes = [0u8; 64];
            fill_random(&mut bytes);
            Some(NetworkName(bytes))
        } else {
            None
        }
    }

    /// The bytes of the name.
    pub fn get_bytes(&self) -> (bytes: &[u8; 64])
        ensures
            bytes@ == self@,
    {
        &self.0
    }

    /// Whether two names are made of the same bytes.
    pub fn equals(&self, other: &NetworkName) -> (same: bool)
        ensures
            same == (self@ == other@),
    {
        let mut i: usize = 0;
        while i < 64
            invariant
                0 <= i <= 64,
                forall|j: int| 0 <= j < i ==> self@[j] == other@[j],
            decreases 64 - i,
        {
            if self.0[i] != other.0[i] {
                return false;
            }
            i += 1;
        }
        assert(self@ =~= other@);
        true
    }
}

/// Number of bytes in the nonce of the asymmetric envelope.
pub const NONCE_LEN: usize = 24;

/// The nonce under which the asymmetric envelope of a private directory is sealed.
#[derive(Clone, Copy, Debug, PartialEq, Eq, PartialOrd, Ord, Hash)]
pub struct Nonce(pub [u8; 24]);

impl View for Nonce {
    type V = Seq<u8>;

    open spec fn view(&self) -> Seq<u8> {
        self.0@
    }
}

/// A name is as long as [`NAME_LEN`] says, and two names with the same bytes are one name.
pub proof fn lemma_name_view(a: NetworkName, b: NetworkName)
    ensures
        a@.len() == NAME_LEN,
        a@ == b@ ==> a == b,
{
    broadcast use vstd::array::group_array_axioms;
    if a@ == b@ {
        assert(a.0 =~= b.0);
    }
}

/// Calls `sodiumoxide::init`, which prepares the random source, and says whether it
/// succeeded. The contract claims nothing of the answer.
#[verifier::external_body]
fn random_source_ready() -> bool {
    sodiumoxide::init().is_ok()
}

/// Calls `sodiumoxide::randombytes::randombytes_into`, which overwrites the buffer with
/// random bytes. The contract claims nothing of the bytes.
#[verifier::external_body]
fn fill_random(buffer: &mut [u8; 64]) {
    sodiumoxide::randombytes::randombytes_into(buffer)
}

} // verus!
