//! The key under which a directory is found on the network.

use vstd::prelude::*;

use crate::name::lemma_name_view;
use crate::name::NetworkName;
use crate::AccessLevel;

verus! {

/// Locates a directory on the network and says how its stored form is read: under which
/// identifier and tag it lies, whether it keeps its versions, and whether it is encrypted.
#[derive(Clone, Copy, Debug, PartialEq, Eq, PartialOrd, Ord, Hash)]
pub struct DirectoryKey {
    id: NetworkName,
    type_tag: u64,
    versioned: bool,
    access_level: AccessLevel,
}

impl DirectoryKey {
    /// The identifier of the directory.
    pub closed spec fn spec_id(self) -> NetworkName {
        self.id
    }

    /// The tag of the structured data that holds the directory.
    pub closed spec fn spec_type_tag(self) -> u64 {
        self.type_tag
    }

    /// Whether the directory keeps its earlier versions.
    pub closed spec fn spec_versioned(self) -> bool {
        self.versioned
    }

    /// Whether the directory is private or public.
    pub closed spec fn spec_access_level(self) -> AccessLevel {
        self.access_level
    }

    /// The key made of the four given parts.
    pub closed spec fn spec_new(
        id: NetworkName,
        type_tag: u64,
        versioned: bool,
        access_level: AccessLevel,
    ) -> DirectoryKey {
        DirectoryKey { id, type_tag, versioned, access_level }
    }

    /// The key made of four parts has those parts.
    pub proof fn lemma_spec_new(
        id: NetworkName,
        type_tag: u64,
        versioned: bool,
        access_level: AccessLevel,
    )
        ensures
            Self::spec_new(id, type_tag, versioned, access_level).spec_id() == id,
            Self::spec_new(id, type_tag, versioned, access_level).spec_type_tag() == type_tag,
            Self::spec_new(id, type_tag, versioned, access_level).spec_versioned() == versioned,
            Self::spec_new(id, type_tag, versioned, access_level).spec_access_level()
                == access_level,
    {
    }

    /// The key made of the four given parts.
    pub fn new(id: NetworkName, type_tag: u64, versioned: bool, access_level: AccessLevel) -> (key:
        DirectoryKey)
        ensures
            key == Self::spec_new(id, type_tag, versioned, access_level),
            key.spec_id() == id,
            key.spec_type_tag() == type_tag,
            key.spec_versioned() == versioned,
            key.spec_access_level() == access_level,
    {
        DirectoryKey { id, type_tag, versioned, access_level }
    }

    /// The identifier of the directory.
    pub fn get_id(&self) -> (id: &NetworkName)
        ensures
            *id == self.spec_id(),
    {
        &self.id
    }

    /// The tag of the structured data that holds the directory.
    pub fn get_type_tag(&self) -> (type_tag: u64)
        ensures
            type_tag == self.spec_type_tag(),
    {
        self.type_tag
    }

    /// Whether the directory keeps its earlier versions.
    pub fn is_versioned(&self) -> (versioned: bool)
        ensures
            versioned == self.spec_versioned(),
    {
        self.versioned
    }

    /// Whether the directory is private or public.
    pub fn get_access_level(&self) -> (access_level: &AccessLevel)
        ensures
            *access_level == self.spec_access_level(),
    {
        &self.access_level
    }

    /// Whether two keys agree in all four parts.
    pub fn equals(&self, other: &DirectoryKey) -> (same: bool)
        ensures
            same == (*self == *other),
    {
        proof {
            lemma_name_view(self.id, other.id);
        }
        self.id.equals(&other.id) && self.type_tag == other.type_tag && self.versioned
            == other.versioned && self.access_level == other.access_level
    }
}

/// A key is its four parts and nothing else: two keys that agree in them are one key.
pub proof fn lemma_key_is_its_parts(a: DirectoryKey, b: DirectoryKey)
    requires
        a.spec_id() == b.spec_id(),
        a.spec_type_tag() == b.spec_type_tag(),
        a.spec_versioned() == b.spec_versioned(),
        a.spec_access_level() == b.spec_access_level(),
    ensures
        a == b,
{
}

} // verus!
