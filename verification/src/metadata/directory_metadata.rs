//! What is recorded about a directory.

use vstd::prelude::*;

use crate::bytes::bytes_equal;
use crate::bytes::copy_bytes;
use crate::clock::Time;
use crate::errors::NfsError;
use crate::metadata::directory_key::DirectoryKey;
use crate::name::NetworkName;
use crate::AccessLevel;

verus! {

/// What is recorded about a directory: its key, its name, when it was created and last
/// modified, what its user attached to it, and the key of the directory that holds it.
#[derive(Debug, PartialEq, Eq, PartialOrd, Ord)]
pub struct DirectoryMetadata {
    key: DirectoryKey,
    name: String,
    created_time: Time,
    modified_time: Time,
    user_metadata: Vec<u8>,
    parent_dir_key: Option<DirectoryKey>,
}

/// The mathematical value of a [`DirectoryMetadata`].
pub ghost struct DirectoryMetadataView {
    pub key: DirectoryKey,
    pub name: Seq<char>,
    pub created_time: Time,
    pub modified_time: Time,
    pub user_metadata: Seq<u8>,
    pub parent_dir_key: Option<DirectoryKey>,
}

impl View for DirectoryMetadata {
    type V = DirectoryMetadataView;

    closed spec fn view(&self) -> DirectoryMetadataView {
        DirectoryMetadataView {
            key: self.key,
            name: self.name@,
            created_time: self.created_time,
            modified_time: self.modified_time,
            user_metadata: self.user_metadata@,
            parent_dir_key: self.parent_dir_key,
        }
    }
}

impl Clone for DirectoryMetadata {
    fn clone(&self) -> (copy: DirectoryMetadata)
        ensures
            copy@ == self@,
    {
        DirectoryMetadata {
            key: self.key,
            name: self.name.clone(),
            created_time: self.created_time,
            modified_time: self.modified_time,
            user_metadata: copy_bytes(&self.user_metadata),
            parent_dir_key: self.parent_dir_key,
        }
    }
}

impl DirectoryMetadataView {
    /// A directory is a root where no directory holds it.
    pub open spec fn is_root(self) -> bool {
        self.parent_dir_key is None
    }

    /// The directory was not modified before it was created.
    pub open spec fn times_in_order(self) -> bool {
        self.modified_time.at_or_after(self.created_time)
    }
}

impl DirectoryMetadata {
    /// Metadata of a new directory with a random identifier, created and last modified now.
    /// Fails with `RandomnessUnavailable` where no identifier could be drawn, and with
    /// nothing else. Which identifier and which time the result holds is not known here:
    /// [`DirectoryMetadata::with_id_at`] says what is made of them.
    pub fn new(
        name: String,
        type_tag: u64,
        versioned: bool,
        access_level: AccessLevel,
        user_metadata: Vec<u8>,
        parent_dir_key: Option<DirectoryKey>,
    ) -> (made: Result<DirectoryMetadata, NfsError>)
        ensures
            match made {
                Ok(metadata) => exists|id: NetworkName, now: Time|
                    metadata@ == Self::spec_with_id_at(
                        id,
                        now,
                        name@,
                        type_tag,
                        versioned,
                        access_level,
                        user_metadata@,
                        parent_dir_key,
                    ),
                Err(error) => error == NfsError::RandomnessUnavailable,
            },
    {
        match NetworkName::random() {
            Some(id) => {
                let now = Time::now();
                Ok(
                    Self::with_id_at(
                        id,
                        now,
                        name,
                        type_tag,
                        versioned,
                        access_level,
                        user_metadata,
                        parent_dir_key,
                    ),
                )
            },
            None => Err(NfsError::RandomnessUnavailable),
        }
    }

    /// The metadata of a directory with identifier `id` that was created at `now` and not
    /// modified since.
    pub open spec fn spec_with_id_at(
        id: NetworkName,
        now: Time,
        name: Seq<char>,
        type_tag: u64,
        versioned: bool,
        access_level: AccessLevel,
        user_metadata: Seq<u8>,
        parent_dir_key: Option<DirectoryKey>,
    ) -> DirectoryMetadataView {
        DirectoryMetadataView {
            key: DirectoryKey::spec_new(id, type_tag, versioned, access_level),
            name,
            created_time: now,
            modified_time: now,
            user_metadata,
            parent_dir_key,
        }
    }

    /// Metadata of a directory with identifier `id` that was created at `now` and not
    /// modified since.
    pub fn with_id_at(
        id: NetworkName,
        now: Time,
        name: String,
        type_tag: u64,
        versioned: bool,
        access_level: AccessLevel,
        user_metadata: Vec<u8>,
        parent_dir_key: Option<DirectoryKey>,
    ) -> (metadata: DirectoryMetadata)
        ensures
            metadata@ == Self::spec_with_id_at(
                id,
                now,
                name@,
                type_tag,
                versioned,
                access_level,
                user_metadata@,
                parent_dir_key,
            ),
            metadata@.key.spec_id() == id,
            metadata@.key.spec_type_tag() == type_tag,
            metadata@.key.spec_versioned() == versioned,
            metadata@.key.spec_access_level() == access_level,
            metadata@.times_in_order(),
    {
        let key = DirectoryKey::new(id, type_tag, versioned, access_level);
        DirectoryMetadata {
            key,
            name,
            created_time: now,
            modified_time: now,
            user_metadata,
            parent_dir_key,
        }
    }

    /// The identifier of the directory.
    pub fn get_id(&self) -> (id: &NetworkName)
        ensures
            *id == self@.key.spec_id(),
    {
        self.key.get_id()
    }

    /// The tag of the structured data that holds the directory.
    pub fn get_type_tag(&self) -> (type_tag: u64)
        ensures
            type_tag == self@.key.spec_type_tag(),
    {
        self.key.get_type_tag()
    }

    /// Whether the directory keeps its earlier versions.
    pub fn is_versioned(&self) -> (versioned: bool)
        ensures
            versioned == self@.key.spec_versioned(),
    {
        self.key.is_versioned()
    }

    /// Whether the directory is private or public.
    pub fn get_access_level(&self) -> (access_level: &AccessLevel)
        ensures
            *access_level == self@.key.spec_access_level(),
    {
        self.key.get_access_level()
    }

    /// When the directory was created.
    pub fn get_created_time(&self) -> (time: &Time)
        ensures
            *time == self@.created_time,
    {
        &self.created_time
    }

    /// When the directory was last modified.
    pub fn get_modified_time(&self) -> (time: &Time)
        ensures
            *time == self@.modified_time,
    {
        &self.modified_time
    }

    /// The name of the directory.
    pub fn get_name(&self) -> (name: &String)
        ensures
            name@ == self@.name,
    {
        &self.name
    }

    /// The key of the directory.
    pub fn get_key(&self) -> (key: &DirectoryKey)
        ensures
            *key == self@.key,
    {
        &self.key
    }

    /// The key of the directory that holds this one, or `None` for a root.
    pub fn get_parent_dir_key(&self) -> (key: Option<&DirectoryKey>)
        ensures
            match key {
                Some(parent) => self@.parent_dir_key == Some(*parent),
                None => self@.parent_dir_key is None,
            },
    {
        match &self.parent_dir_key {
            Some(parent) => Some(parent),
            None => None,
        }
    }

    /// What the user attached to the directory.
    pub fn get_user_metadata(&self) -> (user_metadata: &Vec<u8>)
        ensures
            user_metadata@ == self@.user_metadata,
    {
        &self.user_metadata
    }

    /// Gives the directory another name. Nothing else changes.
    pub fn set_name(&mut self, name: String)
        ensures
            final(self)@ == (DirectoryMetadataView { name: name@, ..old(self)@ }),
    {
        self.name = name;
    }

    /// Records when the directory was last modified. Nothing else changes.
    pub fn set_modified_time(&mut self, modified_time: Time)
        ensures
            final(self)@ == (DirectoryMetadataView { modified_time, ..old(self)@ }),
    {
        self.modified_time = modified_time
    }

    /// Attaches other user metadata to the directory. Nothing else changes.
    pub fn set_user_metadata(&mut self, user_metadata: Vec<u8>)
        ensures
            final(self)@ == (DirectoryMetadataView { user_metadata: user_metadata@, ..old(self)@ }),
    {
        self.user_metadata = user_metadata;
    }

    /// Whether two records hold the same in every field.
    pub fn equals(&self, other: &DirectoryMetadata) -> (same: bool)
        ensures
            same == (self@ == other@),
    {
        let parents = match (&self.parent_dir_key, &other.parent_dir_key) {
            (Some(a), Some(b)) => a.equals(b),
            (None, None) => true,
            _ => false,
        };
        parents && self.key.equals(&other.key) && self.name == other.name && self.created_time
            == other.created_time && self.modified_time == other.modified_time && bytes_equal(
            &self.user_metadata,
            &other.user_metadata,
        )
    }

    /// Puts a record together from its stored parts.
    pub(crate) fn from_parts(
        key: DirectoryKey,
        name: String,
        created_time: Time,
        modified_time: Time,
        user_metadata: Vec<u8>,
        parent_dir_key: Option<DirectoryKey>,
    ) -> (metadata: DirectoryMetadata)
        ensures
            metadata@ == (DirectoryMetadataView {
                key,
                name: name@,
                created_time,
                modified_time,
                user_metadata: user_metadata@,
                parent_dir_key,
            }),
    {
        DirectoryMetadata { key, name, created_time, modified_time, user_metadata, parent_dir_key }
    }
}

} // verus!
