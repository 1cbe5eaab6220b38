//! What is recorded about a file.

use vstd::prelude::*;

use crate::bytes::bytes_equal;
use crate::bytes::copy_bytes;
use crate::clock::Time;
use crate::name::lemma_name_view;
use crate::name::NetworkName;

verus! {

/// What is recorded about a file: its name, the size of its content, when it was created
/// and last modified, what its user attached to it, and the identifier that stays with it.
#[derive(Debug, PartialEq, Eq, PartialOrd, Ord)]
pub struct FileMetadata {
    name: String,
    size: u64,
    created_time: Time,
    modified_time: Time,
    user_metadata: Vec<u8>,
    id: NetworkName,
}

/// The mathematical value of a [`FileMetadata`].
pub ghost struct FileMetadataView {
    pub name: Seq<char>,
    pub size: u64,
    pub created_time: Time,
    pub modified_time: Time,
    pub user_metadata: Seq<u8>,
    pub id: NetworkName,
}

impl View for FileMetadata {
    type V = FileMetadataView;

    closed spec fn view(&self) -> FileMetadataView {
        FileMetadataView {
            name: self.name@,
            size: self.size,
            created_time: self.created_time,
            modified_time: self.modified_time,
            user_metadata: self.user_metadata@,
            id: self.id,
        }
    }
}

impl Clone for FileMetadata {
    fn clone(&self) -> (copy: FileMetadata)
        ensures
            copy@ == self@,
    {
        FileMetadata {
            name: self.name.clone(),
            size: self.size,
            created_time: self.created_time,
            modified_time: self.modified_time,
            user_metadata: copy_bytes(&self.user_metadata),
            id: self.id,
        }
    }
}

impl FileMetadata {
    /// The metadata of an empty file with identifier `id` that was created at `now` and not
    /// modified since.
    pub open spec fn spec_with_id_at(
        id: NetworkName,
        now: Time,
        name: Seq<char>,
        user_metadata: Seq<u8>,
    ) -> FileMetadataView {
        FileMetadataView {
            name,
            size: 0,
            created_time: now,
            modified_time: now,
            user_metadata,
            id,
        }
    }

    /// Metadata of a new, empty file, created and last modified now, with a random
    /// identifier; where none can be drawn the identifier is all zeros. Which identifier and
    /// which time the result holds is not known here: [`FileMetadata::with_id_at`] says what
    /// is made of them.
    pub fn new(name: String, user_metadata: Vec<u8>) -> (metadata: FileMetadata)
        ensures
            exists|id: NetworkName, now: Time|
                metadata@ == Self::spec_with_id_at(id, now, name@, user_metadata@),
    {
        let id = match NetworkName::random() {
            Some(id) => id,
            None => NetworkName::new([0u8; 64]),
        };
        let now = Time::now();
        Self::with_id_at(id, now, name, user_metadata)
    }

    /// Metadata of an empty file with identifier `id` that was created at `now` and not
    /// modified since.
    pub fn with_id_at(id: NetworkName, now: Time, name: String, user_metadata: Vec<u8>) -> (metadata:
        FileMetadata)
        ensures
            metadata@ == Self::spec_with_id_at(id, now, name@, user_metadata@),
    {
        FileMetadata { name, size: 0, created_time: now, modified_time: now, user_metadata, id }
    }

    /// The identifier of the file.
    pub fn get_id(&self) -> (id: &NetworkName)
        ensures
            *id == self@.id,
    {
        &self.id
    }

    /// When the file was created.
    pub fn get_created_time(&self) -> (time: &Time)
        ensures
            *time == self@.created_time,
    {
        &self.created_time
    }

    /// When the file was last modified.
    pub fn get_modified_time(&self) -> (time: &Time)
        ensures
            *time == self@.modified_time,
    {
        &self.modified_time
    }

    /// The name of the file.
    pub fn get_name(&self) -> (name: &String)
        ensures
            name@ == self@.name,
    {
        &self.name
    }

    /// The size of the content in bytes.
    pub fn get_size(&self) -> (size: u64)
        ensures
            size == self@.size,
    {
        self.size
    }

    /// What the user attached to the file.
    pub fn get_user_metadata(&self) -> (user_metadata: &Vec<u8>)
        ensures
            user_metadata@ == self@.user_metadata,
    {
        &self.user_metadata
    }

    /// Gives the file another name. Nothing else changes.
    pub fn set_name(&mut self, name: String)
        ensures
            final(self)@ == (FileMetadataView { name: name@, ..old(self)@ }),
    {
        self.name = name;
    }

    /// Records the size of the content. Nothing else changes.
    pub fn set_size(&mut self, size: u64)
        ensures
            final(self)@ == (FileMetadataView { size, ..old(self)@ }),
    {
        self.size = size;
    }

    /// Records when the file was last modified. Nothing else changes.
    pub fn set_modified_time(&mut self, modified_time: Time)
        ensures
            final(self)@ == (FileMetadataView { modified_time, ..old(self)@ }),
    {
        self.modified_time = modified_time
    }

    /// Attaches other user metadata to the file. Nothing else changes.
    pub fn set_user_metadata(&mut self, user_metadata: Vec<u8>)
        ensures
            final(self)@ == (FileMetadataView { user_metadata: user_metadata@, ..old(self)@ }),
    {
        self.user_metadata = user_metadata;
    }

    /// Whether two records hold the same in every field.
    pub fn equals(&self, other: &FileMetadata) -> (same: bool)
        ensures
            same == (self@ == other@),
    {
        proof {
            lemma_name_view(self.id, other.id);
        }
        self.id.equals(&other.id) && self.name == other.name && self.size == other.size
            && self.created_time == other.created_time && self.modified_time
            == other.modified_time && bytes_equal(&self.user_metadata, &other.user_metadata)
    }

    /// Puts a record together from its stored parts.
    pub(crate) fn from_parts(
        name: String,
        size: u64,
        created_time: Time,
        modified_time: Time,
        user_metadata: Vec<u8>,
        id: NetworkName,
    ) -> (metadata: FileMetadata)
        ensures
            metadata@ == (FileMetadataView {
                name: name@,
                size,
                created_time,
                modified_time,
                user_metadata: user_metadata@,
                id,
            }),
    {
        FileMetadata { name, size, created_time, modified_time, user_metadata, id }
    }
}

} // verus!
