//! A directory as it is held in memory: its own metadata, the metadata of the directories
//! in it, and its files.

use vstd::prelude::*;

use crate::clock::Time;
use crate::errors::NfsError;
use crate::file::File;
use crate::file::FileView;
use crate::metadata::directory_key::DirectoryKey;
use crate::metadata::directory_metadata::DirectoryMetadata;
use crate::metadata::directory_metadata::DirectoryMetadataView;
use crate::name::lemma_name_view;
use crate::name::NetworkName;
use crate::name::Nonce;
use crate::name::NONCE_LEN;
use crate::views::first_position;
use crate::views::lemma_first_is_absent;
use crate::views::lemma_first_is_unique;
use crate::views::lemma_views_push;
use crate::views::lemma_views_remove;
use crate::views::lemma_views_update;
use crate::views::views;
use crate::AccessLevel;

pub mod directory_info;
pub mod laws;
pub mod sealing;

verus! {

/// A directory: its metadata, the metadata of its sub-directories, and its files. Both
/// lists keep the order in which their items were added.
#[derive(Debug, PartialEq, Eq, PartialOrd, Ord)]
pub struct DirectoryListing {
    metadata: DirectoryMetadata,
    sub_directories: Vec<DirectoryMetadata>,
    files: Vec<File>,
}

/// The mathematical value of a [`DirectoryListing`].
pub ghost struct DirectoryListingView {
    pub metadata: DirectoryMetadataView,
    pub sub_directories: Seq<DirectoryMetadataView>,
    pub files: Seq<FileView>,
}

impl View for DirectoryListing {
    type V = DirectoryListingView;

    closed spec fn view(&self) -> DirectoryListingView {
        DirectoryListingView {
            metadata: self.metadata@,
            sub_directories: views(self.sub_directories@),
            files: views(self.files@),
        }
    }
}

/// The names of the files, in the order of the files.
pub open spec fn file_names(files: Seq<FileView>) -> Seq<Seq<char>> {
    files.map_values(|file: FileView| file.metadata.name)
}

/// The identifiers of the files, in the order of the files.
pub open spec fn file_ids(files: Seq<FileView>) -> Seq<NetworkName> {
    files.map_values(|file: FileView| file.metadata.id)
}

/// The names of the directories, in the order of the directories.
pub open spec fn directory_names(directories: Seq<DirectoryMetadataView>) -> Seq<Seq<char>> {
    directories.map_values(|directory: DirectoryMetadataView| directory.name)
}

/// The identifiers of the directories, in the order of the directories.
pub open spec fn directory_ids(directories: Seq<DirectoryMetadataView>) -> Seq<NetworkName> {
    directories.map_values(|directory: DirectoryMetadataView| directory.key.spec_id())
}

impl DirectoryListingView {
    /// The directory without sub-directories and files that has the given metadata.
    pub open spec fn empty(metadata: DirectoryMetadataView) -> DirectoryListingView {
        DirectoryListingView { metadata, sub_directories: Seq::empty(), files: Seq::empty() }
    }

    /// The first file of the given name.
    pub open spec fn find_file(self, name: Seq<char>) -> Option<FileView> {
        match first_position(file_names(self.files), name) {
            Some(i) => Some(self.files[i]),
            None => None,
        }
    }

    /// The first file with the given identifier.
    pub open spec fn find_file_by_id(self, id: NetworkName) -> Option<FileView> {
        match first_position(file_ids(self.files), id) {
            Some(i) => Some(self.files[i]),
            None => None,
        }
    }

    /// The first sub-directory of the given name.
    pub open spec fn find_sub_directory(self, name: Seq<char>) -> Option<DirectoryMetadataView> {
        match first_position(directory_names(self.sub_directories), name) {
            Some(i) => Some(self.sub_directories[i]),
            None => None,
        }
    }

    /// The first sub-directory with the given identifier.
    pub open spec fn find_sub_directory_by_id(self, id: NetworkName) -> Option<
        DirectoryMetadataView,
    > {
        match first_position(directory_ids(self.sub_directories), id) {
            Some(i) => Some(self.sub_directories[i]),
            None => None,
        }
    }

    /// The directory after `file` was put in: in the place of the first file with its
    /// identifier, or behind the last file where none has it. The directory was then last
    /// modified when the file was.
    pub open spec fn upsert_file(self, file: FileView) -> DirectoryListingView {
        DirectoryListingView {
            metadata: DirectoryMetadataView {
                modified_time: file.metadata.modified_time,
                ..self.metadata
            },
            sub_directories: self.sub_directories,
            files: match first_position(file_ids(self.files), file.metadata.id) {
                Some(i) => self.files.update(i, file),
                None => self.files.push(file),
            },
        }
    }

    /// The directory after the metadata of a sub-directory was put in: in the place of the
    /// first one with its identifier, or behind the last where none has it. The directory
    /// was then last modified when the sub-directory was.
    pub open spec fn upsert_sub_directory(
        self,
        directory: DirectoryMetadataView,
    ) -> DirectoryListingView {
        DirectoryListingView {
            metadata: DirectoryMetadataView {
                modified_time: directory.modified_time,
                ..self.metadata
            },
            sub_directories: match first_position(
                directory_ids(self.sub_directories),
                directory.key.spec_id(),
            ) {
                Some(i) => self.sub_directories.update(i, directory),
                None => self.sub_directories.push(directory),
            },
            files: self.files,
        }
    }

    /// The directory without the first file of the given name, where there is one.
    pub open spec fn remove_file(self, name: Seq<char>) -> Option<DirectoryListingView> {
        match first_position(file_names(self.files), name) {
            Some(i) => Some(DirectoryListingView { files: self.files.remove(i), ..self }),
            None => None,
        }
    }

    /// The directory without the first sub-directory of the given name, where there is one.
    pub open spec fn remove_sub_directory(self, name: Seq<char>) -> Option<DirectoryListingView> {
        match first_position(directory_names(self.sub_directories), name) {
            Some(i) => Some(
                DirectoryListingView { sub_directories: self.sub_directories.remove(i), ..self },
            ),
            None => None,
        }
    }

    /// No two files bear one name, and no two sub-directories bear one name.
    pub open spec fn names_are_unique(self) -> bool {
        &&& file_names(self.files).no_duplicates()
        &&& directory_names(self.sub_directories).no_duplicates()
    }

    /// No two files have one identifier, and no two sub-directories have one identifier.
    pub open spec fn ids_are_unique(self) -> bool {
        &&& file_ids(self.files).no_duplicates()
        &&& directory_ids(self.sub_directories).no_duplicates()
    }

    /// The directory was last modified no earlier than it was created, and no earlier than
    /// any of its files and sub-directories was.
    pub open spec fn times_are_in_order(self) -> bool {
        &&& self.metadata.times_in_order()
        &&& forall|i: int|
            0 <= i < self.files.len() ==> self.metadata.modified_time.at_or_after(
                #[trigger] self.files[i].metadata.modified_time,
            )
        &&& forall|i: int|
            0 <= i < self.sub_directories.len() ==> self.metadata.modified_time.at_or_after(
                #[trigger] self.sub_directories[i].modified_time,
            )
    }
}

/// The nonce that belongs to a directory: the first bytes of its identifier.
pub open spec fn spec_nonce(directory_id: NetworkName) -> Seq<u8> {
    directory_id@.subrange(0, NONCE_LEN as int)
}

impl Clone for DirectoryListing {
    fn clone(&self) -> (copy: DirectoryListing)
        ensures
            copy@ == self@,
    {
        let mut sub_directories: Vec<DirectoryMetadata> = Vec::with_capacity(
            self.sub_directories.len(),
        );
        let mut i: usize = 0;
        while i < self.sub_directories.len()
            invariant
                0 <= i <= self.sub_directories.len(),
                views(sub_directories@) == views(self.sub_directories@).subrange(0, i as int),
            decreases self.sub_directories.len() - i,
        {
            let copy = self.sub_directories[i].clone();
            proof {
                lemma_views_push(sub_directories@, copy);
            }
            sub_directories.push(copy);
            assert(views(sub_directories@) =~= views(self.sub_directories@).subrange(0, i + 1));
            i += 1;
        }
        assert(views(sub_directories@) =~= views(self.sub_directories@));
        let mut files: Vec<File> = Vec::with_capacity(self.files.len());
        let mut k: usize = 0;
        while k < self.files.len()
            invariant
                0 <= k <= self.files.len(),
                views(files@) == views(self.files@).subrange(0, k as int),
            decreases self.files.len() - k,
        {
            let copy = self.files[k].clone();
            proof {
                lemma_views_push(files@, copy);
            }
            files.push(copy);
            assert(views(files@) =~= views(self.files@).subrange(0, k + 1));
            k += 1;
        }
        assert(views(files@) =~= views(self.files@));
        DirectoryListing { metadata: self.metadata.clone(), sub_directories, files }
    }
}

impl DirectoryListing {
    /// A new directory without files and sub-directories, with a random identifier, created
    /// and last modified now. Fails with `RandomnessUnavailable` where no identifier could
    /// be drawn, and with nothing else.
    pub fn new(
        name: String,
        tag_type: u64,
        user_metadata: Vec<u8>,
        versioned: bool,
        access_level: AccessLevel,
        parent_dir_key: Option<DirectoryKey>,
    ) -> (made: Result<DirectoryListing, NfsError>)
        ensures
            match made {
                Ok(listing) => exists|id: NetworkName, now: Time|
                    listing@ == DirectoryListingView::empty(
                        DirectoryMetadata::spec_with_id_at(
                            id,
                            now,
                            name@,
                            tag_type,
                            versioned,
                            access_level,
                            user_metadata@,
                            parent_dir_key,
                        ),
                    ),
                Err(error) => error == NfsError::RandomnessUnavailable,
            },
    {
        match DirectoryMetadata::new(
            name,
            tag_type,
            versioned,
            access_level,
            user_metadata,
            parent_dir_key,
        ) {
            Ok(metadata) => Ok(Self::with_metadata(metadata)),
            Err(error) => Err(error),
        }
    }

    /// The directory without files and sub-directories that has the given metadata.
    pub fn with_metadata(metadata: DirectoryMetadata) -> (listing: DirectoryListing)
        ensures
            listing@ == DirectoryListingView::empty(metadata@),
    {
        let listing = DirectoryListing { metadata, sub_directories: Vec::new(), files: Vec::new() };
        assert(listing@.sub_directories =~= Seq::empty());
        assert(listing@.files =~= Seq::empty());
        listing
    }

    /// Puts a directory together from its stored parts.
    pub(crate) fn from_parts(
        metadata: DirectoryMetadata,
        sub_directories: Vec<DirectoryMetadata>,
        files: Vec<File>,
    ) -> (listing: DirectoryListing)
        ensures
            listing@ == (DirectoryListingView {
                metadata: metadata@,
                sub_directories: views(sub_directories@),
                files: views(files@),
            }),
    {
        DirectoryListing { metadata, sub_directories, files }
    }

    /// The key under which the directory is found.
    pub fn get_key(&self) -> (key: &DirectoryKey)
        ensures
            *key == self@.metadata.key,
    {
        self.metadata.get_key()
    }

    /// The metadata of the directory.
    pub fn get_metadata(&self) -> (metadata: &DirectoryMetadata)
        ensures
            metadata@ == self@.metadata,
    {
        &self.metadata
    }

    /// The metadata of the directory, to be changed in place. Files and sub-directories
    /// stay.
    pub fn get_mut_metadata(&mut self) -> (metadata: &mut DirectoryMetadata)
        ensures
            metadata@ == old(self)@.metadata,
            final(self)@ == (DirectoryListingView { metadata: final(metadata)@, ..old(self)@ }),
    {
        &mut self.metadata
    }

    /// The files of the directory, in the order in which they were added.
    pub fn get_files(&self) -> (files: &Vec<File>)
        ensures
            views(files@) == self@.files,
    {
        &self.files
    }

    /// The files of the directory, to be changed in place. Metadata and sub-directories
    /// stay.
    pub fn get_mut_files(&mut self) -> (files: &mut Vec<File>)
        ensures
            views(files@) == old(self)@.files,
            final(self)@ == (DirectoryListingView { files: views(final(files)@), ..old(self)@ }),
    {
        &mut self.files
    }

    /// The metadata of the sub-directories, in the order in which they were added.
    pub fn get_sub_directories(&self) -> (sub_directories: &Vec<DirectoryMetadata>)
        ensures
            views(sub_directories@) == self@.sub_directories,
    {
        &self.sub_directories
    }

    /// The metadata of the sub-directories, to be changed in place. Metadata and files
    /// stay.
    pub fn get_mut_sub_directories(&mut self) -> (sub_directories: &mut Vec<DirectoryMetadata>)
        ensures
            views(sub_directories@) == old(self)@.sub_directories,
            final(self)@ == (DirectoryListingView {
                sub_directories: views(final(sub_directories)@),
                ..old(self)@
            }),
    {
        &mut self.sub_directories
    }

    /// The place of the first file of the given name.
    pub fn file_position(&self, file_name: &String) -> (position: Option<usize>)
        ensures
            match position {
                Some(i) => i < self@.files.len() && first_position(
                    file_names(self@.files),
                    file_name@,
                ) == Some(i as int),
                None => first_position(file_names(self@.files), file_name@) is None,
            },
    {
        let ghost names = file_names(self@.files);
        let mut i: usize = 0;
        while i < self.files.len()
            invariant
                0 <= i <= self.files.len(),
                names == file_names(self@.files),
                names.len() == self.files.len(),
                forall|j: int| 0 <= j < i ==> names[j] != file_name@,
            decreases self.files.len() - i,
        {
            assert(names[i as int] == self.files@[i as int]@.metadata.name);
            if *self.files[i].get_name() == *file_name {
                proof {
                    lemma_first_is_unique(names, file_name@, i as int);
                }
                return Some(i);
            }
            i += 1;
        }
        proof {
            lemma_first_is_absent(names, file_name@);
        }
        None
    }

    /// The place of the first file with the given identifier.
    pub fn file_position_by_id(&self, id: &NetworkName) -> (position: Option<usize>)
        ensures
            match position {
                Some(i) => i < self@.files.len() && first_position(file_ids(self@.files), *id)
                    == Some(i as int),
                None => first_position(file_ids(self@.files), *id) is None,
            },
    {
        let ghost ids = file_ids(self@.files);
        let mut i: usize = 0;
        while i < self.files.len()
            invariant
                0 <= i <= self.files.len(),
                ids == file_ids(self@.files),
                ids.len() == self.files.len(),
                forall|j: int| 0 <= j < i ==> ids[j] != *id,
            decreases self.files.len() - i,
        {
            assert(ids[i as int] == self.files@[i as int]@.metadata.id);
            proof {
                lemma_name_view(ids[i as int], *id);
            }
            if self.files[i].get_id().equals(id) {
                proof {
                    lemma_first_is_unique(ids, *id, i as int);
                }
                return Some(i);
            }
            i += 1;
        }
        proof {
            lemma_first_is_absent(ids, *id);
        }
        None
    }

    /// The place of the first sub-directory of the given name.
    pub fn sub_directory_position(&self, directory_name: &String) -> (position: Option<usize>)
        ensures
            match position {
                Some(i) => i < self@.sub_directories.len() && first_position(
                    directory_names(self@.sub_directories),
                    directory_name@,
                ) == Some(i as int),
                None => first_position(directory_names(self@.sub_directories), directory_name@)
                    is None,
            },
    {
        let ghost names = directory_names(self@.sub_directories);
        let mut i: usize = 0;
        while i < self.sub_directories.len()
            invariant
                0 <= i <= self.sub_directories.len(),
                names == directory_names(self@.sub_directories),
                names.len() == self.sub_directories.len(),
                forall|j: int| 0 <= j < i ==> names[j] != directory_name@,
            decreases self.sub_directories.len() - i,
        {
            assert(names[i as int] == self.sub_directories@[i as int]@.name);
            if *self.sub_directories[i].get_name() == *directory_name {
                proof {
                    lemma_first_is_unique(names, directory_name@, i as int);
                }
                return Some(i);
            }
            i += 1;
        }
        proof {
            lemma_first_is_absent(names, directory_name@);
        }
        None
    }

    /// The place of the first sub-directory with the given identifier.
    pub fn sub_directory_position_by_id(&self, id: &NetworkName) -> (position: Option<usize>)
        ensures
            match position {
                Some(i) => i < self@.sub_directories.len() && first_position(
                    directory_ids(self@.sub_directories),
                    *id,
                ) == Some(i as int),
                None => first_position(directory_ids(self@.sub_directories), *id) is None,
            },
    {
        let ghost ids = directory_ids(self@.sub_directories);
        let mut i: usize = 0;
        while i < self.sub_directories.len()
            invariant
                0 <= i <= self.sub_directories.len(),
                ids == directory_ids(self@.sub_directories),
                ids.len() == self.sub_directories.len(),
                forall|j: int| 0 <= j < i ==> ids[j] != *id,
            decreases self.sub_directories.len() - i,
        {
            assert(ids[i as int] == self.sub_directories@[i as int]@.key.spec_id());
            proof {
                lemma_name_view(ids[i as int], *id);
            }
            if self.sub_directories[i].get_id().equals(id) {
                proof {
                    lemma_first_is_unique(ids, *id, i as int);
                }
                return Some(i);
            }
            i += 1;
        }
        proof {
            lemma_first_is_absent(ids, *id);
        }
        None
    }

    /// The first file of the given name, in the order in which the files were added.
    pub fn find_file(&self, file_name: &String) -> (found: Option<&File>)
        ensures
            match found {
                Some(file) => self@.find_file(file_name@) == Some(file@),
                None => self@.find_file(file_name@) is None,
            },
    {
        match self.file_position(file_name) {
            Some(i) => Some(&self.files[i]),
            None => None,
        }
    }

    /// The first file with the given identifier.
    pub fn find_file_by_id(&self, id: &NetworkName) -> (found: Option<&File>)
        ensures
            match found {
                Some(file) => self@.find_file_by_id(*id) == Some(file@),
                None => self@.find_file_by_id(*id) is None,
            },
    {
        match self.file_position_by_id(id) {
            Some(i) => Some(&self.files[i]),
            None => None,
        }
    }

    /// The metadata of the first sub-directory of the given name, in the order in which
    /// the sub-directories were added.
    pub fn find_sub_directory(&self, directory_name: &String) -> (found: Option<
        &DirectoryMetadata,
    >)
        ensures
            match found {
                Some(directory) => self@.find_sub_directory(directory_name@) == Some(directory@),
                None => self@.find_sub_directory(directory_name@) is None,
            },
    {
        match self.sub_directory_position(directory_name) {
            Some(i) => Some(&self.sub_directories[i]),
            None => None,
        }
    }

    /// The metadata of the first sub-directory with the given identifier.
    pub fn find_sub_directory_by_id(&self, id: &NetworkName) -> (found: Option<
        &DirectoryMetadata,
    >)
        ensures
            match found {
                Some(directory) => self@.find_sub_directory_by_id(*id) == Some(directory@),
                None => self@.find_sub_directory_by_id(*id) is None,
            },
    {
        match self.sub_directory_position_by_id(id) {
            Some(i) => Some(&self.sub_directories[i]),
            None => None,
        }
    }

    /// Puts `file` in the place of the first file with its identifier, or behind the last
    /// file where none has it, and takes the file's time of modification for the directory.
    pub fn upsert_file(&mut self, file: File)
        ensures
            final(self)@ == old(self)@.upsert_file(file@),
    {
        let modified_time = *file.get_metadata().get_modified_time();
        match self.file_position_by_id(file.get_id()) {
            Some(index) => {
                proof {
                    lemma_views_update(self.files@, index as int, file);
                }
                self.files[index] = file;
            },
            None => {
                proof {
                    lemma_views_push(self.files@, file);
                }
                self.files.push(file);
            },
        }
        self.metadata.set_modified_time(modified_time);
    }

    /// Puts the metadata of a sub-directory in the place of the first one with its
    /// identifier, or behind the last where none has it, and takes its time of modification
    /// for the directory.
    pub fn upsert_sub_directory(&mut self, directory_metadata: DirectoryMetadata)
        ensures
            final(self)@ == old(self)@.upsert_sub_directory(directory_metadata@),
    {
        let modified_time = *directory_metadata.get_modified_time();
        match self.sub_directory_position_by_id(directory_metadata.get_id()) {
            Some(index) => {
                proof {
                    lemma_views_update(self.sub_directories@, index as int, directory_metadata);
                }
                self.sub_directories[index] = directory_metadata;
            },
            None => {
                proof {
                    lemma_views_push(self.sub_directories@, directory_metadata);
                }
                self.sub_directories.push(directory_metadata);
            },
        }
        self.metadata.set_modified_time(modified_time);
    }

    /// Takes out the first sub-directory of the given name. Fails with `DirectoryNotFound`
    /// where there is none, and then changes nothing.
    pub fn remove_sub_directory(&mut self, directory_name: &String) -> (removed: Result<
        (),
        NfsError,
    >)
        ensures
            match removed {
                Ok(_) => old(self)@.remove_sub_directory(directory_name@) == Some(final(self)@),
                Err(error) => error == NfsError::DirectoryNotFound && old(
                    self,
                )@.remove_sub_directory(directory_name@) is None && final(self)@ == old(self)@,
            },
    {
        match self.sub_directory_position(directory_name) {
            Some(index) => {
                proof {
                    lemma_views_remove(self.sub_directories@, index as int);
                }
                let _ = self.sub_directories.remove(index);
                Ok(())
            },
            None => Err(NfsError::DirectoryNotFound),
        }
    }

    /// Takes out the first file of the given name. Fails with `FileNotFound` where there
    /// is none, and then changes nothing.
    pub fn remove_file(&mut self, file_name: &String) -> (removed: Result<(), NfsError>)
        ensures
            match removed {
                Ok(_) => old(self)@.remove_file(file_name@) == Some(final(self)@),
                Err(error) => error == NfsError::FileNotFound && old(self)@.remove_file(
                    file_name@,
                ) is None && final(self)@ == old(self)@,
            },
    {
        match self.file_position(file_name) {
            Some(index) => {
                proof {
                    lemma_views_remove(self.files@, index as int);
                }
                let _ = self.files.remove(index);
                Ok(())
            },
            None => Err(NfsError::FileNotFound),
        }
    }

    /// The nonce that belongs to a directory: the first bytes of its identifier, as many
    /// as a nonce has.
    pub fn generate_nonce(directory_id: &NetworkName) -> (nonce: Nonce)
        ensures
            nonce@ == spec_nonce(*directory_id),
    {
        let mut nonce = [0u8; 24];
        let id = directory_id.get_bytes();
        let mut i: usize = 0;
        while i < 24
            invariant
                0 <= i <= 24,
                id@ == directory_id@,
                id@.len() == 64,
                forall|j: int| 0 <= j < i ==> nonce@[j] == id@[j],
            decreases 24 - i,
        {
            nonce[i] = id[i];
            i += 1;
        }
        assert(nonce@ =~= spec_nonce(*directory_id));
        Nonce(nonce)
    }
}

} // verus!
