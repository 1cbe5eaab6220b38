//! A file: what is recorded about it, and the map to its content.

use vstd::prelude::*;

use crate::data_map::DataMap;
use crate::data_map::DataMapView;
use crate::metadata::file_metadata::FileMetadata;
use crate::metadata::file_metadata::FileMetadataView;
use crate::name::NetworkName;

verus! {

/// A file as a directory holds it: its metadata and the data map of its content.
#[derive(Debug, PartialEq, Eq, PartialOrd, Ord)]
pub struct File {
    metadata: FileMetadata,
    datamap: DataMap,
}

/// The mathematical value of a [`File`].
pub ghost struct FileView {
    pub metadata: FileMetadataView,
    pub datamap: DataMapView,
}

impl View for File {
    type V = FileView;

    closed spec fn view(&self) -> FileView {
        FileView { metadata: self.metadata@, datamap: self.datamap@ }
    }
}

impl Clone for File {
    fn clone(&self) -> (copy: File)
        ensures
            copy@ == self@,
    {
        File { metadata: self.metadata.clone(), datamap: self.datamap.clone() }
    }
}

impl File {
    /// The file with the given metadata and data map.
    pub fn new(metadata: FileMetadata, datamap: DataMap) -> (file: File)
        ensures
            file@ == (FileView { metadata: metadata@, datamap: datamap@ }),
    {
        File { metadata, datamap }
    }

    /// The name of the file.
    pub fn get_name(&self) -> (name: &String)
        ensures
            name@ == self@.metadata.name,
    {
        self.metadata.get_name()
    }

    /// The identifier of the file.
    pub fn get_id(&self) -> (id: &NetworkName)
        ensures
            *id == self@.metadata.id,
    {
        self.metadata.get_id()
    }

    /// What is recorded about the file.
    pub fn get_metadata(&self) -> (metadata: &FileMetadata)
        ensures
            metadata@ == self@.metadata,
    {
        &self.metadata
    }

    /// What is recorded about the file, to be changed in place. The data map stays.
    pub fn get_mut_metadata(&mut self) -> (metadata: &mut FileMetadata)
        ensures
            metadata@ == old(self)@.metadata,
            final(self)@ == (FileView { metadata: final(metadata)@, datamap: old(self)@.datamap }),
    {
        &mut self.metadata
    }

    /// The data map of the content.
    pub fn get_datamap(&self) -> (datamap: &DataMap)
        ensures
            datamap@ == self@.datamap,
    {
        &self.datamap
    }

    /// Puts another data map in place. The metadata stays.
    pub fn set_datamap(&mut self, datamap: DataMap)
        ensures
            final(self)@ == (FileView { metadata: old(self)@.metadata, datamap: datamap@ }),
    {
        self.datamap = datamap;
    }

    /// Whether two files hold the same metadata and the same data map.
    pub fn equals(&self, other: &File) -> (same: bool)
        ensures
            same == (self@ == other@),
    {
        self.metadata.equals(&other.metadata) && self.datamap.equals(&other.datamap)
    }
}

} // verus!
