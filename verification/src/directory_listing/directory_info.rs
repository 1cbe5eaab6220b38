//! What a directory says about one of the directories in it.

use vstd::prelude::*;

use crate::codec::Wire;
use crate::metadata::directory_key::DirectoryKey;
use crate::metadata::directory_metadata::DirectoryMetadata;
use crate::metadata::directory_metadata::DirectoryMetadataView;

verus! {

/// The entry of a directory in the directory that holds it: its metadata, which carries
/// the key under which the directory itself is found.
#[derive(Debug, PartialEq, Eq, PartialOrd, Ord)]
pub struct DirectoryInfo {
    metadata: DirectoryMetadata,
}

impl View for DirectoryInfo {
    type V = DirectoryMetadataView;

    closed spec fn view(&self) -> DirectoryMetadataView {
        self.metadata@
    }
}

impl Clone for DirectoryInfo {
    fn clone(&self) -> (copy: DirectoryInfo)
        ensures
            copy@ == self@,
    {
        DirectoryInfo { metadata: self.metadata.clone() }
    }
}

impl DirectoryInfo {
    /// The entry of the directory with the given metadata.
    pub fn new(metadata: DirectoryMetadata) -> (info: DirectoryInfo)
        ensures
            info@ == metadata@,
    {
        DirectoryInfo { metadata }
    }

    /// The key under which the directory is found.
    pub fn get_key(&self) -> (key: &DirectoryKey)
        ensures
            *key == self@.key,
    {
        self.metadata.get_key()
    }

    /// The metadata of the directory.
    pub fn get_metadata(&self) -> (metadata: &DirectoryMetadata)
        ensures
            metadata@ == self@,
    {
        &self.metadata
    }

    /// The metadata of the directory, to be changed in place.
    pub fn get_mut_metadata(&mut self) -> (metadata: &mut DirectoryMetadata)
        ensures
            metadata@ == old(self)@,
            final(self)@ == final(metadata)@,
    {
        &mut self.metadata
    }

    /// The name of the directory.
    pub fn get_name(&self) -> (name: &String)
        ensures
            name@ == self@.name,
    {
        self.metadata.get_name()
    }

}

impl Wire for DirectoryInfo {
    open spec fn fits(value: DirectoryMetadataView) -> bool {
        DirectoryMetadata::fits(value)
    }

    /// An entry is written as the metadata that it holds.
    open spec fn wire(value: DirectoryMetadataView) -> Seq<u8> {
        DirectoryMetadata::wire(value)
    }

    open spec fn parse(bytes: Seq<u8>) -> Option<(DirectoryMetadataView, Seq<u8>)> {
        DirectoryMetadata::parse(bytes)
    }

    proof fn lemma_round_trip(value: DirectoryMetadataView, rest: Seq<u8>) {
        DirectoryMetadata::lemma_round_trip(value, rest);
    }

    fn write(&self, out: &mut Vec<u8>) {
        self.metadata.write(out);
    }

    fn read(data: &Vec<u8>, at: usize) -> (read: Option<(DirectoryInfo, usize)>) {
        match DirectoryMetadata::read(data, at) {
            Some((metadata, next)) => Some((DirectoryInfo { metadata }, next)),
            None => None,
        }
    }
}

} // verus!
