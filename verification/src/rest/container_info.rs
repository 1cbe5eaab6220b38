//! What is known of a container without fetching it.

use vstd::prelude::*;

use crate::clock::Time;
use crate::directory_listing::directory_info::DirectoryInfo;
use crate::metadata::directory_metadata::DirectoryMetadataView;

verus! {

/// The entry of a container in the container that holds it. It is what a container is
/// fetched by.
#[derive(Debug, PartialEq, Eq)]
pub struct ContainerInfo {
    info: DirectoryInfo,
}

impl View for ContainerInfo {
    type V = DirectoryMetadataView;

    closed spec fn view(&self) -> DirectoryMetadataView {
        self.info@
    }
}

impl Clone for ContainerInfo {
    fn clone(&self) -> (copy: ContainerInfo)
        ensures
            copy@ == self@,
    {
        ContainerInfo { info: self.info.clone() }
    }
}

impl ContainerInfo {
    /// The bytes of the identifier of the container, and its tag.
    pub fn get_key(&self) -> (key: ([u8; 64], u64))
        ensures
            key.0@ == self@.key.spec_id()@,
            key.1 == self@.key.spec_type_tag(),
    {
        (*self.info.get_key().get_id().get_bytes(), self.info.get_key().get_type_tag())
    }

    /// The name of the container.
    pub fn get_name(&self) -> (name: &String)
        ensures
            name@ == self@.name,
    {
        self.info.get_metadata().get_name()
    }

    /// When the container was created.
    pub fn get_created_time(&self) -> (time: &Time)
        ensures
            *time == self@.created_time,
    {
        self.info.get_metadata().get_created_time()
    }

    /// The entry of the directory that the container is.
    pub fn convert_to_directory_info(&self) -> (info: DirectoryInfo)
        ensures
            info@ == self@,
    {
        self.info.clone()
    }

    /// The entry of the container that the directory is.
    pub fn convert_from_directory_info(info: DirectoryInfo) -> (container: ContainerInfo)
        ensures
            container@ == info@,
    {
        ContainerInfo { info }
    }
}

} // verus!
