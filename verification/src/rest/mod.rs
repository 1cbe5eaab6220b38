//! Containers and blobs: directories and files as an application sees them.

pub mod blob;
pub mod container;
pub mod container_info;
