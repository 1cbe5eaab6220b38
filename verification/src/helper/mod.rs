//! The operations on directories and files that go through the network.

pub mod directory_helper;
pub mod file_helper;
pub mod reader;
pub mod writer;
pub mod roots;
pub mod storage;
