//! What is recorded about a directory and about a file, apart from their content.

pub mod directory_key;
pub mod directory_metadata;
pub mod file_metadata;
