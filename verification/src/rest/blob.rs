//! A blob: a file as an application sees it.

use vstd::prelude::*;
use vstd::utf8::decode_utf8;
use vstd::utf8::valid_utf8;

use crate::bytes::copy_bytes;
use crate::clock::Time;
use crate::codec::primitives::text_from_utf8;
use crate::file::File;
use crate::file::FileView;

verus! {

/// The text that user metadata stands for: the text whose UTF-8 form it is, and the empty
/// text where it is no UTF-8.
pub open spec fn spec_metadata_text(user_metadata: Seq<u8>) -> Seq<char> {
    if valid_utf8(user_metadata) {
        decode_utf8(user_metadata)
    } else {
        Seq::empty()
    }
}

/// The text that user metadata stands for: the text whose UTF-8 form it is, and the empty
/// text where it is no UTF-8.
pub fn metadata_text(user_metadata: &Vec<u8>) -> (text: String)
    ensures
        text@ == spec_metadata_text(user_metadata@),
{
    match text_from_utf8(copy_bytes(user_metadata)) {
        Some(text) => text,
        None => String::new(),
    }
}

/// A file of any kind, named and with metadata.
#[derive(Debug, PartialEq, Eq)]
pub struct Blob {
    file: File,
}

impl View for Blob {
    type V = FileView;

    closed spec fn view(&self) -> FileView {
        self.file@
    }
}

impl Clone for Blob {
    fn clone(&self) -> (copy: Blob)
        ensures
            copy@ == self@,
    {
        Blob { file: self.file.clone() }
    }
}

impl Blob {
    /// The name of the blob.
    pub fn get_name(&self) -> (name: &String)
        ensures
            name@ == self@.metadata.name,
    {
        self.file.get_metadata().get_name()
    }

    /// The user metadata of the blob as text; empty where it is no text.
    pub fn get_metadata(&self) -> (text: String)
        ensures
            text@ == spec_metadata_text(self@.metadata.user_metadata),
    {
        metadata_text(self.file.get_metadata().get_user_metadata())
    }

    /// When the blob was created.
    pub fn get_created_time(&self) -> (time: &Time)
        ensures
            *time == self@.metadata.created_time,
    {
        self.file.get_metadata().get_created_time()
    }

    /// When the blob was last modified.
    pub fn get_modified_time(&self) -> (time: &Time)
        ensures
            *time == self@.metadata.modified_time,
    {
        self.file.get_metadata().get_modified_time()
    }

    /// The size of the blob in bytes.
    pub fn get_size(&self) -> (size: u64)
        ensures
            size == self@.metadata.size,
    {
        self.file.get_metadata().get_size()
    }

    /// The file that the blob is.
    pub fn convert_to_file(&self) -> (file: &File)
        ensures
            file@ == self@,
    {
        &self.file
    }

    /// The file that the blob is, to be changed in place.
    pub fn convert_to_mut_file(&mut self) -> (file: &mut File)
        ensures
            file@ == old(self)@,
            final(self)@ == final(file)@,
    {
        &mut self.file
    }

    /// The blob that the file is.
    pub fn convert_from_file(file: File) -> (blob: Blob)
        ensures
            blob@ == file@,
    {
        Blob { file }
    }

    /// The file out of the blob.
    pub fn into_file(self) -> (file: File)
        ensures
            file@ == self@,
    {
        self.file
    }
}

} // verus!
