//! The byte forms of chunk records, data maps, metadata, files and directories.

use vstd::prelude::*;
use vstd::utf8::encode_utf8;

use crate::codec::lemma_list_round_trip;
use crate::codec::list_fits;
use crate::codec::parse_list;
use crate::codec::primitives::lemma_bytes_round_trip;
use crate::codec::primitives::lemma_key_round_trip;
use crate::codec::primitives::lemma_name_round_trip;
use crate::codec::primitives::lemma_optional_key_round_trip;
use crate::codec::primitives::lemma_text_round_trip;
use crate::codec::primitives::lemma_time_round_trip;
use crate::codec::primitives::lemma_u32_round_trip;
use crate::codec::primitives::lemma_u64_round_trip;
use crate::codec::primitives::parse_bytes;
use crate::codec::primitives::parse_key;
use crate::codec::primitives::parse_name;
use crate::codec::primitives::parse_optional_key;
use crate::codec::primitives::parse_text;
use crate::codec::primitives::parse_time;
use crate::codec::primitives::parse_u32;
use crate::codec::primitives::parse_u64;
use crate::codec::primitives::read_bytes;
use crate::codec::primitives::read_key;
use crate::codec::primitives::read_name;
use crate::codec::primitives::read_optional_key;
use crate::codec::primitives::read_text;
use crate::codec::primitives::read_time;
use crate::codec::primitives::read_u32;
use crate::codec::primitives::read_u64;
use crate::codec::primitives::wire_bytes;
use crate::codec::primitives::wire_key;
use crate::codec::primitives::wire_name;
use crate::codec::primitives::wire_optional_key;
use crate::codec::primitives::wire_text;
use crate::codec::primitives::wire_time;
use crate::codec::primitives::wire_u32;
use crate::codec::primitives::wire_u64;
use crate::codec::primitives::write_bytes;
use crate::codec::primitives::write_key;
use crate::codec::primitives::write_name;
use crate::codec::primitives::write_optional_key;
use crate::codec::primitives::write_text;
use crate::codec::primitives::write_time;
use crate::codec::primitives::write_u32;
use crate::codec::primitives::write_u64;
use crate::codec::read_list;
use crate::codec::wire_list;
use crate::codec::write_list;
use crate::codec::Wire;
use crate::data_map::ChunkDetails;
use crate::data_map::ChunkDetailsView;
use crate::data_map::DataMap;
use crate::data_map::DataMapView;
use crate::directory_listing::DirectoryListing;
use crate::directory_listing::DirectoryListingView;
use crate::file::File;
use crate::file::FileView;
use crate::metadata::directory_metadata::DirectoryMetadata;
use crate::metadata::directory_metadata::DirectoryMetadataView;
use crate::metadata::file_metadata::FileMetadata;
use crate::metadata::file_metadata::FileMetadataView;

verus! {

impl Wire for ChunkDetails {
    open spec fn fits(value: ChunkDetailsView) -> bool {
        value.hash.len() <= u64::MAX && value.pre_hash.len() <= u64::MAX
    }

    /// A chunk record is written as its number, its two hashes, and its size.
    open spec fn wire(value: ChunkDetailsView) -> Seq<u8> {
        wire_u32(value.chunk_num) + wire_bytes(value.hash) + wire_bytes(value.pre_hash) + wire_u64(
            value.source_size,
        )
    }

    open spec fn parse(bytes: Seq<u8>) -> Option<(ChunkDetailsView, Seq<u8>)> {
        match parse_u32(bytes) {
            Some((chunk_num, rest)) => match parse_bytes(rest) {
                Some((hash, rest)) => match parse_bytes(rest) {
                    Some((pre_hash, rest)) => match parse_u64(rest) {
                        Some((source_size, rest)) => Some(
                            (ChunkDetailsView { chunk_num, hash, pre_hash, source_size }, rest),
                        ),
                        None => None,
                    },
                    None => None,
                },
                None => None,
            },
            None => None,
        }
    }

    proof fn lemma_round_trip(value: ChunkDetailsView, rest: Seq<u8>) {
        let a = wire_u32(value.chunk_num);
        let b = wire_bytes(value.hash);
        let c = wire_bytes(value.pre_hash);
        let d = wire_u64(value.source_size);
        lemma_u32_round_trip(value.chunk_num, b + c + d + rest);
        lemma_bytes_round_trip(value.hash, c + d + rest);
        lemma_bytes_round_trip(value.pre_hash, d + rest);
        lemma_u64_round_trip(value.source_size, rest);
        assert(Self::wire(value) + rest =~= a + (b + c + d + rest));
        assert(b + c + d + rest =~= b + (c + d + rest));
        assert(c + d + rest =~= c + (d + rest));
    }

    fn write(&self, out: &mut Vec<u8>) {
        write_u32(self.chunk_num, out);
        write_bytes(self.hash.as_slice(), out);
        write_bytes(self.pre_hash.as_slice(), out);
        write_u64(self.source_size, out);
        assert(out@ =~= old(out)@ + Self::wire(self@));
    }

    fn read(data: &Vec<u8>, at: usize) -> (read: Option<(ChunkDetails, usize)>) {
        let (chunk_num, next) = match read_u32(data, at) {
            Some(read) => read,
            None => { return None; },
        };
        let (hash, next) = match read_bytes(data, next) {
            Some(read) => read,
            None => { return None; },
        };
        let (pre_hash, next) = match read_bytes(data, next) {
            Some(read) => read,
            None => { return None; },
        };
        let (source_size, next) = match read_u64(data, next) {
            Some(read) => read,
            None => { return None; },
        };
        Some((ChunkDetails { chunk_num, hash, pre_hash, source_size }, next))
    }
}

impl Wire for DataMap {
    open spec fn fits(value: DataMapView) -> bool {
        match value {
            DataMapView::Chunks(chunks) => list_fits::<ChunkDetails>(chunks),
            DataMapView::Content(content) => content.len() <= u64::MAX,
            DataMapView::Empty => true,
        }
    }

    /// A data map is written as the number of its kind, and then the list of its chunk
    /// records or its content.
    open spec fn wire(value: DataMapView) -> Seq<u8> {
        match value {
            DataMapView::Chunks(chunks) => wire_u64(0) + wire_list::<ChunkDetails>(chunks),
            DataMapView::Content(content) => wire_u64(1) + wire_bytes(content),
            DataMapView::Empty => wire_u64(2),
        }
    }

    open spec fn parse(bytes: Seq<u8>) -> Option<(DataMapView, Seq<u8>)> {
        match parse_u64(bytes) {
            Some((kind, rest)) => if kind == 0 {
                match parse_list::<ChunkDetails>(rest) {
                    Some((chunks, rest)) => Some((DataMapView::Chunks(chunks), rest)),
                    None => None,
                }
            } else if kind == 1 {
                match parse_bytes(rest) {
                    Some((content, rest)) => Some((DataMapView::Content(content), rest)),
                    None => None,
                }
            } else if kind == 2 {
                Some((DataMapView::Empty, rest))
            } else {
                None
            },
            None => None,
        }
    }

    proof fn lemma_round_trip(value: DataMapView, rest: Seq<u8>) {
        match value {
            DataMapView::Chunks(chunks) => {
                lemma_u64_round_trip(0, wire_list::<ChunkDetails>(chunks) + rest);
                lemma_list_round_trip::<ChunkDetails>(chunks, rest);
                assert(Self::wire(value) + rest =~= wire_u64(0) + (wire_list::<ChunkDetails>(
                    chunks,
                ) + rest));
            },
            DataMapView::Content(content) => {
                lemma_u64_round_trip(1, wire_bytes(content) + rest);
                lemma_bytes_round_trip(content, rest);
                assert(Self::wire(value) + rest =~= wire_u64(1) + (wire_bytes(content) + rest));
            },
            DataMapView::Empty => {
                lemma_u64_round_trip(2, rest);
            },
        }
    }

    fn write(&self, out: &mut Vec<u8>) {
        match self {
            DataMap::Chunks(chunks) => {
                write_u64(0, out);
                write_list::<ChunkDetails>(chunks, out);
                assert(out@ =~= old(out)@ + Self::wire(self@));
            },
            DataMap::Content(content) => {
                write_u64(1, out);
                write_bytes(content.as_slice(), out);
                assert(out@ =~= old(out)@ + Self::wire(self@));
            },
            DataMap::Empty => {
                write_u64(2, out);
            },
        }
    }

    fn read(data: &Vec<u8>, at: usize) -> (read: Option<(DataMap, usize)>) {
        let (kind, next) = match read_u64(data, at) {
            Some(read) => read,
            None => { return None; },
        };
        if kind == 0 {
            match read_list::<ChunkDetails>(data, next) {
                Some((chunks, next)) => Some((DataMap::Chunks(chunks), next)),
                None => None,
            }
        } else if kind == 1 {
            match read_bytes(data, next) {
                Some((content, next)) => Some((DataMap::Content(content), next)),
                None => None,
            }
        } else if kind == 2 {
            Some((DataMap::Empty, next))
        } else {
            None
        }
    }
}

impl Wire for FileMetadata {
    open spec fn fits(value: FileMetadataView) -> bool {
        encode_utf8(value.name).len() <= u64::MAX && value.user_metadata.len() <= u64::MAX
    }

    /// File metadata is written as the name, the size, the user metadata, the time of
    /// creation, the time of modification, and the identifier.
    open spec fn wire(value: FileMetadataView) -> Seq<u8> {
        wire_text(value.name) + wire_u64(value.size) + wire_bytes(value.user_metadata) + wire_time(
            value.created_time,
        ) + wire_time(value.modified_time) + wire_name(value.id)
    }

    open spec fn parse(bytes: Seq<u8>) -> Option<(FileMetadataView, Seq<u8>)> {
        match parse_text(bytes) {
            Some((name, rest)) => match parse_u64(rest) {
                Some((size, rest)) => match parse_bytes(rest) {
                    Some((user_metadata, rest)) => match parse_time(rest) {
                        Some((created_time, rest)) => match parse_time(rest) {
                            Some((modified_time, rest)) => match parse_name(rest) {
                                Some((id, rest)) => Some(
                                    (
                                        FileMetadataView {
                                            name,
                                            size,
                                            created_time,
                                            modified_time,
                                            user_metadata,
                                            id,
                                        },
                                        rest,
                                    ),
                                ),
                                None => None,
                            },
                            None => None,
                        },
                        None => None,
                    },
                    None => None,
                },
                None => None,
            },
            None => None,
        }
    }

    proof fn lemma_round_trip(value: FileMetadataView, rest: Seq<u8>) {
        let a = wire_text(value.name);
        let b = wire_u64(value.size);
        let c = wire_bytes(value.user_metadata);
        let d = wire_time(value.created_time);
        let e = wire_time(value.modified_time);
        let f = wire_name(value.id);
        lemma_text_round_trip(value.name, b + c + d + e + f + rest);
        lemma_u64_round_trip(value.size, c + d + e + f + rest);
        lemma_bytes_round_trip(value.user_metadata, d + e + f + rest);
        lemma_time_round_trip(value.created_time, e + f + rest);
        lemma_time_round_trip(value.modified_time, f + rest);
        lemma_name_round_trip(value.id, rest);
        assert(Self::wire(value) + rest =~= a + (b + c + d + e + f + rest));
        assert(b + c + d + e + f + rest =~= b + (c + d + e + f + rest));
        assert(c + d + e + f + rest =~= c + (d + e + f + rest));
        assert(d + e + f + rest =~= d + (e + f + rest));
        assert(e + f + rest =~= e + (f + rest));
    }

    fn write(&self, out: &mut Vec<u8>) {
        write_text(self.get_name(), out);
        write_u64(self.get_size(), out);
        write_bytes(self.get_user_metadata().as_slice(), out);
        write_time(self.get_created_time(), out);
        write_time(self.get_modified_time(), out);
        write_name(self.get_id(), out);
        assert(out@ =~= old(out)@ + Self::wire(self@));
    }

    fn read(data: &Vec<u8>, at: usize) -> (read: Option<(FileMetadata, usize)>) {
        let (name, next) = match read_text(data, at) {
            Some(read) => read,
            None => { return None; },
        };
        let (size, next) = match read_u64(data, next) {
            Some(read) => read,
            None => { return None; },
        };
        let (user_metadata, next) = match read_bytes(data, next) {
            Some(read) => read,
            None => { return None; },
        };
        let (created_time, next) = match read_time(data, next) {
            Some(read) => read,
            None => { return None; },
        };
        let (modified_time, next) = match read_time(data, next) {
            Some(read) => read,
            None => { return None; },
        };
        let (id, next) = match read_name(data, next) {
            Some(read) => read,
            None => { return None; },
        };
        Some(
            (
                FileMetadata::from_parts(name, size, created_time, modified_time, user_metadata, id),
                next,
            ),
        )
    }
}

impl Wire for File {
    open spec fn fits(value: FileView) -> bool {
        FileMetadata::fits(value.metadata) && DataMap::fits(value.datamap)
    }

    /// A file is written as its metadata and then its data map.
    open spec fn wire(value: FileView) -> Seq<u8> {
        FileMetadata::wire(value.metadata) + DataMap::wire(value.datamap)
    }

    open spec fn parse(bytes: Seq<u8>) -> Option<(FileView, Seq<u8>)> {
        match FileMetadata::parse(bytes) {
            Some((metadata, rest)) => match DataMap::parse(rest) {
                Some((datamap, rest)) => Some((FileView { metadata, datamap }, rest)),
                None => None,
            },
            None => None,
        }
    }

    proof fn lemma_round_trip(value: FileView, rest: Seq<u8>) {
        FileMetadata::lemma_round_trip(value.metadata, DataMap::wire(value.datamap) + rest);
        DataMap::lemma_round_trip(value.datamap, rest);
        assert(Self::wire(value) + rest =~= FileMetadata::wire(value.metadata) + (DataMap::wire(
            value.datamap,
        ) + rest));
    }

    fn write(&self, out: &mut Vec<u8>) {
        self.get_metadata().write(out);
        self.get_datamap().write(out);
        assert(out@ =~= old(out)@ + Self::wire(self@));
    }

    fn read(data: &Vec<u8>, at: usize) -> (read: Option<(File, usize)>) {
        let (metadata, next) = match FileMetadata::read(data, at) {
            Some(read) => read,
            None => { return None; },
        };
        let (datamap, next) = match DataMap::read(data, next) {
            Some(read) => read,
            None => { return None; },
        };
        Some((File::new(metadata, datamap), next))
    }
}

impl Wire for DirectoryMetadata {
    open spec fn fits(value: DirectoryMetadataView) -> bool {
        encode_utf8(value.name).len() <= u64::MAX && value.user_metadata.len() <= u64::MAX
    }

    /// Directory metadata is written as the key, the name, the time of creation, the time
    /// of modification, the user metadata, and the key of the parent where there is one.
    open spec fn wire(value: DirectoryMetadataView) -> Seq<u8> {
        wire_key(value.key) + wire_text(value.name) + wire_time(value.created_time) + wire_time(
            value.modified_time,
        ) + wire_bytes(value.user_metadata) + wire_optional_key(value.parent_dir_key)
    }

    open spec fn parse(bytes: Seq<u8>) -> Option<(DirectoryMetadataView, Seq<u8>)> {
        match parse_key(bytes) {
            Some((key, rest)) => match parse_text(rest) {
                Some((name, rest)) => match parse_time(rest) {
                    Some((created_time, rest)) => match parse_time(rest) {
                        Some((modified_time, rest)) => match parse_bytes(rest) {
                            Some((user_metadata, rest)) => match parse_optional_key(rest) {
                                Some((parent_dir_key, rest)) => Some(
                                    (
                                        DirectoryMetadataView {
                                            key,
                                            name,
                                            created_time,
                                            modified_time,
                                            user_metadata,
                                            parent_dir_key,
                                        },
                                        rest,
                                    ),
                                ),
                                None => None,
                            },
                            None => None,
                        },
                        None => None,
                    },
                    None => None,
                },
                None => None,
            },
            None => None,
        }
    }

    proof fn lemma_round_trip(value: DirectoryMetadataView, rest: Seq<u8>) {
        let a = wire_key(value.key);
        let b = wire_text(value.name);
        let c = wire_time(value.created_time);
        let d = wire_time(value.modified_time);
        let e = wire_bytes(value.user_metadata);
        let f = wire_optional_key(value.parent_dir_key);
        lemma_key_round_trip(value.key, b + c + d + e + f + rest);
        lemma_text_round_trip(value.name, c + d + e + f + rest);
        lemma_time_round_trip(value.created_time, d + e + f + rest);
        lemma_time_round_trip(value.modified_time, e + f + rest);
        lemma_bytes_round_trip(value.user_metadata, f + rest);
        lemma_optional_key_round_trip(value.parent_dir_key, rest);
        assert(Self::wire(value) + rest =~= a + (b + c + d + e + f + rest));
        assert(b + c + d + e + f + rest =~= b + (c + d + e + f + rest));
        assert(c + d + e + f + rest =~= c + (d + e + f + rest));
        assert(d + e + f + rest =~= d + (e + f + rest));
        assert(e + f + rest =~= e + (f + rest));
    }

    fn write(&self, out: &mut Vec<u8>) {
        write_key(self.get_key(), out);
        write_text(self.get_name(), out);
        write_time(self.get_created_time(), out);
        write_time(self.get_modified_time(), out);
        write_bytes(self.get_user_metadata().as_slice(), out);
        write_optional_key(self.get_parent_dir_key(), out);
        assert(out@ =~= old(out)@ + Self::wire(self@));
    }

    fn read(data: &Vec<u8>, at: usize) -> (read: Option<(DirectoryMetadata, usize)>) {
        let (key, next) = match read_key(data, at) {
            Some(read) => read,
            None => { return None; },
        };
        let (name, next) = match read_text(data, next) {
            Some(read) => read,
            None => { return None; },
        };
        let (created_time, next) = match read_time(data, next) {
            Some(read) => read,
            None => { return None; },
        };
        let (modified_time, next) = match read_time(data, next) {
            Some(read) => read,
            None => { return None; },
        };
        let (user_metadata, next) = match read_bytes(data, next) {
            Some(read) => read,
            None => { return None; },
        };
        let (parent_dir_key, next) = match read_optional_key(data, next) {
            Some(read) => read,
            None => { return None; },
        };
        Some(
            (
                DirectoryMetadata::from_parts(
                    key,
                    name,
                    created_time,
                    modified_time,
                    user_metadata,
                    parent_dir_key,
                ),
                next,
            ),
        )
    }
}

impl Wire for DirectoryListing {
    open spec fn fits(value: DirectoryListingView) -> bool {
        &&& DirectoryMetadata::fits(value.metadata)
        &&& list_fits::<DirectoryMetadata>(value.sub_directories)
        &&& list_fits::<File>(value.files)
    }

    /// A directory is written as its metadata, the list of the metadata of its
    /// sub-directories, and the list of its files.
    open spec fn wire(value: DirectoryListingView) -> Seq<u8> {
        DirectoryMetadata::wire(value.metadata) + wire_list::<DirectoryMetadata>(
            value.sub_directories,
        ) + wire_list::<File>(value.files)
    }

    open spec fn parse(bytes: Seq<u8>) -> Option<(DirectoryListingView, Seq<u8>)> {
        match DirectoryMetadata::parse(bytes) {
            Some((metadata, rest)) => match parse_list::<DirectoryMetadata>(rest) {
                Some((sub_directories, rest)) => match parse_list::<File>(rest) {
                    Some((files, rest)) => Some(
                        (DirectoryListingView { metadata, sub_directories, files }, rest),
                    ),
                    None => None,
                },
                None => None,
            },
            None => None,
        }
    }

    proof fn lemma_round_trip(value: DirectoryListingView, rest: Seq<u8>) {
        let a = DirectoryMetadata::wire(value.metadata);
        let b = wire_list::<DirectoryMetadata>(value.sub_directories);
        let c = wire_list::<File>(value.files);
        DirectoryMetadata::lemma_round_trip(value.metadata, b + c + rest);
        lemma_list_round_trip::<DirectoryMetadata>(value.sub_directories, c + rest);
        lemma_list_round_trip::<File>(value.files, rest);
        assert(Self::wire(value) + rest =~= a + (b + c + rest));
        assert(b + c + rest =~= b + (c + rest));
    }

    fn write(&self, out: &mut Vec<u8>) {
        self.get_metadata().write(out);
        write_list::<DirectoryMetadata>(self.get_sub_directories(), out);
        write_list::<File>(self.get_files(), out);
        assert(out@ =~= old(out)@ + Self::wire(self@));
    }

    fn read(data: &Vec<u8>, at: usize) -> (read: Option<(DirectoryListing, usize)>) {
        let (metadata, next) = match DirectoryMetadata::read(data, at) {
            Some(read) => read,
            None => { return None; },
        };
        let (sub_directories, next) = match read_list::<DirectoryMetadata>(data, next) {
            Some(read) => read,
            None => { return None; },
        };
        let (files, next) = match read_list::<File>(data, next) {
            Some(read) => read,
            None => { return None; },
        };
        Some((DirectoryListing::from_parts(metadata, sub_directories, files), next))
    }
}

} // verus!
