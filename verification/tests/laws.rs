//! What holds of the library in general, on chosen values; and its formulas, exactly.

use safe_nfs::clock::Time;
use safe_nfs::codec::deserialise;
use safe_nfs::codec::serialise;
use safe_nfs::data_map::ChunkDetails;
use safe_nfs::data_map::DataMap;
use safe_nfs::directory_listing::DirectoryListing;
use safe_nfs::errors::NfsError;
use safe_nfs::errors::NFS_ERROR_START_RANGE;
use safe_nfs::exchange::Reply;
use safe_nfs::exchange::Request;
use safe_nfs::file::File;
use safe_nfs::helper::directory_helper::new_directory;
use safe_nfs::helper::directory_helper::DirectoryHelper;
use safe_nfs::helper::directory_helper::Seed;
use safe_nfs::helper::file_helper::FileHelper;
use safe_nfs::helper::reader::Reader;
use safe_nfs::helper::storage::Fetch;
use safe_nfs::helper::writer::Writer;
use safe_nfs::metadata::directory_key::DirectoryKey;
use safe_nfs::metadata::directory_metadata::DirectoryMetadata;
use safe_nfs::metadata::file_metadata::FileMetadata;
use safe_nfs::name::NetworkName;
use safe_nfs::name::NONCE_LEN;
use safe_nfs::rest::blob::metadata_text;
use safe_nfs::rest::container::get_tag_type;
use safe_nfs::AccessLevel;
use safe_nfs::CLIENT_STRUCTURED_DATA_TAG;
use safe_nfs::UNVERSIONED_DIRECTORY_LISTING_TAG;
use safe_nfs::VERSIONED_DIRECTORY_LISTING_TAG;

fn name(byte: u8) -> NetworkName {
    NetworkName::new([byte; 64])
}

fn directory(id: u8, at: i64) -> DirectoryListing {
    new_directory(
        Seed { id: name(id), now: Time::new(at, 0) },
        format!("dir{}", id),
        VERSIONED_DIRECTORY_LISTING_TAG,
        Vec::new(),
        true,
        AccessLevel::Private,
        None,
    )
}

fn file(id: u8, file_name: &str, at: i64) -> File {
    File::new(
        FileMetadata::with_id_at(name(id), Time::new(at, 0), file_name.to_string(), Vec::new()),
        DataMap::Empty,
    )
}

fn times_are_in_order(listing: &DirectoryListing) -> bool {
    let modified = listing.get_metadata().get_modified_time();
    modified.is_at_or_after(listing.get_metadata().get_created_time())
        && listing
            .get_files()
            .iter()
            .all(|file| modified.is_at_or_after(file.get_metadata().get_modified_time()))
        && listing
            .get_sub_directories()
            .iter()
            .all(|directory| modified.is_at_or_after(directory.get_modified_time()))
}

fn names_are_unique(listing: &DirectoryListing) -> bool {
    let files = listing.get_files();
    let directories = listing.get_sub_directories();
    (0..files.len()).all(|i| (0..i).all(|j| files[i].get_name() != files[j].get_name()))
        && (0..directories.len())
            .all(|i| (0..i).all(|j| directories[i].get_name() != directories[j].get_name()))
}

#[test]
fn the_tags_lie_above_the_clients_base() {
    assert_eq!(CLIENT_STRUCTURED_DATA_TAG, 15000);
    assert_eq!(VERSIONED_DIRECTORY_LISTING_TAG, 15100);
    assert_eq!(UNVERSIONED_DIRECTORY_LISTING_TAG, 15101);
    assert_eq!(get_tag_type(true), 15100);
    assert_eq!(get_tag_type(false), 15101);
}

#[test]
fn every_error_has_its_code() {
    assert_eq!(NFS_ERROR_START_RANGE, -501);
    assert_eq!(NfsError::NetworkError(-7).code(), -7);
    assert_eq!(NfsError::from_client(-7), NfsError::NetworkError(-7));
    let local = [
        NfsError::DirectoryAlreadyExistsWithSameName,
        NfsError::DestinationAndSourceAreSame,
        NfsError::DirectoryNotFound,
        NfsError::FailedToUpdateDirectory,
        NfsError::FailedToUpdateFile,
        NfsError::FileAlreadyExistsWithSameName,
        NfsError::FileDoesNotMatch,
        NfsError::FileNotFound,
        NfsError::InvalidRangeSpecified,
        NfsError::MetaDataMissingOrCorrupted,
        NfsError::ParameterInvalid,
        NfsError::VersionNotFound,
        NfsError::RandomnessUnavailable,
        NfsError::SerialisationFailed,
        NfsError::UnexpectedReply,
    ];
    for (offset, error) in local.iter().enumerate() {
        assert_eq!(error.code(), -502 - offset as i32);
        assert_eq!(error.describe(), format!("NfsError::{:?}", error));
    }
    assert_eq!(NfsError::NetworkError(-7).describe(), "NfsError::NetworkError");
    assert_eq!(NfsError::FileNotFound.describe(), "NfsError::FileNotFound");
}

#[test]
fn time_is_ordered_by_seconds_and_then_nanoseconds() {
    assert!(Time::new(5, 0).is_at_or_after(&Time::new(4, 999_999_999)));
    assert!(Time::new(5, 1).is_at_or_after(&Time::new(5, 0)));
    assert!(Time::new(5, 1).is_at_or_after(&Time::new(5, 1)));
    assert!(!Time::new(5, 0).is_at_or_after(&Time::new(5, 1)));
    assert!(!Time::new(-1, 0).is_at_or_after(&Time::new(0, 0)));
}

#[test]
fn the_clock_and_the_random_source_are_read() {
    let now = Time::now();
    assert!(now.sec > 1_500_000_000);
    assert!(now.nsec >= 0 && now.nsec < 1_000_000_000);
    let seed = Seed::draw().unwrap();
    assert!(seed.now.nsec >= 0 && seed.now.nsec < 1_000_000_000);
    let first = NetworkName::random().unwrap();
    let second = NetworkName::random().unwrap();
    assert_ne!(first, second);
    assert_ne!(first, NetworkName::new([0u8; 64]));
    let metadata = DirectoryMetadata::new(
        "a".to_string(),
        1,
        false,
        AccessLevel::Public,
        vec![1],
        None,
    )
    .unwrap();
    assert_eq!(metadata.get_created_time(), metadata.get_modified_time());
    assert!(metadata.get_created_time().is_at_or_after(&now));
    assert_eq!(metadata.get_type_tag(), 1);
    assert!(!metadata.is_versioned());
    assert_eq!(*metadata.get_access_level(), AccessLevel::Public);
    let file = FileMetadata::new("f".to_string(), vec![2]);
    assert_eq!(file.get_size(), 0);
    assert_eq!(file.get_created_time(), file.get_modified_time());
    assert_ne!(*file.get_id(), *metadata.get_id());
}

#[test]
fn the_nonce_is_the_front_of_the_identifier() {
    assert_eq!(NONCE_LEN, sodiumoxide::crypto::box_::NONCEBYTES);
    let mut bytes = [0u8; 64];
    for (i, byte) in bytes.iter_mut().enumerate() {
        *byte = i as u8 + 1;
    }
    let nonce = DirectoryListing::generate_nonce(&NetworkName::new(bytes));
    let expected: Vec<u8> = (1..=24).collect();
    assert_eq!(nonce.0.to_vec(), expected);
}

#[test]
fn times_stay_in_order_where_what_is_put_in_is_newest() {
    let mut listing = directory(1, 100);
    assert!(times_are_in_order(&listing));
    listing.upsert_file(file(2, "a", 150));
    assert_eq!(*listing.get_metadata().get_modified_time(), Time::new(150, 0));
    assert!(times_are_in_order(&listing));
    listing.upsert_sub_directory(directory(3, 200).get_metadata().clone());
    assert_eq!(*listing.get_metadata().get_modified_time(), Time::new(200, 0));
    assert!(times_are_in_order(&listing));
    listing.remove_file(&"a".to_string()).unwrap();
    assert!(times_are_in_order(&listing));
    // a file that is older than what the directory holds sets the directory back
    listing.upsert_file(file(4, "b", 120));
    assert_eq!(*listing.get_metadata().get_modified_time(), Time::new(120, 0));
    assert!(!times_are_in_order(&listing));
}

#[test]
fn names_stay_unique_where_a_new_name_is_new() {
    let mut listing = directory(1, 100);
    listing.upsert_file(file(2, "a", 101));
    listing.upsert_file(file(3, "b", 102));
    assert!(names_are_unique(&listing));
    // the file with identifier 2 is renamed: one file still
    listing.upsert_file(file(2, "c", 103));
    assert_eq!(listing.get_files().len(), 2);
    assert_eq!(listing.get_files()[0].get_name(), "c");
    assert!(names_are_unique(&listing));
    listing.remove_file(&"b".to_string()).unwrap();
    assert!(names_are_unique(&listing));
    // another file under a name that is taken: the helper refuses what the list would take
    let renamed = file(2, "c", 104);
    listing.upsert_file(file(5, "d", 104));
    let mut other = listing.find_file(&"d".to_string()).unwrap().clone();
    other.get_mut_metadata().set_name("c".to_string());
    let mut parent = listing.clone();
    let refused = FileHelper::new().update_metadata(other.clone(), &mut parent);
    assert_eq!(refused.err(), Some(NfsError::FileAlreadyExistsWithSameName));
    assert_eq!(parent, listing);
    assert!(FileHelper::new().update_metadata(renamed, &mut parent).is_ok());
    assert!(names_are_unique(&parent));
    listing.upsert_file(other);
    assert!(!names_are_unique(&listing));
    let unknown = FileHelper::new().update_metadata(file(9, "z", 1), &mut parent);
    assert_eq!(unknown.err(), Some(NfsError::FileNotFound));
}

#[test]
fn find_gives_the_first_of_a_name() {
    let mut listing = directory(1, 100);
    listing.upsert_file(file(2, "a", 101));
    listing.upsert_file(file(3, "a", 102));
    assert_eq!(*listing.find_file(&"a".to_string()).unwrap().get_id(), name(2));
    assert_eq!(listing.file_position(&"a".to_string()), Some(0));
    assert_eq!(listing.file_position_by_id(&name(3)), Some(1));
    assert_eq!(listing.find_file_by_id(&name(3)).unwrap().get_name(), "a");
    assert!(listing.find_file_by_id(&name(4)).is_none());
    listing.upsert_sub_directory(directory(5, 1).get_metadata().clone());
    listing.upsert_sub_directory(directory(6, 2).get_metadata().clone());
    assert_eq!(listing.sub_directory_position(&"dir6".to_string()), Some(1));
    assert_eq!(listing.sub_directory_position_by_id(&name(5)), Some(0));
    assert_eq!(listing.find_sub_directory_by_id(&name(6)).unwrap().get_name(), "dir6");
    assert!(listing.find_sub_directory_by_id(&name(7)).is_none());
    listing.remove_file(&"a".to_string()).unwrap();
    assert_eq!(*listing.find_file(&"a".to_string()).unwrap().get_id(), name(3));
}

#[test]
fn a_key_is_written_as_its_four_parts() {
    let key = DirectoryKey::new(name(7), 0x0102, true, AccessLevel::Public);
    let metadata = DirectoryMetadata::with_id_at(
        name(7),
        Time::new(1, -1),
        "é".to_string(),
        0x0102,
        true,
        AccessLevel::Public,
        vec![9, 8],
        Some(key),
    );
    let mut expected = Vec::new();
    // the key: identifier, tag, versioned, public
    expected.extend_from_slice(&[7u8; 64]);
    expected.extend_from_slice(&[2, 1, 0, 0, 0, 0, 0, 0]);
    expected.push(1);
    expected.push(1);
    // the name: length of its UTF-8 form, and the form
    expected.extend_from_slice(&[2, 0, 0, 0, 0, 0, 0, 0]);
    expected.extend_from_slice("é".as_bytes());
    // created and modified: seconds and nanoseconds, each as its distance from the least
    for _ in 0..2 {
        expected.extend_from_slice(&[1, 0, 0, 0, 0, 0, 0, 0x80]);
        expected.extend_from_slice(&[0xff, 0xff, 0xff, 0x7f, 0, 0, 0, 0]);
    }
    // the user metadata
    expected.extend_from_slice(&[2, 0, 0, 0, 0, 0, 0, 0]);
    expected.extend_from_slice(&[9, 8]);
    // the key of the parent, with the flag that it is there
    expected.push(1);
    expected.extend_from_slice(&[7u8; 64]);
    expected.extend_from_slice(&[2, 1, 0, 0, 0, 0, 0, 0]);
    expected.push(1);
    expected.push(1);
    assert_eq!(serialise(&metadata), expected);
    let back: DirectoryMetadata = deserialise(&expected).unwrap();
    assert_eq!(back, metadata);
    assert!(back.equals(&metadata));
    assert!(back.get_key().equals(&key));
}

#[test]
fn a_data_map_is_written_as_its_kind_and_its_content() {
    assert_eq!(serialise(&DataMap::Empty), vec![2, 0, 0, 0, 0, 0, 0, 0]);
    assert_eq!(
        serialise(&DataMap::Content(vec![5, 6])),
        vec![1, 0, 0, 0, 0, 0, 0, 0, 2, 0, 0, 0, 0, 0, 0, 0, 5, 6]
    );
    let chunks = DataMap::Chunks(vec![ChunkDetails {
        chunk_num: 3,
        hash: vec![1],
        pre_hash: vec![],
        source_size: 4,
    }]);
    let mut expected = vec![0, 0, 0, 0, 0, 0, 0, 0];
    expected.extend_from_slice(&[1, 0, 0, 0, 0, 0, 0, 0]);
    expected.extend_from_slice(&[3, 0, 0, 0, 0, 0, 0, 0]);
    expected.extend_from_slice(&[1, 0, 0, 0, 0, 0, 0, 0, 1]);
    expected.extend_from_slice(&[0, 0, 0, 0, 0, 0, 0, 0]);
    expected.extend_from_slice(&[4, 0, 0, 0, 0, 0, 0, 0]);
    assert_eq!(serialise(&chunks), expected);
    assert_eq!(deserialise::<DataMap>(&expected).unwrap(), chunks);
}

#[test]
fn what_is_serialised_is_deserialised_to_what_it_was() {
    let mut listing = directory(1, i64::MIN);
    let mut with_content = file(2, "a", i64::MAX);
    with_content.set_datamap(DataMap::Chunks(vec![
        ChunkDetails { chunk_num: 0, hash: vec![1; 64], pre_hash: vec![2; 64], source_size: 7 },
        ChunkDetails {
            chunk_num: u32::MAX,
            hash: Vec::new(),
            pre_hash: vec![0],
            source_size: u64::MAX,
        },
    ]));
    with_content.get_mut_metadata().set_size(u64::MAX);
    with_content.get_mut_metadata().set_modified_time(Time::new(-5, i32::MIN));
    with_content.get_mut_metadata().set_user_metadata(vec![0, 255, 128]);
    listing.upsert_file(with_content);
    let mut small = file(3, "", 0);
    small.set_datamap(DataMap::Content(vec![1, 2]));
    small.get_mut_metadata().set_modified_time(Time::new(0, i32::MAX));
    listing.upsert_file(small);
    let mut child = directory(4, 7);
    child.get_mut_metadata().set_name("日本語".to_string());
    listing.upsert_sub_directory(child.get_metadata().clone());
    let child_of_child = DirectoryMetadata::with_id_at(
        name(5),
        Time::new(9, 9),
        "x".to_string(),
        UNVERSIONED_DIRECTORY_LISTING_TAG,
        false,
        AccessLevel::Public,
        vec![1],
        Some(*child.get_key()),
    );
    listing.upsert_sub_directory(child_of_child);
    let bytes = serialise(&listing);
    let back: DirectoryListing = deserialise(&bytes).unwrap();
    assert_eq!(back, listing);
    assert_eq!(serialise(&back), bytes);
}

#[test]
fn bytes_that_hold_no_directory_are_refused() {
    let listing = directory(1, 100);
    let bytes = serialise(&listing);
    for cut in 0..bytes.len() {
        assert_eq!(
            deserialise::<DirectoryListing>(&bytes[..cut].to_vec()).err(),
            Some(NfsError::SerialisationFailed)
        );
    }
    let mut longer = bytes.clone();
    longer.push(0);
    assert_eq!(
        deserialise::<DirectoryListing>(&longer).err(),
        Some(NfsError::SerialisationFailed)
    );
    // a flag that is neither zero nor one
    let mut flag = bytes.clone();
    flag[64 + 8] = 2;
    assert_eq!(deserialise::<DirectoryListing>(&flag).err(), Some(NfsError::SerialisationFailed));
    // a name that is no UTF-8
    let mut text = bytes.clone();
    text[64 + 8 + 2 + 8] = 0xff;
    assert_eq!(deserialise::<DirectoryListing>(&text).err(), Some(NfsError::SerialisationFailed));
    // a data map of a kind that there is not
    assert_eq!(
        deserialise::<DataMap>(&vec![3, 0, 0, 0, 0, 0, 0, 0]).err(),
        Some(NfsError::SerialisationFailed)
    );
    // a list that says it is longer than it is
    assert_eq!(
        deserialise::<DataMap>(&vec![0, 0, 0, 0, 0, 0, 0, 0, 255, 255, 255, 255, 255, 255, 255, 255])
            .err(),
        Some(NfsError::SerialisationFailed)
    );
}

#[test]
fn user_metadata_that_is_no_text_reads_as_empty() {
    assert_eq!(metadata_text(&"héllo".to_string().into_bytes()), "héllo");
    assert_eq!(metadata_text(&vec![0xff, 0xfe]), "");
    assert_eq!(metadata_text(&vec![b'a', 0x80]), "");
    assert_eq!(metadata_text(&Vec::new()), "");
}

#[test]
fn the_newest_state_is_the_last_version() {
    let key = DirectoryKey::new(name(1), VERSIONED_DIRECTORY_LISTING_TAG, true, AccessLevel::Private);
    let helper = DirectoryHelper::new();
    let started = helper.get(&key);
    assert_eq!(
        started.request,
        Some(Request::GetVersions { id: name(1), tag: VERSIONED_DIRECTORY_LISTING_TAG })
    );
    assert_eq!(started.request, helper.get_versions(&name(1), VERSIONED_DIRECTORY_LISTING_TAG).request);
    let next = started.state.step(Reply::Names(vec![name(7), name(8), name(9)]));
    let by_version = helper.get_by_version(&name(1), &AccessLevel::Private, name(9));
    assert_eq!(next.request, Some(Request::GetImmutable { name: name(9) }));
    assert_eq!(next.request, by_version.request);
    // and from there on the two go the same way
    let sealed = vec![1, 2, 3];
    let one = next.state.step(Reply::Bytes(sealed.clone()));
    let other = by_version.state.step(Reply::Bytes(sealed.clone()));
    assert_eq!(one.request, other.request);
    match one.request {
        Some(Request::HybridDecrypt { sealed: asked, nonce }) => {
            assert_eq!(asked, sealed);
            assert_eq!(nonce.0, [1u8; 24]);
        }
        other => panic!("unexpected request {:?}", other),
    }
    // an unversioned directory is its payload
    let plain = DirectoryKey::new(name(2), UNVERSIONED_DIRECTORY_LISTING_TAG, false, AccessLevel::Public);
    assert_eq!(
        Fetch::get(&plain).request,
        Some(Request::GetPayload { id: name(2), tag: UNVERSIONED_DIRECTORY_LISTING_TAG, seal: None })
    );
}

#[test]
fn a_private_versioned_directory_is_sealed_before_it_is_stored() {
    let listing = directory(1, 5);
    let helper = DirectoryHelper::new();
    let first = helper.save_directory_listing(&listing);
    assert_eq!(first.request, Some(Request::SelfEncrypt { content: serialise(&listing) }));
    let map = DataMap::Content(vec![4, 5]);
    let second = first.state.step(Reply::DataMap(map.clone()));
    match second.request {
        Some(Request::HybridEncrypt { ref plain, nonce }) => {
            assert_eq!(*plain, serialise(&map));
            assert_eq!(nonce.0, [1u8; 24]);
        }
        ref other => panic!("unexpected request {:?}", other),
    }
    let third = second.state.step(Reply::Bytes(vec![6, 7, 8]));
    assert_eq!(third.request, Some(Request::PutImmutable { data: vec![6, 7, 8] }));
    let fourth = third.state.step(Reply::Name(name(9)));
    assert_eq!(
        fourth.request,
        Some(Request::PutVersioned {
            id: name(1),
            tag: VERSIONED_DIRECTORY_LISTING_TAG,
            version: name(9)
        })
    );
    let last = fourth.state.step(Reply::Done);
    assert_eq!(last.request, None);
    // an update appends the version where a creation puts the first
    let update = helper.update_directory_listing(&listing);
    let stored = update
        .state
        .step(Reply::DataMap(map))
        .state
        .step(Reply::Bytes(vec![6, 7, 8]))
        .state
        .step(Reply::Name(name(9)));
    assert_eq!(
        stored.request,
        Some(Request::PostVersioned {
            id: name(1),
            tag: VERSIONED_DIRECTORY_LISTING_TAG,
            version: name(9)
        })
    );
}

#[test]
fn a_reader_gives_every_part_within_the_content() {
    let content: Vec<u8> = (0..20).collect();
    let reader = Reader::new(content.clone());
    assert_eq!(reader.size(), 20);
    for position in 0..=20u64 {
        for length in 0..=(20 - position) {
            let part = reader.read(position, length).unwrap();
            assert_eq!(part.len() as u64, length);
            assert_eq!(part, content[position as usize..(position + length) as usize].to_vec());
        }
        assert_eq!(
            reader.read(position, 21 - position).err(),
            Some(NfsError::InvalidRangeSpecified)
        );
    }
    assert_eq!(reader.read(21, 0).err(), Some(NfsError::InvalidRangeSpecified));
    assert_eq!(reader.read(u64::MAX, u64::MAX).err(), Some(NfsError::InvalidRangeSpecified));
    assert_eq!(reader.read(1, u64::MAX).err(), Some(NfsError::InvalidRangeSpecified));
}

#[test]
fn a_writer_fills_a_gap_with_zeros() {
    let mut writer = Writer::with_content(directory(1, 1), file(2, "a", 1), vec![1, 2, 3]);
    writer.write(&[9, 9], 5);
    assert_eq!(*writer.get_content(), vec![1, 2, 3, 0, 0, 9, 9]);
    writer.write(&[7], 1);
    assert_eq!(*writer.get_content(), vec![1, 7, 3, 0, 0, 9, 9]);
    writer.write(&[], 9);
    assert_eq!(*writer.get_content(), vec![1, 7, 3, 0, 0, 9, 9, 0, 0]);
    writer.write(&[4, 5, 6], 8);
    assert_eq!(*writer.get_content(), vec![1, 7, 3, 0, 0, 9, 9, 0, 4, 5, 6]);
}

#[test]
fn closing_a_writer_leaves_the_file_who_it_was() {
    let mut parent = directory(1, 1);
    let mut before = file(2, "a", 10);
    before.get_mut_metadata().set_user_metadata(vec![1, 2]);
    parent.upsert_file(before.clone());
    let mut writer = Writer::with_content(parent, before.clone(), Vec::new());
    writer.write(&[1, 2, 3, 4, 5], 0);
    let closing = writer.close_at(Time::new(20, 3));
    assert_eq!(closing.request, Some(Request::SelfEncrypt { content: vec![1, 2, 3, 4, 5] }));
    let map = DataMap::Content(vec![1]);
    let mut turn = closing.state.step(Reply::DataMap(map.clone()));
    // the directory is updated next: it is sealed, stored, and its version recorded
    let mut asked = Vec::new();
    while let Some(request) = turn.request {
        let reply = match request {
            Request::SelfEncrypt { .. } => {
                asked.push("SelfEncrypt");
                Reply::DataMap(DataMap::Empty)
            }
            Request::HybridEncrypt { plain, .. } => {
                asked.push("HybridEncrypt");
                Reply::Bytes(plain)
            }
            Request::PutImmutable { .. } => {
                asked.push("PutImmutable");
                Reply::Name(name(42))
            }
            Request::PostVersioned { id, version, .. } => {
                asked.push("PostVersioned");
                assert_eq!(id, name(1));
                assert_eq!(version, name(42));
                Reply::Done
            }
            other => panic!("unexpected request {:?}", other),
        };
        turn = turn.state.step(reply);
    }
    assert_eq!(asked, vec!["SelfEncrypt", "HybridEncrypt", "PutImmutable", "PostVersioned"]);
    let (parent, grand_parent) = turn.state.finish().unwrap().unwrap();
    assert!(grand_parent.is_none());
    let closed = parent.find_file_by_id(&name(2)).unwrap();
    assert_eq!(closed.get_name(), "a");
    assert_eq!(*closed.get_id(), name(2));
    assert_eq!(*closed.get_metadata().get_created_time(), Time::new(10, 0));
    assert_eq!(*closed.get_metadata().get_user_metadata(), vec![1, 2]);
    assert_eq!(closed.get_metadata().get_size(), 5);
    assert_eq!(*closed.get_metadata().get_modified_time(), Time::new(20, 3));
    assert_eq!(*closed.get_datamap(), map);
    assert_eq!(parent.get_files().len(), 1);
    assert_eq!(*parent.get_metadata().get_modified_time(), Time::new(20, 3));
}

#[test]
fn deleting_stamps_the_parent() {
    let mut parent = directory(1, 1);
    parent.upsert_sub_directory(directory(2, 5).get_metadata().clone());
    parent.upsert_sub_directory(directory(3, 6).get_metadata().clone());
    let helper = DirectoryHelper::new();
    let turn = helper.delete_at(&mut parent, &"dir2".to_string(), Time::new(50, 0)).unwrap();
    assert_eq!(parent.get_sub_directories().len(), 1);
    assert_eq!(parent.get_sub_directories()[0].get_name(), "dir3");
    assert_eq!(*parent.get_metadata().get_modified_time(), Time::new(50, 0));
    assert_eq!(turn.request, Some(Request::SelfEncrypt { content: serialise(&parent) }));
    let before = parent.clone();
    let missing = helper.delete_at(&mut parent, &"dir2".to_string(), Time::new(60, 0));
    assert_eq!(missing.err(), Some(NfsError::DirectoryNotFound));
    assert_eq!(parent, before);
}
