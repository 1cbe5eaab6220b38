//! Directories, files, blobs and their byte forms, without a network.

use safe_nfs::clock::Time;
use safe_nfs::codec::deserialise;
use safe_nfs::codec::serialise;
use safe_nfs::data_map::ChunkDetails;
use safe_nfs::data_map::DataMap;
use safe_nfs::directory_listing::directory_info::DirectoryInfo;
use safe_nfs::directory_listing::DirectoryListing;
use safe_nfs::errors::NfsError;
use safe_nfs::file::File;
use safe_nfs::metadata::directory_key::DirectoryKey;
use safe_nfs::metadata::directory_metadata::DirectoryMetadata;
use safe_nfs::metadata::file_metadata::FileMetadata;
use safe_nfs::name::NetworkName;
use safe_nfs::rest::blob::Blob;
use safe_nfs::rest::container_info::ContainerInfo;
use safe_nfs::AccessLevel;
use safe_nfs::VERSIONED_DIRECTORY_LISTING_TAG;

fn random_name() -> NetworkName {
    NetworkName::random().expect("randomness is available")
}

fn random_string(length: usize) -> String {
    sodiumoxide::randombytes::randombytes(length)
        .iter()
        .map(|byte| (b'a' + byte % 26) as char)
        .collect()
}

#[test]
fn directory_listing_serialise() {
    let obj_before = DirectoryListing::new(
        "Home".to_string(),
        VERSIONED_DIRECTORY_LISTING_TAG,
        "{mime:\"application/json\"}".to_string().into_bytes(),
        true,
        AccessLevel::Private,
        None,
    )
    .unwrap();

    let serialised_data = serialise(&obj_before);
    let obj_after: DirectoryListing = deserialise(&serialised_data).unwrap();

    assert_eq!(obj_before, obj_after);
}

#[test]
fn directory_info_serialise() {
    let metadata = DirectoryMetadata::new(
        "Hello.txt".to_string(),
        VERSIONED_DIRECTORY_LISTING_TAG,
        true,
        AccessLevel::Public,
        Vec::new(),
        None,
    )
    .unwrap();
    let obj_before = DirectoryInfo::new(metadata);
    let serialised_data = serialise(&obj_before);
    let obj_after: DirectoryInfo = deserialise(&serialised_data).unwrap();

    assert_eq!(obj_before, obj_after);
}

#[test]
fn serialise_and_deserialise_directory_listing() {
    let obj_before = DirectoryListing::new(
        "Home".to_string(),
        10,
        "some metadata about the directory".to_string().into_bytes(),
        true,
        AccessLevel::Private,
        None,
    )
    .unwrap();

    let serialised_data = serialise(&obj_before);
    let obj_after: DirectoryListing = deserialise(&serialised_data).unwrap();
    assert_eq!(obj_before, obj_after);
}

#[test]
fn find_upsert_remove_file() {
    let mut directory_listing = DirectoryListing::new(
        "Home".to_string(),
        10,
        Vec::new(),
        true,
        AccessLevel::Private,
        None,
    )
    .unwrap();
    let mut file =
        File::new(FileMetadata::new("index.html".to_string(), Vec::new()), DataMap::Empty);
    assert!(directory_listing.find_file(file.get_name()).is_none());
    directory_listing.upsert_file(file.clone());
    assert!(directory_listing.find_file(file.get_name()).is_some());

    file.get_mut_metadata().set_name("home.html".to_string());
    directory_listing.upsert_file(file.clone());
    assert_eq!(directory_listing.get_files().len(), 1);
    let file2 = File::new(FileMetadata::new("demo.html".to_string(), Vec::new()), DataMap::Empty);
    directory_listing.upsert_file(file2.clone());
    assert_eq!(directory_listing.get_files().len(), 2);

    let _ = directory_listing.find_file(file.get_name()).expect("File not found");
    let _ = directory_listing.find_file(file2.get_name()).expect("File not found");

    let _ = directory_listing.remove_file(file.get_metadata().get_name()).unwrap();
    assert!(directory_listing.find_file(file.get_name()).is_none());
    assert!(directory_listing.find_file(file2.get_name()).is_some());
    assert_eq!(directory_listing.get_files().len(), 1);

    let _ = directory_listing.remove_file(file2.get_metadata().get_name()).unwrap();
    assert_eq!(directory_listing.get_files().len(), 0);

    assert_eq!(
        directory_listing.remove_file(file2.get_metadata().get_name()),
        Err(NfsError::FileNotFound)
    );
}

#[test]
fn find_upsert_remove_directory() {
    let mut directory_listing = DirectoryListing::new(
        "Home".to_string(),
        10,
        Vec::new(),
        true,
        AccessLevel::Private,
        None,
    )
    .unwrap();
    let mut sub_directory = DirectoryListing::new(
        "Child one".to_string(),
        10,
        Vec::new(),
        true,
        AccessLevel::Private,
        None,
    )
    .unwrap();
    assert!(directory_listing
        .find_sub_directory(sub_directory.get_metadata().get_name())
        .is_none());
    directory_listing.upsert_sub_directory(sub_directory.get_metadata().clone());
    assert!(directory_listing
        .find_sub_directory(sub_directory.get_metadata().get_name())
        .is_some());

    sub_directory.get_mut_metadata().set_name("Child_1".to_string());
    directory_listing.upsert_sub_directory(sub_directory.get_metadata().clone());
    assert_eq!(directory_listing.get_sub_directories().len(), 1);
    let sub_directory_two = DirectoryListing::new(
        "Child Two".to_string(),
        10,
        Vec::new(),
        true,
        AccessLevel::Private,
        None,
    )
    .unwrap();
    directory_listing.upsert_sub_directory(sub_directory_two.get_metadata().clone());
    assert_eq!(directory_listing.get_sub_directories().len(), 2);

    let _ = directory_listing
        .find_sub_directory(sub_directory.get_metadata().get_name())
        .expect("Directory not found");
    let _ = directory_listing
        .find_sub_directory(sub_directory_two.get_metadata().get_name())
        .expect("Directory not found");

    let _ = directory_listing
        .remove_sub_directory(sub_directory.get_metadata().get_name())
        .unwrap();
    assert!(directory_listing
        .find_sub_directory(sub_directory.get_metadata().get_name())
        .is_none());
    assert!(directory_listing
        .find_sub_directory(sub_directory_two.get_metadata().get_name())
        .is_some());
    assert_eq!(directory_listing.get_sub_directories().len(), 1);

    let _ = directory_listing
        .remove_sub_directory(sub_directory_two.get_metadata().get_name())
        .unwrap();
    assert_eq!(directory_listing.get_sub_directories().len(), 0);

    assert_eq!(
        directory_listing.remove_sub_directory(sub_directory_two.get_metadata().get_name()),
        Err(NfsError::DirectoryNotFound)
    );
}

#[test]
fn file_serialise() {
    let obj_before = File::new(
        FileMetadata::new(
            "Home".to_string(),
            "{mime:\"application/json\"}".to_string().into_bytes(),
        ),
        DataMap::Empty,
    );
    let serialised_data = serialise(&obj_before);
    let obj_after: File = deserialise(&serialised_data).unwrap();
    assert_eq!(obj_before, obj_after);
}

#[test]
fn serialise_directorty_metadata_without_parent_directory() {
    let obj_before = DirectoryMetadata::new(
        "hello.txt".to_string(),
        99u64,
        true,
        AccessLevel::Private,
        Vec::new(),
        None,
    )
    .unwrap();
    let serialised_data = serialise(&obj_before);
    let obj_after: DirectoryMetadata = deserialise(&serialised_data).unwrap();
    assert_eq!(obj_before, obj_after);
}

#[test]
fn serialise_directorty_metadata_with_parent_directory() {
    let id = random_name();
    let parent_directory = DirectoryKey::new(id, 100u64, false, AccessLevel::Private);
    let obj_before = DirectoryMetadata::new(
        "hello.txt".to_string(),
        99u64,
        true,
        AccessLevel::Private,
        "Some user metadata".to_string().into_bytes(),
        Some(parent_directory.clone()),
    )
    .unwrap();
    let serialised_data = serialise(&obj_before);
    let obj_after: DirectoryMetadata = deserialise(&serialised_data).unwrap();
    assert_eq!(
        *obj_after.get_parent_dir_key().expect("Directory should not be None"),
        parent_directory
    );
}

#[test]
fn update_using_setters() {
    let id = random_name();
    let modified_time = Time::now();
    let mut obj_before = DirectoryMetadata::new(
        "hello.txt".to_string(),
        99u64,
        true,
        AccessLevel::Private,
        Vec::new(),
        Some(DirectoryKey::new(id, 100u64, false, AccessLevel::Private)),
    )
    .unwrap();
    let user_metadata = "{mime: \"application/json\"}".to_string().into_bytes();
    obj_before.set_user_metadata(user_metadata.clone());
    obj_before.set_modified_time(modified_time.clone());
    obj_before.set_name("index.txt".to_string());
    let serialised_data = serialise(&obj_before);
    let obj_after: DirectoryMetadata = deserialise(&serialised_data).unwrap();
    assert_eq!(user_metadata, *obj_after.get_user_metadata());
    assert_eq!(modified_time, *obj_after.get_modified_time());
    assert_eq!("index.txt".to_string(), *obj_after.get_name());
}

#[test]
fn blob_create() {
    let datamap = DataMap::Empty;
    let metadata = FileMetadata::new("blob".to_string(), Vec::new());
    let file = File::new(metadata.clone(), datamap.clone());

    let blob = Blob::convert_from_file(file.clone());

    assert_eq!(*blob.get_name(), *metadata.get_name());
    assert_eq!(blob.get_created_time(), metadata.get_created_time());
    assert_eq!(blob.get_modified_time(), metadata.get_modified_time());
    assert_eq!(blob.get_size(), metadata.get_size());
    assert!(blob.get_metadata().is_empty());

    let file = blob.convert_to_file();

    assert_eq!(file.get_name(), metadata.get_name());
    assert_eq!(file.get_metadata().get_created_time(), metadata.get_created_time());
    assert_eq!(file.get_metadata().get_modified_time(), metadata.get_modified_time());
    assert_eq!(file.get_metadata().get_size(), metadata.get_size());
    assert_eq!(file.get_datamap().len(), datamap.len());
    assert!(!file.get_datamap().has_chunks());
}

#[test]
fn create_from_file() {
    let datamap = DataMap::Empty;
    let metadata = FileMetadata::new("blob".to_string(), Vec::new());
    let file = File::new(metadata.clone(), datamap.clone());

    let blob = Blob::convert_from_file(file.clone());

    assert_eq!(*blob.get_name(), *file.get_name());
    assert_eq!(blob.get_created_time(), file.get_metadata().get_created_time());
    assert_eq!(blob.get_modified_time(), file.get_metadata().get_modified_time());
    assert_eq!(blob.get_size(), file.get_metadata().get_size());
    assert!(blob.get_metadata().is_empty());
}

#[test]
fn convert_to_file() {
    let datamap = DataMap::Empty;
    let metadata = FileMetadata::new("blob".to_string(), Vec::new());
    let file = File::new(metadata.clone(), datamap.clone());

    let blob = Blob::convert_from_file(file.clone());

    assert_eq!(*blob.get_name(), *file.get_name());
    assert_eq!(blob.get_created_time(), file.get_metadata().get_created_time());
    assert_eq!(blob.get_modified_time(), file.get_metadata().get_modified_time());
    assert_eq!(blob.get_size(), file.get_metadata().get_size());
    assert!(blob.get_metadata().is_empty());
    assert!(file.get_metadata().get_user_metadata().is_empty());

    let file = blob.convert_to_file();

    assert_eq!(*blob.get_name(), *file.get_name());
    assert_eq!(blob.get_created_time(), file.get_metadata().get_created_time());
    assert_eq!(blob.get_modified_time(), file.get_metadata().get_modified_time());
    assert_eq!(blob.get_size(), file.get_metadata().get_size());
    assert!(file.get_metadata().get_user_metadata().is_empty());
}

#[test]
fn compare() {
    let first_datamap = DataMap::Empty;
    let first_metadata = FileMetadata::with_id_at(
        random_name(),
        Time::new(1_000, 0),
        "first_blob".to_string(),
        Vec::new(),
    );
    let first_file = File::new(first_metadata.clone(), first_datamap.clone());

    let first_blob = Blob::convert_from_file(first_file.clone());
    let second_blob = Blob::convert_from_file(first_file.clone());

    // the second file is made a second later
    let second_datamap = DataMap::Empty;
    let second_metadata = FileMetadata::with_id_at(
        random_name(),
        Time::new(1_001, 0),
        "second_blob".to_string(),
        Vec::new(),
    );
    let second_file = File::new(second_metadata, second_datamap.clone());

    let third_blob = Blob::convert_from_file(second_file.clone());

    assert_eq!(*first_blob.get_name(), *second_blob.get_name());
    assert_eq!(first_blob.get_created_time(), second_blob.get_created_time());
    assert_eq!(first_blob.get_modified_time(), second_blob.get_modified_time());

    assert!(*first_blob.get_name() != *third_blob.get_name());
    assert!(first_blob.get_created_time() != third_blob.get_created_time());
    assert!(first_blob.get_modified_time() != third_blob.get_modified_time());
}

#[test]
fn container_info_create() {
    let name = random_string(10);
    let metadata = DirectoryMetadata::new(
        name.clone(),
        VERSIONED_DIRECTORY_LISTING_TAG,
        true,
        AccessLevel::Public,
        Vec::new(),
        None,
    )
    .unwrap();
    let container_info = ContainerInfo::convert_from_directory_info(DirectoryInfo::new(metadata));

    assert_eq!(*container_info.get_name(), name);
}

#[test]
fn convert_from() {
    let name = random_string(10);
    let metadata = DirectoryMetadata::new(
        name.clone(),
        VERSIONED_DIRECTORY_LISTING_TAG,
        true,
        AccessLevel::Public,
        Vec::new(),
        None,
    )
    .unwrap();
    let directory_info = DirectoryInfo::new(metadata);

    assert_eq!(*directory_info.get_name(), name);

    let container_info = ContainerInfo::convert_from_directory_info(directory_info.clone());

    assert_eq!(container_info.get_name(), directory_info.get_name());
    assert_eq!(
        container_info.get_created_time(),
        directory_info.get_metadata().get_created_time()
    );
}

#[test]
fn convert_to() {
    let name = random_string(10);
    let metadata = DirectoryMetadata::new(
        name.clone(),
        VERSIONED_DIRECTORY_LISTING_TAG,
        true,
        AccessLevel::Public,
        Vec::new(),
        None,
    )
    .unwrap();
    let container_info = ContainerInfo::convert_from_directory_info(DirectoryInfo::new(metadata));

    assert_eq!(*container_info.get_name(), name);

    let directory_info = container_info.convert_to_directory_info();

    assert_eq!(directory_info.get_name(), container_info.get_name());
    assert_eq!(
        directory_info.get_metadata().get_created_time(),
        container_info.get_created_time()
    );
    assert_eq!(container_info.get_key().1, VERSIONED_DIRECTORY_LISTING_TAG);
    assert_eq!(container_info.get_key().0, directory_info.get_key().get_id().0);
}

#[test]
fn a_data_map_knows_the_size_of_its_content() {
    let chunks = DataMap::Chunks(vec![
        ChunkDetails { chunk_num: 0, hash: vec![1], pre_hash: vec![2], source_size: 1024 },
        ChunkDetails { chunk_num: 1, hash: vec![3], pre_hash: vec![4], source_size: 76 },
    ]);
    assert_eq!(chunks.len(), 1100);
    assert!(chunks.has_chunks());
    assert_eq!(DataMap::Content(vec![1, 2]).len(), 2);
    assert!(!DataMap::Content(vec![1, 2]).has_chunks());
    assert_eq!(DataMap::Empty.len(), 0);
    let huge = DataMap::Chunks(vec![
        ChunkDetails { chunk_num: 0, hash: vec![], pre_hash: vec![], source_size: u64::MAX },
        ChunkDetails { chunk_num: 1, hash: vec![], pre_hash: vec![], source_size: 5 },
    ]);
    assert_eq!(huge.len(), u64::MAX);
    assert!(!DataMap::Chunks(Vec::new()).has_chunks());
    assert!(chunks.equals(&chunks.clone()));
    assert!(!chunks.equals(&huge));
}

#[test]
fn what_is_handed_out_to_be_changed_changes_its_owner() {
    let mut listing = DirectoryListing::new(
        "Home".to_string(),
        10,
        Vec::new(),
        true,
        AccessLevel::Private,
        None,
    )
    .unwrap();
    let file = File::new(FileMetadata::new("a".to_string(), Vec::new()), DataMap::Empty);
    listing.get_mut_files().push(file.clone());
    assert_eq!(*listing.get_files(), vec![file.clone()]);
    let child = DirectoryMetadata::new(
        "child".to_string(),
        10,
        false,
        AccessLevel::Public,
        Vec::new(),
        Some(*listing.get_key()),
    )
    .unwrap();
    listing.get_mut_sub_directories().push(child.clone());
    assert_eq!(*listing.get_sub_directories(), vec![child.clone()]);
    assert_eq!(child.get_parent_dir_key(), Some(listing.get_key()));

    let mut blob = Blob::convert_from_file(file);
    blob.convert_to_mut_file().get_mut_metadata().set_size(7);
    blob.convert_to_mut_file().set_datamap(DataMap::Content(vec![1; 7]));
    assert_eq!(blob.get_size(), 7);
    assert_eq!(blob.convert_to_file().get_datamap().len(), 7);

    let mut info = DirectoryInfo::new(child);
    info.get_mut_metadata().set_name("renamed".to_string());
    assert_eq!(info.get_name(), "renamed");
    assert_eq!(info.get_metadata().get_name(), "renamed");

    let container = safe_nfs::rest::container::Container::with_listing(listing.clone());
    assert_eq!(*container.get_directory_listing(), listing);
    assert_eq!(container.get_name(), "Home");
    assert_eq!(container.get_created_time(), listing.get_metadata().get_created_time());
    assert_eq!(container.get_metadata(), "");
    assert_eq!(container.get_info().get_name(), "Home");
    assert_eq!(container.get_blobs().len(), 1);
    assert_eq!(container.get_containers().len(), 1);
}
