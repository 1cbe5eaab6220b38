//! The operations that go through the network, run against a network held in memory.

use std::collections::hash_map::DefaultHasher;
use std::collections::HashMap;
use std::hash::Hash;
use std::hash::Hasher;

use safe_nfs::clock::Time;
use safe_nfs::data_map::ChunkDetails;
use safe_nfs::data_map::DataMap;
use safe_nfs::directory_listing::sealing::Decryption;
use safe_nfs::directory_listing::sealing::Encryption;
use safe_nfs::directory_listing::DirectoryListing;
use safe_nfs::errors::NfsError;
use safe_nfs::exchange::Reply;
use safe_nfs::exchange::Request;
use safe_nfs::exchange::Turn;
use safe_nfs::file::File;
use safe_nfs::helper::directory_helper::Creation;
use safe_nfs::helper::directory_helper::DirectoryHelper;
use safe_nfs::helper::directory_helper::Seed;
use safe_nfs::helper::directory_helper::Update;
use safe_nfs::helper::file_helper::FileHelper;
use safe_nfs::helper::file_helper::History;
use safe_nfs::helper::reader::Reader;
use safe_nfs::helper::reader::Reading;
use safe_nfs::helper::roots::Configuration;
use safe_nfs::helper::roots::UserRoot;
use safe_nfs::helper::storage::Fetch;
use safe_nfs::helper::storage::Versions;
use safe_nfs::helper::writer::Closing;
use safe_nfs::helper::writer::Mode;
use safe_nfs::helper::writer::Preparation;
use safe_nfs::helper::writer::Writer;
use safe_nfs::metadata::directory_key::DirectoryKey;
use safe_nfs::name::NetworkName;
use safe_nfs::name::Nonce;
use safe_nfs::rest::container::Authorisation;
use safe_nfs::rest::container::Container;
use safe_nfs::rest::container::Copying;
use safe_nfs::AccessLevel;
use safe_nfs::UNVERSIONED_DIRECTORY_LISTING_TAG;
use safe_nfs::VERSIONED_DIRECTORY_LISTING_TAG;

/// The code with which the network in memory reports that it does not hold what is asked
/// for.
const NO_SUCH_DATA: i32 = -8;

/// The code with which the network in memory reports an envelope that does not open.
const DECIPHER_FAILURE: i32 = -3;

/// A network, a self-encryption primitive and a session, all held in memory.
struct Network {
    immutable: HashMap<Vec<u8>, Vec<u8>>,
    versioned: HashMap<(Vec<u8>, u64), Vec<NetworkName>>,
    unversioned: HashMap<(Vec<u8>, u64), (u64, Vec<u8>)>,
    user_root: Option<NetworkName>,
    configuration_root: Option<NetworkName>,
    log: Vec<&'static str>,
}

fn name_of(data: &[u8]) -> NetworkName {
    let mut bytes = [0u8; 64];
    for round in 0..8u64 {
        let mut hasher = DefaultHasher::new();
        round.hash(&mut hasher);
        data.hash(&mut hasher);
        let word = hasher.finish().to_le_bytes();
        for (i, byte) in word.iter().enumerate() {
            bytes[round as usize * 8 + i] = *byte;
        }
    }
    NetworkName::new(bytes)
}

fn seal(plain: &[u8], nonce: &Nonce) -> Vec<u8> {
    let mut sealed = nonce.0.to_vec();
    sealed.extend(plain.iter().map(|byte| byte ^ 0x5a));
    sealed
}

fn open(sealed: &[u8], nonce: &Nonce) -> Option<Vec<u8>> {
    if sealed.len() >= 24 && sealed[..24] == nonce.0[..] {
        Some(sealed[24..].iter().map(|byte| byte ^ 0x5a).collect())
    } else {
        None
    }
}

fn seal_payload(payload: Vec<u8>, nonce: &Option<Nonce>) -> Vec<u8> {
    match nonce {
        Some(nonce) => seal(&payload, nonce),
        None => payload,
    }
}

impl Network {
    fn new() -> Network {
        Network {
            immutable: HashMap::new(),
            versioned: HashMap::new(),
            unversioned: HashMap::new(),
            user_root: None,
            configuration_root: None,
            log: Vec::new(),
        }
    }

    fn put_immutable(&mut self, data: Vec<u8>) -> NetworkName {
        let name = name_of(&data);
        self.immutable.insert(name.0.to_vec(), data);
        name
    }

    fn perform(&mut self, request: Request) -> Reply {
        match request {
            Request::GetVersions { id, tag } => {
                self.log.push("GetVersions");
                match self.versioned.get(&(id.0.to_vec(), tag)) {
                    Some(versions) => Reply::Names(versions.clone()),
                    None => Reply::Failed(NO_SUCH_DATA),
                }
            }
            Request::GetPayload { id, tag, seal } => {
                self.log.push("GetPayload");
                match self.unversioned.get(&(id.0.to_vec(), tag)) {
                    Some((_, payload)) => match seal {
                        Some(nonce) => match open(payload, &nonce) {
                            Some(plain) => Reply::Bytes(plain),
                            None => Reply::Failed(DECIPHER_FAILURE),
                        },
                        None => Reply::Bytes(payload.clone()),
                    },
                    None => Reply::Failed(NO_SUCH_DATA),
                }
            }
            Request::GetImmutable { name } => {
                self.log.push("GetImmutable");
                match self.immutable.get(&name.0.to_vec()) {
                    Some(data) => Reply::Bytes(data.clone()),
                    None => Reply::Failed(NO_SUCH_DATA),
                }
            }
            Request::PutImmutable { data } => {
                self.log.push("PutImmutable");
                Reply::Name(self.put_immutable(data))
            }
            Request::PutVersioned { id, tag, version } => {
                self.log.push("PutVersioned");
                self.versioned.insert((id.0.to_vec(), tag), vec![version]);
                Reply::Done
            }
            Request::PostVersioned { id, tag, version } => {
                self.log.push("PostVersioned");
                match self.versioned.get_mut(&(id.0.to_vec(), tag)) {
                    Some(versions) => {
                        versions.push(version);
                        Reply::Done
                    }
                    None => Reply::Failed(NO_SUCH_DATA),
                }
            }
            Request::PutUnversioned { id, tag, payload, seal } => {
                self.log.push("PutUnversioned");
                self.unversioned.insert((id.0.to_vec(), tag), (0, seal_payload(payload, &seal)));
                Reply::Done
            }
            Request::PostUnversioned { id, tag, payload, seal } => {
                self.log.push("PostUnversioned");
                match self.unversioned.get_mut(&(id.0.to_vec(), tag)) {
                    Some(entry) => {
                        *entry = (entry.0 + 1, seal_payload(payload, &seal));
                        Reply::Done
                    }
                    None => Reply::Failed(NO_SUCH_DATA),
                }
            }
            Request::SelfEncrypt { content } => {
                self.log.push("SelfEncrypt");
                if content.is_empty() {
                    Reply::DataMap(DataMap::Empty)
                } else if content.len() < 3 {
                    Reply::DataMap(DataMap::Content(content))
                } else {
                    let source_size = content.len() as u64;
                    let pre_hash = name_of(&content).0[..8].to_vec();
                    let name = self.put_immutable(content);
                    Reply::DataMap(DataMap::Chunks(vec![ChunkDetails {
                        chunk_num: 0,
                        hash: name.0.to_vec(),
                        pre_hash,
                        source_size,
                    }]))
                }
            }
            Request::SelfDecrypt { data_map } => {
                self.log.push("SelfDecrypt");
                match data_map {
                    DataMap::Empty => Reply::Bytes(Vec::new()),
                    DataMap::Content(content) => Reply::Bytes(content),
                    DataMap::Chunks(chunks) => {
                        let mut content = Vec::new();
                        for chunk in chunks.iter() {
                            match self.immutable.get(&chunk.hash) {
                                Some(data) => content.extend_from_slice(data),
                                None => return Reply::Failed(NO_SUCH_DATA),
                            }
                        }
                        Reply::Bytes(content)
                    }
                }
            }
            Request::HybridEncrypt { plain, nonce } => {
                self.log.push("HybridEncrypt");
                Reply::Bytes(seal(&plain, &nonce))
            }
            Request::HybridDecrypt { sealed, nonce } => {
                self.log.push("HybridDecrypt");
                match open(&sealed, &nonce) {
                    Some(plain) => Reply::Bytes(plain),
                    None => Reply::Failed(DECIPHER_FAILURE),
                }
            }
            Request::UserRootDirectoryId => Reply::RootId(self.user_root),
            Request::SetUserRootDirectoryId { id } => {
                self.user_root = Some(id);
                Reply::Done
            }
            Request::ConfigurationRootDirectoryId => Reply::RootId(self.configuration_root),
            Request::SetConfigurationRootDirectoryId { id } => {
                self.configuration_root = Some(id);
                Reply::Done
            }
        }
    }

    fn run<S>(&mut self, turn: Turn<S>, step: fn(S, Reply) -> Turn<S>) -> S {
        let mut turn = turn;
        loop {
            match turn.request {
                Some(request) => {
                    let reply = self.perform(request);
                    turn = step(turn.state, reply);
                }
                None => return turn.state,
            }
        }
    }

    fn version_count(&self, key: &DirectoryKey) -> usize {
        self.versioned
            .get(&(key.get_id().0.to_vec(), key.get_type_tag()))
            .map(|versions| versions.len())
            .unwrap_or(0)
    }

    fn create(
        &mut self,
        name: &str,
        tag: u64,
        user_metadata: Vec<u8>,
        versioned: bool,
        access_level: AccessLevel,
        parent: Option<DirectoryListing>,
    ) -> Result<(DirectoryListing, Option<DirectoryListing>, Option<DirectoryListing>), NfsError>
    {
        let turn = DirectoryHelper::new().create(
            name.to_string(),
            tag,
            user_metadata,
            versioned,
            access_level,
            parent,
        );
        self.run(turn, Creation::step).finish().expect("the creation has ended")
    }

    fn get(&mut self, key: &DirectoryKey) -> Result<DirectoryListing, NfsError> {
        let turn = DirectoryHelper::new().get(key);
        self.run(turn, Fetch::step).finish().expect("the fetch has ended")
    }

    fn get_by_version(
        &mut self,
        id: &NetworkName,
        access_level: &AccessLevel,
        version: NetworkName,
    ) -> Result<DirectoryListing, NfsError> {
        let turn = DirectoryHelper::new().get_by_version(id, access_level, version);
        self.run(turn, Fetch::step).finish().expect("the fetch has ended")
    }

    fn get_versions(&mut self, id: &NetworkName, tag: u64) -> Result<Vec<NetworkName>, NfsError> {
        let turn = DirectoryHelper::new().get_versions(id, tag);
        self.run(turn, Versions::step).finish().expect("the asking has ended")
    }

    fn update(&mut self, turn: Turn<Update>) -> Result<Option<DirectoryListing>, NfsError> {
        self.run(turn, Update::step).finish().expect("the update has ended")
    }

    fn close(
        &mut self,
        writer: Writer,
    ) -> Result<(DirectoryListing, Option<DirectoryListing>), NfsError> {
        self.run(writer.close(), Closing::step).finish().expect("the closing has ended")
    }

    fn writer(&mut self, turn: Turn<Preparation>) -> Result<Writer, NfsError> {
        self.run(turn, Preparation::step).finish().expect("the writer is made")
    }

    fn reader(&mut self, turn: Turn<Reading>) -> Result<Reader, NfsError> {
        self.run(turn, Reading::step).finish().expect("the opening has ended")
    }

    fn history(&mut self, turn: Turn<History>) -> Result<Vec<File>, NfsError> {
        self.run(turn, History::step).finish().expect("the search has ended")
    }

    fn user_root(&mut self) -> Result<DirectoryListing, NfsError> {
        let turn = DirectoryHelper::new().get_user_root_directory_listing();
        self.run(turn, UserRoot::step).finish().expect("the search has ended")
    }

    fn configuration(&mut self, name: &str) -> Result<DirectoryListing, NfsError> {
        let turn = DirectoryHelper::new().get_configuration_directory_listing(name.to_string());
        self.run(turn, Configuration::step).finish().expect("the search has ended")
    }

    fn authorise(&mut self, turn: Turn<Authorisation>) -> Result<Container, NfsError> {
        self.run(turn, Authorisation::step).finish().expect("the fetching has ended")
    }

    fn create_container(
        &mut self,
        container: &mut Container,
        name: &str,
        versioned: bool,
        access_level: AccessLevel,
    ) -> Result<Container, NfsError> {
        let turn = container.create(name.to_string(), versioned, access_level)?;
        let (directory, parent, _) =
            self.run(turn, Creation::step).finish().expect("the creation has ended")?;
        container.refresh(parent.expect("the container holds the new one"));
        Ok(Container::with_listing(directory))
    }

    fn copy(
        &mut self,
        turn: Turn<Copying>,
    ) -> Result<(DirectoryListing, Option<DirectoryListing>), NfsError> {
        self.run(turn, Copying::step).finish().expect("the copying has ended")
    }
}

#[test]
fn encrypt_and_decrypt_directory_listing() {
    let mut network = Network::new();
    let directory_listing = DirectoryListing::new(
        "Home".to_string(),
        10,
        Vec::new(),
        true,
        AccessLevel::Private,
        None,
    )
    .unwrap();
    let encrypted_data = network
        .run(directory_listing.encrypt(), Encryption::step)
        .finish()
        .unwrap()
        .unwrap();
    let decrypted_listing = network
        .run(
            DirectoryListing::decrypt(directory_listing.get_key().get_id(), encrypted_data),
            Decryption::step,
        )
        .finish()
        .unwrap()
        .unwrap();
    assert_eq!(directory_listing, decrypted_listing);
}

#[test]
fn decrypt_under_another_identifier_fails() {
    let mut network = Network::new();
    let directory_listing = DirectoryListing::new(
        "Home".to_string(),
        10,
        Vec::new(),
        true,
        AccessLevel::Private,
        None,
    )
    .unwrap();
    let encrypted_data = network
        .run(directory_listing.encrypt(), Encryption::step)
        .finish()
        .unwrap()
        .unwrap();
    let other = NetworkName::new([7u8; 64]);
    let decrypted = network
        .run(DirectoryListing::decrypt(&other, encrypted_data), Decryption::step)
        .finish()
        .unwrap();
    assert_eq!(decrypted, Err(NfsError::NetworkError(DECIPHER_FAILURE)));
}

#[test]
fn create_dir_listing() {
    let mut network = Network::new();
    // Create a Directory
    let (mut directory, _, grand_parent) = network
        .create("DirName", VERSIONED_DIRECTORY_LISTING_TAG, Vec::new(), true, AccessLevel::Private, None)
        .unwrap();
    assert!(grand_parent.is_none());
    assert_eq!(directory, network.get(directory.get_key()).unwrap());
    // Create a Child directory and update the parent_directory
    let (mut child_directory, parent, grand_parent) = network
        .create(
            "Child",
            VERSIONED_DIRECTORY_LISTING_TAG,
            Vec::new(),
            true,
            AccessLevel::Private,
            Some(directory.clone()),
        )
        .unwrap();
    directory = parent.unwrap();
    assert!(grand_parent.is_none());
    // Assert whether parent is updated
    let parent = network.get(directory.get_key()).unwrap();
    assert!(parent.find_sub_directory(child_directory.get_metadata().get_name()).is_some());

    let (grand_child_directory, parent, grand_parent) = network
        .create(
            "Grand Child",
            VERSIONED_DIRECTORY_LISTING_TAG,
            Vec::new(),
            true,
            AccessLevel::Private,
            Some(child_directory.clone()),
        )
        .unwrap();
    child_directory = parent.unwrap();
    assert!(network
        .create(
            "Grand Child",
            VERSIONED_DIRECTORY_LISTING_TAG,
            Vec::new(),
            true,
            AccessLevel::Private,
            Some(child_directory.clone()),
        )
        .is_err());
    assert!(grand_parent.is_some());
    let grand_parent = grand_parent.expect("Grand Parent Should be updated");
    assert_eq!(*grand_parent.get_metadata().get_name(), *directory.get_metadata().get_name());
    assert_eq!(
        *grand_parent.get_metadata().get_modified_time(),
        *grand_child_directory.get_metadata().get_modified_time()
    );
}

#[test]
fn create_an_existing_name_is_refused_before_the_network_is_asked() {
    let mut network = Network::new();
    let (home, _, _) = network
        .create("Home", VERSIONED_DIRECTORY_LISTING_TAG, Vec::new(), true, AccessLevel::Private, None)
        .unwrap();
    let (_, home, _) = network
        .create(
            "Child",
            VERSIONED_DIRECTORY_LISTING_TAG,
            Vec::new(),
            true,
            AccessLevel::Private,
            Some(home),
        )
        .unwrap();
    let asked = network.log.len();
    let again = network.create(
        "Child",
        VERSIONED_DIRECTORY_LISTING_TAG,
        Vec::new(),
        true,
        AccessLevel::Private,
        home,
    );
    assert_eq!(again.err(), Some(NfsError::DirectoryAlreadyExistsWithSameName));
    assert_eq!(network.log.len(), asked);
}

#[test]
fn create_versioned_public_directory() {
    let mut network = Network::new();
    let public_directory;
    {
        let (directory, _, _) = network
            .create(
                "PublicDirectory",
                VERSIONED_DIRECTORY_LISTING_TAG,
                vec![2u8, 10],
                true,
                AccessLevel::Public,
                None,
            )
            .unwrap();
        public_directory = directory;
    }
    {
        let retrieved_public_directory = network.get(public_directory.get_key()).unwrap();
        assert_eq!(retrieved_public_directory, public_directory);
    }
    assert!(!network.log.contains(&"HybridEncrypt"));
    assert!(!network.log.contains(&"HybridDecrypt"));
}

#[test]
fn create_unversioned_public_directory() {
    let mut network = Network::new();
    let public_directory;
    {
        let (directory, _, _) = network
            .create(
                "PublicDirectory",
                UNVERSIONED_DIRECTORY_LISTING_TAG,
                vec![2u8, 10],
                false,
                AccessLevel::Public,
                None,
            )
            .unwrap();
        public_directory = directory;
    }
    {
        let retrieved_public_directory = network.get(public_directory.get_key()).unwrap();
        assert_eq!(retrieved_public_directory, public_directory);
    }
    assert_eq!(network.log, vec!["PutUnversioned", "GetPayload"]);
}

#[test]
fn user_root_configuration() {
    let mut network = Network::new();
    let root_dir = network.user_root().unwrap();
    assert_eq!(root_dir.get_metadata().get_name(), "USER_ROOT");
    assert!(!root_dir.get_key().is_versioned());
    assert_eq!(*root_dir.get_key().get_access_level(), AccessLevel::Private);
    assert!(root_dir.get_metadata().get_parent_dir_key().is_none());
    let (created_dir, _, _) = network
        .create(
            "DirName",
            VERSIONED_DIRECTORY_LISTING_TAG,
            Vec::new(),
            true,
            AccessLevel::Private,
            Some(root_dir),
        )
        .unwrap();
    let root_dir = network.user_root().unwrap();
    assert!(root_dir.find_sub_directory(created_dir.get_metadata().get_name()).is_some());
}

#[test]
fn configuration_directory() {
    let mut network = Network::new();
    let config_dir = network.configuration("DNS").unwrap();
    assert_eq!(config_dir.get_metadata().get_name().clone(), "DNS".to_string());
    let id = config_dir.get_key().get_id().clone();
    let config_dir = network.configuration("DNS").unwrap();
    assert_eq!(config_dir.get_key().get_id().clone(), id);
    let root = network
        .get(&DirectoryKey::new(
            network.configuration_root.unwrap(),
            UNVERSIONED_DIRECTORY_LISTING_TAG,
            false,
            AccessLevel::Private,
        ))
        .unwrap();
    assert_eq!(root.get_metadata().get_name(), "CONFIGURATION_ROOT");
    assert_eq!(root.get_sub_directories().len(), 1);
}

#[test]
fn update_and_versioning() {
    let mut network = Network::new();
    let dir_helper = DirectoryHelper::new();
    let (mut dir_listing, _, _) = network
        .create("DirName2", VERSIONED_DIRECTORY_LISTING_TAG, Vec::new(), true, AccessLevel::Private, None)
        .unwrap();

    let mut versions = network
        .get_versions(dir_listing.get_key().get_id(), dir_listing.get_key().get_type_tag())
        .unwrap();
    assert_eq!(versions.len(), 1);

    dir_listing.get_mut_metadata().set_name("NewName".to_string());
    assert!(network.update(dir_helper.update(&dir_listing)).is_ok());

    versions = network
        .get_versions(dir_listing.get_key().get_id(), dir_listing.get_key().get_type_tag())
        .unwrap();
    assert_eq!(versions.len(), 2);

    let rxd_dir_listing = network
        .get_by_version(
            dir_listing.get_key().get_id(),
            dir_listing.get_key().get_access_level(),
            versions[versions.len() - 1].clone(),
        )
        .unwrap();
    assert_eq!(rxd_dir_listing, dir_listing);

    let rxd_dir_listing = network
        .get_by_version(
            dir_listing.get_key().get_id(),
            dir_listing.get_key().get_access_level(),
            versions[0].clone(),
        )
        .unwrap();
    assert_eq!(*rxd_dir_listing.get_metadata().get_name(), "DirName2".to_string());

    // the newest state is the last version
    assert_eq!(network.get(dir_listing.get_key()).unwrap(), dir_listing);
}

#[test]
fn delete_directory() {
    let mut network = Network::new();
    let dir_helper = DirectoryHelper::new();
    // Create a Directory
    let (mut directory, _, grand_parent) = network
        .create("DirName", VERSIONED_DIRECTORY_LISTING_TAG, Vec::new(), true, AccessLevel::Private, None)
        .unwrap();
    assert!(grand_parent.is_none());
    assert_eq!(directory, network.get(directory.get_key()).unwrap());
    // Create a Child directory and update the parent_directory
    let (mut child_directory, parent, grand_parent) = network
        .create(
            "Child",
            VERSIONED_DIRECTORY_LISTING_TAG,
            Vec::new(),
            true,
            AccessLevel::Private,
            Some(directory.clone()),
        )
        .unwrap();
    directory = parent.unwrap();
    assert!(grand_parent.is_none());
    // Assert whether parent is updated
    let parent = network.get(directory.get_key()).unwrap();
    assert!(parent.find_sub_directory(child_directory.get_metadata().get_name()).is_some());

    let (grand_child_directory, parent, grand_parent) = network
        .create(
            "Grand Child",
            VERSIONED_DIRECTORY_LISTING_TAG,
            Vec::new(),
            true,
            AccessLevel::Private,
            Some(child_directory.clone()),
        )
        .unwrap();
    child_directory = parent.unwrap();

    directory = grand_parent.expect("Grand Parent Should be updated");

    let turn = dir_helper
        .delete(&mut child_directory, grand_child_directory.get_metadata().get_name())
        .unwrap();
    let delete_result = network.update(turn).unwrap();
    let updated_grand_parent = delete_result.expect("Parent directory should be returned");
    assert_eq!(*updated_grand_parent.get_metadata().get_id(), *directory.get_metadata().get_id());
    directory = updated_grand_parent;

    let versions_before = network.version_count(directory.get_key());
    let turn = dir_helper.delete(&mut directory, child_directory.get_metadata().get_name()).unwrap();
    let delete_result = network.update(turn).unwrap();
    assert!(delete_result.is_none());
    assert_eq!(network.version_count(directory.get_key()), versions_before + 1);
    assert!(network
        .get(directory.get_key())
        .unwrap()
        .find_sub_directory(child_directory.get_metadata().get_name())
        .is_none());

    let missing = dir_helper.delete(&mut directory, &"Child".to_string());
    assert_eq!(missing.err(), Some(NfsError::DirectoryNotFound));
}

#[test]
fn directory_crud_adds_two_versions_to_the_root() {
    let mut network = Network::new();
    let (root, _, _) = network
        .create("Root", VERSIONED_DIRECTORY_LISTING_TAG, Vec::new(), true, AccessLevel::Private, None)
        .unwrap();
    let before = network.version_count(root.get_key());
    let (_, root, _) = network
        .create(
            "DirName",
            VERSIONED_DIRECTORY_LISTING_TAG,
            Vec::new(),
            true,
            AccessLevel::Private,
            Some(root),
        )
        .unwrap();
    let mut root = root.unwrap();
    assert!(network
        .get(root.get_key())
        .unwrap()
        .find_sub_directory(&"DirName".to_string())
        .is_some());
    let turn = DirectoryHelper::new().delete(&mut root, &"DirName".to_string()).unwrap();
    network.update(turn).unwrap();
    assert!(network
        .get(root.get_key())
        .unwrap()
        .find_sub_directory(&"DirName".to_string())
        .is_none());
    assert_eq!(network.version_count(root.get_key()), before + 2);
}

#[test]
fn a_parent_is_posted_only_after_its_child() {
    let mut network = Network::new();
    let (home, _, _) = network
        .create("Home", UNVERSIONED_DIRECTORY_LISTING_TAG, Vec::new(), false, AccessLevel::Public, None)
        .unwrap();
    network.log.clear();
    network
        .create(
            "Child",
            UNVERSIONED_DIRECTORY_LISTING_TAG,
            Vec::new(),
            false,
            AccessLevel::Public,
            Some(home),
        )
        .unwrap();
    assert_eq!(network.log, vec!["PutUnversioned", "PostUnversioned"]);
}

#[test]
fn file_crud() {
    let mut network = Network::new();
    let (mut directory, _, _) = network
        .create("DirName", VERSIONED_DIRECTORY_LISTING_TAG, Vec::new(), true, AccessLevel::Private, None)
        .unwrap();
    let file_helper = FileHelper::new();
    let file_name = "hello.txt".to_string();
    {
        // create
        let mut writer = file_helper.create(file_name.clone(), Vec::new(), directory).unwrap();
        writer.write(&vec![0u8; 100], 0);
        directory = network.close(writer).unwrap().0;
        assert!(directory.find_file(&file_name).is_some());
    }
    let id = directory.find_file(&file_name).unwrap().get_id().clone();
    {
        // read
        let file = directory.find_file(&file_name).expect("File not found");
        let reader = network.reader(file_helper.read(file)).unwrap();
        let size = reader.size();
        assert_eq!(reader.read(0, size).unwrap(), vec![0u8; 100]);
        assert_eq!(file.get_metadata().get_size(), 100);
    }
    {
        // update - full rewrite
        let file = directory.find_file(&file_name).map(|file| file.clone()).expect("File not found");
        let mut writer = network
            .writer(file_helper.update(file, Mode::Overwrite, directory).unwrap())
            .unwrap();
        writer.write(&vec![1u8; 50], 0);
        directory = network.close(writer).unwrap().0;
        let file = directory.find_file(&file_name).expect("File not found");
        let reader = network.reader(file_helper.read(file)).unwrap();
        let size = reader.size();
        assert_eq!(reader.read(0, size).unwrap(), vec![1u8; 50]);
    }
    {
        // update - partial rewrite
        let file = directory.find_file(&file_name).map(|file| file.clone()).expect("File not found");
        let mut writer = network
            .writer(file_helper.update(file, Mode::Modify, directory).unwrap())
            .unwrap();
        writer.write(&vec![2u8; 10], 0);
        directory = network.close(writer).unwrap().0;
        let file = directory.find_file(&file_name).expect("File not found");
        let reader = network.reader(file_helper.read(file)).unwrap();
        let size = reader.size();
        let data = reader.read(0, size).unwrap();
        assert_eq!(&data[0..10], [2u8; 10]);
        assert_eq!(&data[10..20], [1u8; 10]);
        assert_eq!(size, 50);
    }
    // the file is who it was
    assert_eq!(*directory.find_file(&file_name).unwrap().get_id(), id);
    assert_eq!(directory.get_files().len(), 1);
    {
        // versions
        let file = directory.find_file(&file_name).map(|file| file.clone()).expect("File not found");
        let versions = network.history(file_helper.get_versions(&file, &directory)).unwrap();
        assert_eq!(versions.len(), 3);
    }
    {
        // Update Metadata
        let mut file =
            directory.find_file(&file_name).map(|file| file.clone()).expect("File not found");
        file.get_mut_metadata().set_user_metadata(vec![12u8; 10]);
        let turn = file_helper.update_metadata(file, &mut directory).unwrap();
        network.update(turn).unwrap();
        let file = directory.find_file(&file_name).map(|file| file.clone()).expect("File not found");
        assert_eq!(*file.get_metadata().get_user_metadata(), vec![12u8; 10]);
        assert_eq!(*file.get_id(), id);
    }
    {
        // Delete
        let turn = file_helper.delete(file_name.clone(), &mut directory).unwrap();
        network.update(turn).unwrap();
        assert!(directory.find_file(&file_name).is_none());
        assert_eq!(network.get(directory.get_key()).unwrap(), directory);
    }
}

#[test]
fn a_stale_file_is_refused() {
    let mut network = Network::new();
    let (directory, _, _) = network
        .create("DirName", VERSIONED_DIRECTORY_LISTING_TAG, Vec::new(), true, AccessLevel::Private, None)
        .unwrap();
    let file_helper = FileHelper::new();
    let mut writer = file_helper.create("hello.txt".to_string(), Vec::new(), directory).unwrap();
    writer.write(&[1, 2, 3, 4], 0);
    let directory = network.close(writer).unwrap().0;
    let mut stale = directory.find_file(&"hello.txt".to_string()).unwrap().clone();
    stale.get_mut_metadata().set_size(99);
    let refused = file_helper.update(stale, Mode::Overwrite, directory.clone());
    assert_eq!(refused.err(), Some(NfsError::FileDoesNotMatch));
    let mut unknown = directory.find_file(&"hello.txt".to_string()).unwrap().clone();
    unknown.get_mut_metadata().set_name("other.txt".to_string());
    let refused = file_helper.update(unknown, Mode::Overwrite, directory.clone());
    assert_eq!(refused.err(), Some(NfsError::FileNotFound));
    let again = file_helper.create("hello.txt".to_string(), Vec::new(), directory);
    assert_eq!(again.err(), Some(NfsError::FileAlreadyExistsWithSameName));
}

#[test]
fn file_versions_in_an_unversioned_directory_are_one_at_most() {
    let mut network = Network::new();
    let (directory, _, _) = network
        .create("Plain", UNVERSIONED_DIRECTORY_LISTING_TAG, Vec::new(), false, AccessLevel::Private, None)
        .unwrap();
    let file_helper = FileHelper::new();
    let mut writer = file_helper.create("a.txt".to_string(), Vec::new(), directory).unwrap();
    writer.write(&[9u8; 5], 0);
    let directory = network.close(writer).unwrap().0;
    let file = directory.find_file(&"a.txt".to_string()).unwrap().clone();
    let mut writer = network
        .writer(file_helper.update(file, Mode::Overwrite, directory).unwrap())
        .unwrap();
    writer.write(&[8u8; 5], 0);
    let directory = network.close(writer).unwrap().0;
    let file = directory.find_file(&"a.txt".to_string()).unwrap().clone();
    network.log.clear();
    let versions = network.history(file_helper.get_versions(&file, &directory)).unwrap();
    assert_eq!(versions, vec![file]);
    assert!(network.log.is_empty());
}

#[test]
fn a_failure_of_the_network_is_passed_on() {
    let mut network = Network::new();
    let key = DirectoryKey::new(
        NetworkName::new([3u8; 64]),
        VERSIONED_DIRECTORY_LISTING_TAG,
        true,
        AccessLevel::Private,
    );
    assert_eq!(network.get(&key).err(), Some(NfsError::NetworkError(NO_SUCH_DATA)));
    network.versioned.insert((vec![3u8; 64], VERSIONED_DIRECTORY_LISTING_TAG), Vec::new());
    assert_eq!(network.get(&key).err(), Some(NfsError::VersionNotFound));
    let turn = DirectoryHelper::new().get(&key);
    let next = turn.state.step(Reply::Done);
    assert!(next.request.is_none());
    assert_eq!(next.state.finish(), Some(Err(NfsError::UnexpectedReply)));
    let name = network.put_immutable(vec![1, 2, 3]);
    assert_eq!(
        network.get_by_version(key.get_id(), &AccessLevel::Public, name).err(),
        Some(NfsError::SerialisationFailed)
    );
}

#[test]
fn without_randomness_nothing_is_created() {
    let begun = Creation::begin(
        "Home".to_string(),
        VERSIONED_DIRECTORY_LISTING_TAG,
        Vec::new(),
        true,
        AccessLevel::Private,
        None,
        None,
    );
    assert!(begun.request.is_none());
    assert_eq!(begun.state.finish().unwrap().err(), Some(NfsError::RandomnessUnavailable));
    let seed = Seed { id: NetworkName::new([4u8; 64]), now: Time::new(10, 20) };
    let begun = Creation::begin(
        "Home".to_string(),
        UNVERSIONED_DIRECTORY_LISTING_TAG,
        vec![1],
        false,
        AccessLevel::Public,
        None,
        Some(seed),
    );
    match begun.request {
        Some(Request::PutUnversioned { id, tag, seal, .. }) => {
            assert_eq!(id, NetworkName::new([4u8; 64]));
            assert_eq!(tag, UNVERSIONED_DIRECTORY_LISTING_TAG);
            assert_eq!(seal, None);
        }
        other => panic!("unexpected request {:?}", other),
    }
}

fn root_container(network: &mut Network) -> Container {
    network.authorise(Container::authorise(None)).unwrap()
}

#[test]
fn authorise_container() {
    let mut network = Network::new();
    let root_dir = root_container(&mut network);
    let root_dir_second = root_container(&mut network);
    assert_eq!(
        root_dir.get_info().convert_to_directory_info().get_key().get_id(),
        root_dir_second.get_info().convert_to_directory_info().get_key().get_id()
    );

    let root_dir_from_info =
        network.authorise(Container::authorise(Some(root_dir.get_info()))).unwrap();
    assert_eq!(
        root_dir.get_info().convert_to_directory_info().get_key().get_id(),
        root_dir_from_info.get_info().convert_to_directory_info().get_key().get_id()
    );
}

#[test]
fn create_container() {
    let mut network = Network::new();
    let mut container = root_container(&mut network);
    network.create_container(&mut container, "Home", true, AccessLevel::Private).unwrap();

    assert_eq!(container.get_containers().len(), 1);
    assert_eq!(container.get_containers()[0].get_name(), "Home");

    let empty = container.create("".to_string(), true, AccessLevel::Private);
    assert_eq!(empty.err(), Some(NfsError::ParameterInvalid));
    let again = container.create("Home".to_string(), true, AccessLevel::Private);
    assert_eq!(again.err(), Some(NfsError::DirectoryAlreadyExistsWithSameName));
}

#[test]
fn delete_container() {
    let mut network = Network::new();
    let dir_name = "Home".to_string();
    let mut container = root_container(&mut network);
    network.create_container(&mut container, "Home", true, AccessLevel::Private).unwrap();

    assert_eq!(container.get_containers().len(), 1);
    assert_eq!(container.get_containers()[0].get_name(), "Home");

    let turn = container.delete_container(&dir_name).unwrap();
    network.update(turn).unwrap();

    assert_eq!(container.get_containers().len(), 0);
}

#[test]
fn create_update_delete_blob() {
    let mut network = Network::new();
    let mut container = root_container(&mut network);
    let mut home_container =
        network.create_container(&mut container, "Home", true, AccessLevel::Private).unwrap();

    assert_eq!(container.get_containers().len(), 1);
    assert_eq!(container.get_containers()[0].get_name(), "Home");

    let mut writer = home_container.create_blob("sample.txt".to_string(), None).unwrap();
    let data = "Hello World!".to_string().into_bytes();
    writer.write(&data[..], 0);
    network.close(writer).unwrap();

    home_container = network
        .authorise(container.get_container(&home_container.get_info(), None))
        .unwrap();
    let versions = network
        .history(home_container.get_blob_versions(&"sample.txt".to_string()).unwrap())
        .unwrap();
    assert_eq!(versions.len(), 1);
    let blob = home_container.get_blob("sample.txt".to_string()).unwrap();
    let reader = network.reader(home_container.get_blob_content(&blob).unwrap()).unwrap();
    assert_eq!(reader.read(0, reader.size()).unwrap(), data);

    let data_updated = "Hello World updated!".to_string().into_bytes();
    let closing = home_container.update_blob_content(&blob, &data_updated[..]).unwrap();
    network.run(closing, Closing::step).finish().unwrap().unwrap();
    home_container = network
        .authorise(container.get_container(&home_container.get_info(), None))
        .unwrap();
    let blob = home_container.get_blob("sample.txt".to_string()).unwrap();
    let reader = network.reader(home_container.get_blob_content(&blob).unwrap()).unwrap();
    assert_eq!(reader.read(0, reader.size()).unwrap(), data_updated);

    // Assert versions
    let versions = network
        .history(home_container.get_blob_versions(&"sample.txt".to_string()).unwrap())
        .unwrap();
    assert_eq!(versions.len(), 2);
    for i in 0..2 {
        let reader = network.reader(FileHelper::new().read(&versions[i])).unwrap();
        if i == 0 {
            assert_eq!(reader.read(0, reader.size()).unwrap(), data);
        } else {
            assert_eq!(reader.read(0, reader.size()).unwrap(), data_updated);
        }
    }
    let metadata = "{\"purpose\": \"test\"}".to_string();
    let turn = home_container.update_blob_metadata(blob, Some(metadata.clone())).unwrap();
    network.update(turn).unwrap();
    let blob = home_container.get_blob("sample.txt".to_string()).unwrap();
    assert_eq!(blob.get_metadata(), metadata);

    let mut docs_container =
        network.create_container(&mut container, "Docs", true, AccessLevel::Private).unwrap();
    assert_eq!(docs_container.get_blobs().len(), 0);
    let copying = home_container
        .copy_blob(&"sample.txt".to_string(), &docs_container.get_info())
        .unwrap();
    network.copy(copying).unwrap();
    docs_container = network
        .authorise(container.get_container(&docs_container.get_info(), None))
        .unwrap();
    assert_eq!(docs_container.get_blobs().len(), 1);
    assert_eq!(
        docs_container.get_blobs()[0].convert_to_file().get_id(),
        home_container.get_blobs()[0].convert_to_file().get_id()
    );

    // a second copy is refused, and so is a copy onto the container itself
    let copying = home_container
        .copy_blob(&"sample.txt".to_string(), &docs_container.get_info())
        .unwrap();
    assert_eq!(network.copy(copying).err(), Some(NfsError::FileAlreadyExistsWithSameName));
    let onto_itself =
        home_container.copy_blob(&"sample.txt".to_string(), &home_container.get_info());
    assert_eq!(onto_itself.err(), Some(NfsError::DestinationAndSourceAreSame));
    let missing = home_container.copy_blob(&"none.txt".to_string(), &docs_container.get_info());
    assert_eq!(missing.err(), Some(NfsError::FileNotFound));

    let turn = home_container.delete_blob("sample.txt".to_string()).unwrap();
    network.update(turn).unwrap();
    assert_eq!(home_container.get_blobs().len(), 0);

    // the copy can still be read
    let blob = docs_container.get_blob("sample.txt".to_string()).unwrap();
    let reader = network.reader(docs_container.get_blob_reader(&blob).unwrap()).unwrap();
    assert_eq!(reader.read(0, reader.size()).unwrap(), data_updated);
}

#[test]
fn blobs_are_checked_before_the_network_is_asked() {
    let mut network = Network::new();
    let mut container = root_container(&mut network);
    let home = network.create_container(&mut container, "Home", true, AccessLevel::Private).unwrap();
    assert_eq!(
        home.create_blob("".to_string(), None).err(),
        Some(NfsError::ParameterInvalid)
    );
    assert_eq!(
        home.create_blob("a.txt".to_string(), Some("".to_string())).err(),
        Some(NfsError::ParameterInvalid)
    );
    assert_eq!(home.get_blob("a.txt".to_string()).err(), Some(NfsError::FileNotFound));
    assert_eq!(
        home.get_blob_versions(&"a.txt".to_string()).err(),
        Some(NfsError::FileNotFound)
    );
    assert_eq!(
        Container::validate_metadata(Some("ab".to_string())),
        Ok(vec![b'a', b'b'])
    );
    assert_eq!(Container::validate_metadata(None), Ok(Vec::new()));
}

#[test]
fn a_change_goes_up_to_the_root() {
    let mut network = Network::new();
    let tag = UNVERSIONED_DIRECTORY_LISTING_TAG;
    let (home, _, _) =
        network.create("Home", tag, Vec::new(), false, AccessLevel::Private, None).unwrap();
    let (_, home, _) =
        network.create("A", tag, Vec::new(), false, AccessLevel::Private, Some(home)).unwrap();
    let home = home.unwrap();
    let a = network
        .get(home.find_sub_directory(&"A".to_string()).unwrap().get_key())
        .unwrap();
    let (b, _, _) =
        network.create("B", tag, Vec::new(), false, AccessLevel::Private, Some(a)).unwrap();
    network.log.clear();
    let (c, b, a) =
        network.create("C", tag, Vec::new(), false, AccessLevel::Private, Some(b)).unwrap();
    let (b, a) = (b.unwrap(), a.unwrap());
    // C is put, B is posted, and then A and Home are fetched and posted in their turn
    assert_eq!(
        network.log,
        vec![
            "PutUnversioned",
            "PostUnversioned",
            "GetPayload",
            "PostUnversioned",
            "GetPayload",
            "PostUnversioned"
        ]
    );
    let stamp = *c.get_metadata().get_modified_time();
    assert_eq!(a.get_metadata().get_name(), "A");
    assert_eq!(*b.get_metadata().get_modified_time(), stamp);
    assert_eq!(*a.get_metadata().get_modified_time(), stamp);
    let home = network.get(home.get_key()).unwrap();
    assert_eq!(*home.get_metadata().get_modified_time(), stamp);
    assert_eq!(
        *home.find_sub_directory(&"A".to_string()).unwrap().get_modified_time(),
        stamp
    );
    assert_eq!(network.get(a.get_key()).unwrap(), a);
    assert_eq!(network.get(b.get_key()).unwrap(), b);
}
