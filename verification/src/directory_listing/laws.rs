//! What holds of a directory through its changes: the order of its times, and that names
//! and identifiers stay apart.

use vstd::prelude::*;

use crate::directory_listing::directory_ids;
use crate::directory_listing::directory_names;
use crate::directory_listing::file_ids;
use crate::directory_listing::file_names;
use crate::directory_listing::DirectoryListingView;
use crate::file::FileView;
use crate::metadata::directory_metadata::DirectoryMetadataView;
use crate::views::first_position;
use crate::views::lemma_first_position;

verus! {

/// A directory without files and sub-directories has unique names and identifiers, and its
/// times are in order where those of its metadata are.
pub proof fn lemma_empty_directory(metadata: DirectoryMetadataView)
    ensures
        DirectoryListingView::empty(metadata).names_are_unique(),
        DirectoryListingView::empty(metadata).ids_are_unique(),
        DirectoryListingView::empty(metadata).times_are_in_order() == metadata.times_in_order(),
{
}

/// After a file was put in, the directory's times are in order exactly where the file was
/// modified no earlier than the directory was created and no earlier than every
/// sub-directory and every file that stays was modified.
pub proof fn lemma_upsert_file_times(directory: DirectoryListingView, file: FileView)
    ensures
        directory.upsert_file(file).times_are_in_order() <==> {
            &&& file.metadata.modified_time.at_or_after(directory.metadata.created_time)
            &&& forall|i: int|
                0 <= i < directory.files.len() && first_position(
                    file_ids(directory.files),
                    file.metadata.id,
                ) != Some(i) ==> file.metadata.modified_time.at_or_after(
                    #[trigger] directory.files[i].metadata.modified_time,
                )
            &&& forall|i: int|
                0 <= i < directory.sub_directories.len()
                    ==> file.metadata.modified_time.at_or_after(
                    #[trigger] directory.sub_directories[i].modified_time,
                )
        },
{
    let after = directory.upsert_file(file);
    let place = first_position(file_ids(directory.files), file.metadata.id);
    lemma_first_position(file_ids(directory.files), file.metadata.id);
    if after.times_are_in_order() {
        assert forall|i: int|
            0 <= i < directory.files.len() && place != Some(
                i,
            ) implies file.metadata.modified_time.at_or_after(
            #[trigger] directory.files[i].metadata.modified_time,
        ) by {
            assert(after.files[i] == directory.files[i]);
        }
    }
}

/// A directory whose times are in order keeps them so when a file is put in that was
/// modified no earlier than the directory was.
pub proof fn lemma_upsert_file_keeps_times(directory: DirectoryListingView, file: FileView)
    requires
        directory.times_are_in_order(),
        file.metadata.modified_time.at_or_after(directory.metadata.modified_time),
    ensures
        directory.upsert_file(file).times_are_in_order(),
{
    lemma_upsert_file_times(directory, file);
}

/// After the metadata of a sub-directory was put in, the directory's times are in order
/// exactly where the sub-directory was modified no earlier than the directory was created
/// and no earlier than every file and every sub-directory that stays was modified.
pub proof fn lemma_upsert_sub_directory_times(
    directory: DirectoryListingView,
    sub_directory: DirectoryMetadataView,
)
    ensures
        directory.upsert_sub_directory(sub_directory).times_are_in_order() <==> {
            &&& sub_directory.modified_time.at_or_after(directory.metadata.created_time)
            &&& forall|i: int|
                0 <= i < directory.sub_directories.len() && first_position(
                    directory_ids(directory.sub_directories),
                    sub_directory.key.spec_id(),
                ) != Some(i) ==> sub_directory.modified_time.at_or_after(
                    #[trigger] directory.sub_directories[i].modified_time,
                )
            &&& forall|i: int|
                0 <= i < directory.files.len() ==> sub_directory.modified_time.at_or_after(
                    #[trigger] directory.files[i].metadata.modified_time,
                )
        },
{
    let after = directory.upsert_sub_directory(sub_directory);
    let place = first_position(
        directory_ids(directory.sub_directories),
        sub_directory.key.spec_id(),
    );
    lemma_first_position(directory_ids(directory.sub_directories), sub_directory.key.spec_id());
    if after.times_are_in_order() {
        assert forall|i: int|
            0 <= i < directory.sub_directories.len() && place != Some(
                i,
            ) implies sub_directory.modified_time.at_or_after(
            #[trigger] directory.sub_directories[i].modified_time,
        ) by {
            assert(after.sub_directories[i] == directory.sub_directories[i]);
        }
    }
}

/// A directory whose times are in order keeps them so when the metadata of a sub-directory
/// is put in that was modified no earlier than the directory was.
pub proof fn lemma_upsert_sub_directory_keeps_times(
    directory: DirectoryListingView,
    sub_directory: DirectoryMetadataView,
)
    requires
        directory.times_are_in_order(),
        sub_directory.modified_time.at_or_after(directory.metadata.modified_time),
    ensures
        directory.upsert_sub_directory(sub_directory).times_are_in_order(),
{
    lemma_upsert_sub_directory_times(directory, sub_directory);
}

/// Taking out a file or a sub-directory keeps the times in order, the names unique and the
/// identifiers unique.
pub proof fn lemma_remove_keeps_order(directory: DirectoryListingView, name: Seq<char>)
    ensures
        match directory.remove_file(name) {
            Some(after) => {
                &&& directory.times_are_in_order() ==> after.times_are_in_order()
                &&& directory.names_are_unique() ==> after.names_are_unique()
                &&& directory.ids_are_unique() ==> after.ids_are_unique()
                &&& after.find_file(name) is Some ==> !directory.names_are_unique()
            },
            None => true,
        },
        match directory.remove_sub_directory(name) {
            Some(after) => {
                &&& directory.times_are_in_order() ==> after.times_are_in_order()
                &&& directory.names_are_unique() ==> after.names_are_unique()
                &&& directory.ids_are_unique() ==> after.ids_are_unique()
                &&& after.find_sub_directory(name) is Some ==> !directory.names_are_unique()
            },
            None => true,
        },
{
    lemma_first_position(file_names(directory.files), name);
    lemma_first_position(directory_names(directory.sub_directories), name);
    match directory.remove_file(name) {
        Some(after) => {
            let k = first_position(file_names(directory.files), name)->Some_0;
            assert forall|i: int| 0 <= i < after.files.len() implies after.files[i]
                == directory.files[if i < k {
                i
            } else {
                i + 1
            }] by {}
            if directory.names_are_unique() {
                assert forall|i: int, j: int|
                    0 <= i < after.files.len() && 0 <= j < after.files.len() && i
                        != j implies file_names(after.files)[i] != file_names(after.files)[j] by {
                    let i2 = if i < k { i } else { i + 1 };
                    let j2 = if j < k { j } else { j + 1 };
                    assert(file_names(directory.files)[i2] != file_names(directory.files)[j2]);
                }
            }
            if directory.ids_are_unique() {
                assert forall|i: int, j: int|
                    0 <= i < after.files.len() && 0 <= j < after.files.len() && i
                        != j implies file_ids(after.files)[i] != file_ids(after.files)[j] by {
                    let i2 = if i < k { i } else { i + 1 };
                    let j2 = if j < k { j } else { j + 1 };
                    assert(file_ids(directory.files)[i2] != file_ids(directory.files)[j2]);
                }
            }
            if directory.times_are_in_order() {
                assert forall|i: int|
                    0 <= i < after.files.len() implies after.metadata.modified_time.at_or_after(
                    #[trigger] after.files[i].metadata.modified_time,
                ) by {
                    let i2 = if i < k { i } else { i + 1 };
                    assert(after.files[i] == directory.files[i2]);
                }
            }
            if after.find_file(name) is Some {
                lemma_first_position(file_names(after.files), name);
                let m = first_position(file_names(after.files), name)->Some_0;
                let m2 = if m < k { m } else { m + 1 };
                assert(file_names(directory.files)[m2] == name);
                assert(file_names(directory.files)[k] == name);
            }
        },
        None => {},
    }
    match directory.remove_sub_directory(name) {
        Some(after) => {
            let k = first_position(directory_names(directory.sub_directories), name)->Some_0;
            assert forall|i: int|
                0 <= i < after.sub_directories.len() implies after.sub_directories[i]
                == directory.sub_directories[if i < k {
                i
            } else {
                i + 1
            }] by {}
            if directory.names_are_unique() {
                assert forall|i: int, j: int|
                    0 <= i < after.sub_directories.len() && 0 <= j < after.sub_directories.len()
                        && i != j implies directory_names(after.sub_directories)[i]
                    != directory_names(after.sub_directories)[j] by {
                    let i2 = if i < k { i } else { i + 1 };
                    let j2 = if j < k { j } else { j + 1 };
                    assert(directory_names(directory.sub_directories)[i2] != directory_names(
                        directory.sub_directories,
                    )[j2]);
                }
            }
            if directory.ids_are_unique() {
                assert forall|i: int, j: int|
                    0 <= i < after.sub_directories.len() && 0 <= j < after.sub_directories.len()
                        && i != j implies directory_ids(after.sub_directories)[i] != directory_ids(
                    after.sub_directories,
                )[j] by {
                    let i2 = if i < k { i } else { i + 1 };
                    let j2 = if j < k { j } else { j + 1 };
                    assert(directory_ids(directory.sub_directories)[i2] != directory_ids(
                        directory.sub_directories,
                    )[j2]);
                }
            }
            if directory.times_are_in_order() {
                assert forall|i: int|
                    0 <= i < after.sub_directories.len() implies after.metadata.modified_time.at_or_after(
                    #[trigger] after.sub_directories[i].modified_time,
                ) by {
                    let i2 = if i < k { i } else { i + 1 };
                    assert(after.sub_directories[i] == directory.sub_directories[i2]);
                }
            }
            if after.find_sub_directory(name) is Some {
                lemma_first_position(directory_names(after.sub_directories), name);
                let m = first_position(directory_names(after.sub_directories), name)->Some_0;
                let m2 = if m < k { m } else { m + 1 };
                assert(directory_names(directory.sub_directories)[m2] == name);
                assert(directory_names(directory.sub_directories)[k] == name);
            }
        },
        None => {},
    }
}

/// In a directory with unique names, putting a file in keeps the names unique exactly
/// where no file that stays bears the name of the file put in.
pub proof fn lemma_upsert_file_names(directory: DirectoryListingView, file: FileView)
    requires
        directory.names_are_unique(),
    ensures
        directory.upsert_file(file).names_are_unique() <==> (forall|i: int|
            0 <= i < directory.files.len() && #[trigger] directory.files[i].metadata.name
                == file.metadata.name ==> first_position(
                file_ids(directory.files),
                file.metadata.id,
            ) == Some(i)),
{
    let after = directory.upsert_file(file);
    let place = first_position(file_ids(directory.files), file.metadata.id);
    lemma_first_position(file_ids(directory.files), file.metadata.id);
    let before_names = file_names(directory.files);
    let after_names = file_names(after.files);
    let at = match place {
        Some(k) => k,
        None => directory.files.len() as int,
    };
    assert(after_names[at] == file.metadata.name);
    assert forall|i: int| 0 <= i < directory.files.len() && i != at implies after_names[i]
        == before_names[i] by {}
    let stays_apart = forall|i: int|
        0 <= i < directory.files.len() && #[trigger] directory.files[i].metadata.name
            == file.metadata.name ==> place == Some(i);
    if stays_apart {
        assert forall|i: int, j: int|
            0 <= i < after_names.len() && 0 <= j < after_names.len() && i
                != j implies after_names[i] != after_names[j] by {
            if i == at {
                assert(after_names[j] == before_names[j]);
                assert(directory.files[j].metadata.name == before_names[j]);
            } else if j == at {
                assert(after_names[i] == before_names[i]);
                assert(directory.files[i].metadata.name == before_names[i]);
            } else {
                assert(before_names[i] != before_names[j]);
            }
        }
    }
    if after.names_are_unique() {
        assert forall|i: int|
            0 <= i < directory.files.len() && #[trigger] directory.files[i].metadata.name
                == file.metadata.name implies place == Some(i) by {
            if i != at {
                assert(after_names[i] == before_names[i]);
                assert(after_names[i] != after_names[at]);
            }
        }
    }
}

/// In a directory with unique names, putting the metadata of a sub-directory in keeps the
/// names unique exactly where no sub-directory that stays bears the name of the one put in.
pub proof fn lemma_upsert_sub_directory_names(
    directory: DirectoryListingView,
    sub_directory: DirectoryMetadataView,
)
    requires
        directory.names_are_unique(),
    ensures
        directory.upsert_sub_directory(sub_directory).names_are_unique() <==> (forall|i: int|
            0 <= i < directory.sub_directories.len()
                && #[trigger] directory.sub_directories[i].name == sub_directory.name
                ==> first_position(
                directory_ids(directory.sub_directories),
                sub_directory.key.spec_id(),
            ) == Some(i)),
{
    let after = directory.upsert_sub_directory(sub_directory);
    let place = first_position(
        directory_ids(directory.sub_directories),
        sub_directory.key.spec_id(),
    );
    lemma_first_position(directory_ids(directory.sub_directories), sub_directory.key.spec_id());
    let before_names = directory_names(directory.sub_directories);
    let after_names = directory_names(after.sub_directories);
    let at = match place {
        Some(k) => k,
        None => directory.sub_directories.len() as int,
    };
    assert(after_names[at] == sub_directory.name);
    assert forall|i: int|
        0 <= i < directory.sub_directories.len() && i != at implies after_names[i]
        == before_names[i] by {}
    let stays_apart = forall|i: int|
        0 <= i < directory.sub_directories.len() && #[trigger] directory.sub_directories[i].name
            == sub_directory.name ==> place == Some(i);
    if stays_apart {
        assert forall|i: int, j: int|
            0 <= i < after_names.len() && 0 <= j < after_names.len() && i
                != j implies after_names[i] != after_names[j] by {
            if i == at {
                assert(after_names[j] == before_names[j]);
                assert(directory.sub_directories[j].name == before_names[j]);
            } else if j == at {
                assert(after_names[i] == before_names[i]);
                assert(directory.sub_directories[i].name == before_names[i]);
            } else {
                assert(before_names[i] != before_names[j]);
            }
        }
    }
    if after.names_are_unique() {
        assert forall|i: int|
            0 <= i < directory.sub_directories.len()
                && #[trigger] directory.sub_directories[i].name
                == sub_directory.name implies place == Some(i) by {
            if i != at {
                assert(after_names[i] == before_names[i]);
                assert(after_names[i] != after_names[at]);
            }
        }
    }
}

/// Putting a file or the metadata of a sub-directory into a directory with unique
/// identifiers keeps the identifiers unique.
pub proof fn lemma_upsert_keeps_ids(
    directory: DirectoryListingView,
    file: FileView,
    sub_directory: DirectoryMetadataView,
)
    requires
        directory.ids_are_unique(),
    ensures
        directory.upsert_file(file).ids_are_unique(),
        directory.upsert_sub_directory(sub_directory).ids_are_unique(),
{
    lemma_first_position(file_ids(directory.files), file.metadata.id);
    lemma_first_position(directory_ids(directory.sub_directories), sub_directory.key.spec_id());
    let after = directory.upsert_file(file);
    assert forall|i: int, j: int|
        0 <= i < after.files.len() && 0 <= j < after.files.len() && i != j implies file_ids(
        after.files,
    )[i] != file_ids(after.files)[j] by {
        let place = first_position(file_ids(directory.files), file.metadata.id);
        let at = match place {
            Some(k) => k,
            None => directory.files.len() as int,
        };
        if i != at && j != at {
            assert(file_ids(directory.files)[i] != file_ids(directory.files)[j]);
        } else if i == at {
            if place is Some {
                assert(file_ids(directory.files)[j] != file_ids(directory.files)[at]);
            } else {
                assert(file_ids(directory.files)[j] != file.metadata.id);
            }
        } else {
            if place is Some {
                assert(file_ids(directory.files)[i] != file_ids(directory.files)[at]);
            } else {
                assert(file_ids(directory.files)[i] != file.metadata.id);
            }
        }
    }
    let after = directory.upsert_sub_directory(sub_directory);
    assert forall|i: int, j: int|
        0 <= i < after.sub_directories.len() && 0 <= j < after.sub_directories.len() && i
            != j implies directory_ids(after.sub_directories)[i] != directory_ids(
        after.sub_directories,
    )[j] by {
        let ids = directory_ids(directory.sub_directories);
        let place = first_position(ids, sub_directory.key.spec_id());
        let at = match place {
            Some(k) => k,
            None => directory.sub_directories.len() as int,
        };
        if i != at && j != at {
            assert(ids[i] != ids[j]);
        } else if i == at {
            if place is Some {
                assert(ids[j] != ids[at]);
            } else {
                assert(ids[j] != sub_directory.key.spec_id());
            }
        } else {
            if place is Some {
                assert(ids[i] != ids[at]);
            } else {
                assert(ids[i] != sub_directory.key.spec_id());
            }
        }
    }
}

/// What was put in is found again under its identifier, unchanged.
pub proof fn lemma_upsert_then_find(
    directory: DirectoryListingView,
    file: FileView,
    sub_directory: DirectoryMetadataView,
)
    ensures
        directory.upsert_file(file).find_file_by_id(file.metadata.id) == Some(file),
        directory.upsert_sub_directory(sub_directory).find_sub_directory_by_id(
            sub_directory.key.spec_id(),
        ) == Some(sub_directory),
{
    lemma_first_position(file_ids(directory.files), file.metadata.id);
    let after = directory.upsert_file(file);
    let at = match first_position(file_ids(directory.files), file.metadata.id) {
        Some(k) => k,
        None => directory.files.len() as int,
    };
    assert(crate::views::is_first_at(file_ids(after.files), file.metadata.id, at)) by {
        assert forall|j: int| 0 <= j < at implies file_ids(after.files)[j]
            != file.metadata.id by {
            assert(file_ids(after.files)[j] == file_ids(directory.files)[j]);
        }
    }
    crate::views::lemma_first_is_unique(file_ids(after.files), file.metadata.id, at);

    let ids = directory_ids(directory.sub_directories);
    lemma_first_position(ids, sub_directory.key.spec_id());
    let after = directory.upsert_sub_directory(sub_directory);
    let at = match first_position(ids, sub_directory.key.spec_id()) {
        Some(k) => k,
        None => directory.sub_directories.len() as int,
    };
    assert(crate::views::is_first_at(
        directory_ids(after.sub_directories),
        sub_directory.key.spec_id(),
        at,
    )) by {
        assert forall|j: int| 0 <= j < at implies directory_ids(after.sub_directories)[j]
            != sub_directory.key.spec_id() by {
            assert(directory_ids(after.sub_directories)[j] == ids[j]);
        }
    }
    crate::views::lemma_first_is_unique(
        directory_ids(after.sub_directories),
        sub_directory.key.spec_id(),
        at,
    );
}

/// A file or a sub-directory whose name the directory was searched for in vain can be put
/// in: the names stay unique.
pub proof fn lemma_upsert_new_name(
    directory: DirectoryListingView,
    file: FileView,
    sub_directory: DirectoryMetadataView,
)
    requires
        directory.names_are_unique(),
    ensures
        directory.find_file(file.metadata.name) is None ==> directory.upsert_file(
            file,
        ).names_are_unique(),
        directory.find_sub_directory(sub_directory.name) is None
            ==> directory.upsert_sub_directory(sub_directory).names_are_unique(),
{
    lemma_first_position(file_names(directory.files), file.metadata.name);
    lemma_first_position(directory_names(directory.sub_directories), sub_directory.name);
    lemma_upsert_file_names(directory, file);
    lemma_upsert_sub_directory_names(directory, sub_directory);
    if directory.find_file(file.metadata.name) is None {
        assert forall|i: int|
            0 <= i < directory.files.len() && #[trigger] directory.files[i].metadata.name
                == file.metadata.name implies first_position(
            file_ids(directory.files),
            file.metadata.id,
        ) == Some(i) by {
            assert(file_names(directory.files)[i] == file.metadata.name);
        }
    }
    if directory.find_sub_directory(sub_directory.name) is None {
        assert forall|i: int|
            0 <= i < directory.sub_directories.len()
                && #[trigger] directory.sub_directories[i].name
                == sub_directory.name implies first_position(
            directory_ids(directory.sub_directories),
            sub_directory.key.spec_id(),
        ) == Some(i) by {
            assert(directory_names(directory.sub_directories)[i] == sub_directory.name);
        }
    }
}

} // verus!
