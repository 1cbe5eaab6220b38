//! The table that self-encryption leaves behind for a piece of content.

use vstd::prelude::*;

use crate::bytes::bytes_equal;
use crate::bytes::copy_bytes;
use crate::views::lemma_views_push;
use crate::views::views;

verus! {

/// What is kept about one encrypted chunk: its place in the content, its hashes after and
/// before encryption, and how many bytes of content it stands for.
#[derive(Debug, PartialEq, Eq, PartialOrd, Ord)]
pub struct ChunkDetails {
    /// Place of the chunk in the content, counted from zero.
    pub chunk_num: u32,
    /// Hash of the chunk after encryption: the name under which it is stored.
    pub hash: Vec<u8>,
    /// Hash of the chunk before encryption.
    pub pre_hash: Vec<u8>,
    /// Number of bytes of content in the chunk.
    pub source_size: u64,
}

/// The mathematical value of a [`ChunkDetails`].
pub ghost struct ChunkDetailsView {
    pub chunk_num: u32,
    pub hash: Seq<u8>,
    pub pre_hash: Seq<u8>,
    pub source_size: u64,
}

impl View for ChunkDetails {
    type V = ChunkDetailsView;

    open spec fn view(&self) -> ChunkDetailsView {
        ChunkDetailsView {
            chunk_num: self.chunk_num,
            hash: self.hash@,
            pre_hash: self.pre_hash@,
            source_size: self.source_size,
        }
    }
}

impl Clone for ChunkDetails {
    fn clone(&self) -> (copy: ChunkDetails)
        ensures
            copy@ == self@,
    {
        ChunkDetails {
            chunk_num: self.chunk_num,
            hash: copy_bytes(&self.hash),
            pre_hash: copy_bytes(&self.pre_hash),
            source_size: self.source_size,
        }
    }
}

impl ChunkDetails {
    /// Whether two chunk records hold the same in every field.
    pub fn equals(&self, other: &ChunkDetails) -> (same: bool)
        ensures
            same == (self@ == other@),
    {
        self.chunk_num == other.chunk_num && self.source_size == other.source_size && bytes_equal(
            &self.hash,
            &other.hash,
        ) && bytes_equal(&self.pre_hash, &other.pre_hash)
    }
}

/// What is needed to get a piece of content back: a table of chunks, the content itself
/// where it is too short to be cut into chunks, or nothing for empty content.
#[derive(Debug, PartialEq, Eq, PartialOrd, Ord)]
pub enum DataMap {
    /// The chunks that the content was cut into.
    Chunks(Vec<ChunkDetails>),
    /// The content itself.
    Content(Vec<u8>),
    /// No content.
    Empty,
}

/// The mathematical value of a [`DataMap`].
pub ghost enum DataMapView {
    Chunks(Seq<ChunkDetailsView>),
    Content(Seq<u8>),
    Empty,
}

impl View for DataMap {
    type V = DataMapView;

    open spec fn view(&self) -> DataMapView {
        match self {
            DataMap::Chunks(chunks) => DataMapView::Chunks(views(chunks@)),
            DataMap::Content(content) => DataMapView::Content(content@),
            DataMap::Empty => DataMapView::Empty,
        }
    }
}

/// The bytes of content that the first `n` of the chunks stand for, taken together.
pub open spec fn chunks_size(chunks: Seq<ChunkDetailsView>, n: int) -> int
    decreases n,
{
    if n <= 0 {
        0
    } else {
        chunks_size(chunks, n - 1) + chunks[n - 1].source_size
    }
}

impl DataMapView {
    /// The size of the content that the map stands for.
    pub open spec fn spec_len(self) -> int {
        match self {
            DataMapView::Chunks(chunks) => chunks_size(chunks, chunks.len() as int),
            DataMapView::Content(content) => content.len() as int,
            DataMapView::Empty => 0,
        }
    }
}

impl Clone for DataMap {
    fn clone(&self) -> (copy: DataMap)
        ensures
            copy@ == self@,
    {
        match self {
            DataMap::Chunks(chunks) => {
                let mut copies: Vec<ChunkDetails> = Vec::with_capacity(chunks.len());
                let mut i: usize = 0;
                while i < chunks.len()
                    invariant
                        0 <= i <= chunks.len(),
                        views(copies@) == views(chunks@).subrange(0, i as int),
                    decreases chunks.len() - i,
                {
                    proof {
                        lemma_views_push(copies@, chunks@[i as int]);
                    }
                    let copy = chunks[i].clone();
                    proof {
                        lemma_views_push(copies@, copy);
                    }
                    copies.push(copy);
                    assert(views(copies@) =~= views(chunks@).subrange(0, i + 1));
                    i += 1;
                }
                assert(views(copies@) =~= views(chunks@));
                DataMap::Chunks(copies)
            },
            DataMap::Content(content) => DataMap::Content(copy_bytes(content)),
            DataMap::Empty => DataMap::Empty,
        }
    }
}

impl DataMap {
    /// The size of the content that the map stands for, or `u64::MAX` where the sizes of
    /// the chunks add up to more.
    pub fn len(&self) -> (size: u64)
        ensures
            size as int == if self@.spec_len() <= u64::MAX {
                self@.spec_len()
            } else {
                u64::MAX as int
            },
    {
        match self {
            DataMap::Chunks(chunks) => {
                let mut total: u64 = 0;
                let mut i: usize = 0;
                while i < chunks.len()
                    invariant
                        0 <= i <= chunks.len(),
                        chunks_size(views(chunks@), i as int) >= 0,
                        total as int == if chunks_size(views(chunks@), i as int)
                            <= u64::MAX {
                            chunks_size(views(chunks@), i as int)
                        } else {
                            u64::MAX as int
                        },
                    decreases chunks.len() - i,
                {
                    total = total.saturating_add(chunks[i].source_size);
                    i += 1;
                }
                total
            },
            DataMap::Content(content) => {
                let n = content.len();
                n as u64
            },
            DataMap::Empty => 0,
        }
    }

    /// Whether the map is a table of chunks that stand for at least one byte.
    pub fn has_chunks(&self) -> (has: bool)
        ensures
            has == (self@ is Chunks && self@.spec_len() > 0),
    {
        match self {
            DataMap::Chunks(_) => self.len() > 0,
            _ => false,
        }
    }

    /// Whether two maps are of one kind and hold the same.
    pub fn equals(&self, other: &DataMap) -> (same: bool)
        ensures
            same == (self@ == other@),
    {
        match self {
            DataMap::Chunks(a) => match other {
                DataMap::Chunks(b) => {
                    if a.len() != b.len() {
                        assert(views(a@).len() != views(b@).len());
                        return false;
                    }
                    let mut i: usize = 0;
                    while i < a.len()
                        invariant
                            self@ == DataMapView::Chunks(views(a@)),
                            other@ == DataMapView::Chunks(views(b@)),
                            a.len() == b.len(),
                            0 <= i <= a.len(),
                            forall|j: int| 0 <= j < i ==> a@[j]@ == b@[j]@,
                        decreases a.len() - i,
                    {
                        if !a[i].equals(&b[i]) {
                            assert(views(a@)[i as int] != views(b@)[i as int]);
                            return false;
                        }
                        i += 1;
                    }
                    assert(views(a@) =~= views(b@));
                    true
                },
                _ => false,
            },
            DataMap::Content(a) => match other {
                DataMap::Content(b) => bytes_equal(a, b),
                _ => false,
            },
            DataMap::Empty => match other {
                DataMap::Empty => true,
                _ => false,
            },
        }
    }
}

} // verus!
