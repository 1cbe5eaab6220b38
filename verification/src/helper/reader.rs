//! Reading the content of a file, all of it or a part.

use vstd::prelude::*;

use crate::codec::primitives::copy_range;
use crate::errors::NfsError;
use crate::exchange::Reply;
use crate::exchange::ReplyView;
use crate::exchange::Request;
use crate::exchange::RequestView;
use crate::exchange::Turn;
use crate::exchange::TurnView;
use crate::file::File;
use crate::file::FileView;

verus! {

/// The content of a file, to be read in parts.
#[derive(Debug)]
pub struct Reader {
    content: Vec<u8>,
}

impl View for Reader {
    type V = Seq<u8>;

    closed spec fn view(&self) -> Seq<u8> {
        self.content@
    }
}

/// The part of `content` that starts at `position` and is `length` bytes long, or `None`
/// where it would reach beyond the end.
pub open spec fn spec_read(content: Seq<u8>, position: u64, length: u64) -> Option<Seq<u8>> {
    if position + length <= content.len() {
        Some(content.subrange(position as int, position + length))
    } else {
        None
    }
}

impl Reader {
    /// A reader of the given content.
    pub fn new(content: Vec<u8>) -> (reader: Reader)
        ensures
            reader@ == content@,
    {
        Reader { content }
    }

    /// The size of the content in bytes.
    pub fn size(&self) -> (size: u64)
        ensures
            size == self@.len(),
    {
        self.content.len() as u64
    }

    /// The `length` bytes of the content that start at `position`. Fails with
    /// `InvalidRangeSpecified` where the part would reach beyond the end of the content,
    /// and with nothing else.
    pub fn read(&self, position: u64, length: u64) -> (read: Result<Vec<u8>, NfsError>)
        ensures
            match read {
                Ok(bytes) => spec_read(self@, position, length) == Some(bytes@),
                Err(error) => error == NfsError::InvalidRangeSpecified && spec_read(
                    self@,
                    position,
                    length,
                ) is None,
            },
    {
        let size = self.content.len();
        if position > size as u64 || length > size as u64 - position {
            Err(NfsError::InvalidRangeSpecified)
        } else {
            let start = position as usize;
            let end = start + length as usize;
            Ok(copy_range(&self.content, start, end))
        }
    }
}

/// Every part of the content that lies within it can be read, and what is read is as long
/// as was asked for.
pub proof fn lemma_read_in_range(content: Seq<u8>, position: u64, length: u64)
    requires
        position + length <= content.len(),
    ensures
        spec_read(content, position, length) is Some,
        spec_read(content, position, length)->Some_0.len() == length,
        forall|i: int|
            0 <= i < length ==> spec_read(content, position, length)->Some_0[i] == content[position
                + i],
{
}

/// Where the opening of a file for reading stands.
#[derive(Debug)]
pub enum Reading {
    /// Waits for the content that the data map of the file stands for.
    Loading,
    /// The end: a reader of the content.
    Ready(Reader),
    /// The end: what went wrong.
    Failed(NfsError),
}

/// The mathematical value of a [`Reading`].
pub ghost enum ReadingView {
    Loading,
    Ready(Seq<u8>),
    Failed(NfsError),
}

impl View for Reading {
    type V = ReadingView;

    open spec fn view(&self) -> ReadingView {
        match self {
            Reading::Loading => ReadingView::Loading,
            Reading::Ready(reader) => ReadingView::Ready(reader@),
            Reading::Failed(error) => ReadingView::Failed(*error),
        }
    }
}

impl ReadingView {
    /// A file is opened for reading by asking for the content of its data map.
    pub open spec fn start(file: FileView) -> TurnView<ReadingView> {
        TurnView::ask(ReadingView::Loading, RequestView::SelfDecrypt { data_map: file.datamap })
    }

    /// The bytes that come back are the content. A reply of another kind ends the opening
    /// with the error that the reply stands for.
    pub open spec fn step(self, reply: ReplyView) -> TurnView<ReadingView> {
        match self {
            ReadingView::Loading => match reply {
                ReplyView::Bytes(content) => TurnView::end(ReadingView::Ready(content)),
                _ => TurnView::end(ReadingView::Failed(reply.as_error())),
            },
            _ => TurnView::end(self),
        }
    }
}

impl Reading {
    /// Starts to open `file` for reading.
    pub fn start(file: &File) -> (turn: Turn<Reading>)
        ensures
            turn@ == ReadingView::start(file@),
    {
        Turn::ask(Reading::Loading, Request::SelfDecrypt { data_map: file.get_datamap().clone() })
    }

    /// Takes the reply to the pending request and gives the next state.
    pub fn step(self, reply: Reply) -> (next: Turn<Reading>)
        ensures
            next@ == self@.step(reply@),
    {
        match self {
            Reading::Loading => match reply {
                Reply::Bytes(content) => Turn::end(Reading::Ready(Reader::new(content))),
                other => Turn::end(Reading::Failed(other.as_error())),
            },
            Reading::Ready(reader) => Turn::end(Reading::Ready(reader)),
            Reading::Failed(error) => Turn::end(Reading::Failed(error)),
        }
    }

    /// What the opening ended with, or `None` while it has not ended.
    pub fn finish(self) -> (result: Option<Result<Reader, NfsError>>)
        ensures
            match result {
                Some(Ok(reader)) => self@ == ReadingView::Ready(reader@),
                Some(Err(error)) => self@ == ReadingView::Failed(error),
                None => self@ is Loading,
            },
    {
        match self {
            Reading::Ready(reader) => Some(Ok(reader)),
            Reading::Failed(error) => Some(Err(error)),
            _ => None,
        }
    }
}

} // verus!
