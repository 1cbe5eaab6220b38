//! Writing the content of a file, in parts, and putting the file into its directory.

use vstd::prelude::*;

use crate::clock::Time;
use crate::data_map::DataMapView;
use crate::directory_listing::DirectoryListing;
use crate::directory_listing::DirectoryListingView;
use crate::errors::NfsError;
use crate::exchange::Reply;
use crate::exchange::ReplyView;
use crate::exchange::Request;
use crate::exchange::RequestView;
use crate::exchange::Turn;
use crate::exchange::TurnView;
use crate::file::File;
use crate::file::FileView;
use crate::helper::directory_helper::Update;
use crate::helper::directory_helper::UpdateView;
use crate::metadata::file_metadata::FileMetadataView;
use crate::views::optional;

verus! {

/// What a writer starts from.
#[derive(Clone, Copy, Debug, PartialEq, Eq, Structural)]
pub enum Mode {
    /// The content written takes the place of what the file held.
    Overwrite,
    /// What is written goes into the content that the file holds.
    Modify,
}

/// A file that is being written: the file, the directory that holds it or is to hold it,
/// and the content as it stands.
#[derive(Debug)]
pub struct Writer {
    file: File,
    parent_directory: DirectoryListing,
    content: Vec<u8>,
}

/// The mathematical value of a [`Writer`].
pub ghost struct WriterView {
    pub file: FileView,
    pub parent_directory: DirectoryListingView,
    pub content: Seq<u8>,
}

impl View for Writer {
    type V = WriterView;

    closed spec fn view(&self) -> WriterView {
        WriterView {
            file: self.file@,
            parent_directory: self.parent_directory@,
            content: self.content@,
        }
    }
}

/// The content after `data` was written at `position`. It reaches as far as it did, or as
/// far as the data written does; the data lies at its position; what lay elsewhere lies
/// there still; and what was never written is zero.
pub open spec fn spec_write(content: Seq<u8>, data: Seq<u8>, position: int) -> Seq<u8> {
    Seq::new(
        if content.len() >= position + data.len() {
            content.len()
        } else {
            (position + data.len()) as nat
        },
        |i: int|
            if position <= i < position + data.len() {
                data[i - position]
            } else if i < content.len() {
                content[i]
            } else {
                0u8
            },
    )
}

/// The file as a writer leaves it: with the data map of what was written, its size, and
/// the time of the writing. Name, identifier, time of creation and user metadata stay.
pub open spec fn spec_closed_file(
    file: FileView,
    data_map: DataMapView,
    size: u64,
    now: Time,
) -> FileView {
    FileView {
        metadata: FileMetadataView { size, modified_time: now, ..file.metadata },
        datamap: data_map,
    }
}

impl Writer {
    /// Starts a writer for `file` in `parent_directory`. To overwrite needs nothing from
    /// the network, and the writer is there at once, with empty content. To modify, the
    /// content that the file holds is asked for first.
    pub fn new(mode: Mode, parent_directory: DirectoryListing, file: File) -> (turn: Turn<
        Preparation,
    >)
        ensures
            turn@ == PreparationView::start(mode, parent_directory@, file@),
    {
        match mode {
            Mode::Overwrite => Turn::end(
                Preparation::Ready(Writer::with_content(parent_directory, file, Vec::new())),
            ),
            Mode::Modify => {
                let data_map = file.get_datamap().clone();
                Turn::ask(
                    Preparation::Loading { file, parent_directory },
                    Request::SelfDecrypt { data_map },
                )
            },
        }
    }

    /// The writer for `file` in `parent_directory` whose content stands at `content`.
    pub fn with_content(parent_directory: DirectoryListing, file: File, content: Vec<u8>) -> (writer:
        Writer)
        ensures
            writer@ == (WriterView {
                file: file@,
                parent_directory: parent_directory@,
                content: content@,
            }),
    {
        Writer { file, parent_directory, content }
    }

    /// The content as it stands.
    pub fn get_content(&self) -> (content: &Vec<u8>)
        ensures
            content@ == self@.content,
    {
        &self.content
    }

    /// Writes `data` into the content at `position`. The content grows as far as the data
    /// reaches, and a gap that opens before the data is filled with zeros.
    pub fn write(&mut self, data: &[u8], position: u64)
        requires
            position + data@.len() <= usize::MAX,
        ensures
            final(self)@ == (WriterView {
                content: spec_write(old(self)@.content, data@, position as int),
                ..old(self)@
            }),
    {
        let start = position as usize;
        let end = start + data.len();
        let ghost before = self.content@;
        while self.content.len() < end
            invariant
                self.file@ == old(self).file@,
                self.parent_directory@ == old(self).parent_directory@,
                before == old(self).content@,
                before.len() <= self.content.len(),
                self.content.len() <= end || self.content.len() == before.len(),
                forall|i: int| 0 <= i < before.len() ==> self.content@[i] == before[i],
                forall|i: int| before.len() <= i < self.content.len() ==> self.content@[i] == 0u8,
            decreases end - self.content.len(),
        {
            self.content.push(0u8);
        }
        let ghost padded = self.content@;
        let mut k: usize = 0;
        while k < data.len()
            invariant
                self.file@ == old(self).file@,
                self.parent_directory@ == old(self).parent_directory@,
                0 <= k <= data.len(),
                end == start + data.len(),
                end <= self.content.len(),
                self.content.len() == padded.len(),
                start == position,
                padded.len() == if before.len() >= end {
                    before.len()
                } else {
                    end as nat
                },
                forall|i: int| 0 <= i < before.len() ==> padded[i] == before[i],
                forall|i: int| before.len() <= i < padded.len() ==> padded[i] == 0u8,
                forall|i: int| 0 <= i < start ==> self.content@[i] == padded[i],
                forall|i: int| start + k <= i < padded.len() ==> self.content@[i] == padded[i],
                forall|i: int| start <= i < start + k ==> self.content@[i] == data@[i - start],
            decreases data.len() - k,
        {
            self.content[start + k] = data[k];
            k += 1;
        }
        let ghost written = spec_write(before, data@, position as int);
        assert(self.content@.len() == written.len());
        assert forall|i: int| 0 <= i < written.len() implies self.content@[i] == written[i] by {
            if i < start {
                assert(self.content@[i] == padded[i]);
            } else if i < start + data@.len() {
                assert(self.content@[i] == data@[i - start]);
            } else {
                assert(self.content@[i] == padded[i]);
            }
        }
        assert(self.content@ =~= written);
    }

    /// Starts to close the writer: the content is self-encrypted, the file takes the data
    /// map, the size of the content and the time of the clock, the directory takes the
    /// file, and the directory is updated. [`Writer::close_at`] says what is made of the
    /// time.
    pub fn close(self) -> (turn: Turn<Closing>)
        ensures
            exists|now: Time| turn@ == ClosingView::start(self@, now),
    {
        let now = Time::now();
        self.close_at(now)
    }

    /// Starts to close the writer at the time `now`.
    pub fn close_at(self, now: Time) -> (turn: Turn<Closing>)
        ensures
            turn@ == ClosingView::start(self@, now),
    {
        let size = self.content.len() as u64;
        Turn::ask(
            Closing::Encrypting {
                file: self.file,
                parent_directory: self.parent_directory,
                size,
                now,
            },
            Request::SelfEncrypt { content: self.content },
        )
    }
}

/// Where the making of a writer stands.
#[derive(Debug)]
pub enum Preparation {
    /// Waits for the content that the file holds.
    Loading { file: File, parent_directory: DirectoryListing },
    /// The end: the writer.
    Ready(Writer),
    /// The end: what went wrong.
    Failed(NfsError),
}

/// The mathematical value of a [`Preparation`].
pub ghost enum PreparationView {
    Loading { file: FileView, parent_directory: DirectoryListingView },
    Ready(WriterView),
    Failed(NfsError),
}

impl View for Preparation {
    type V = PreparationView;

    open spec fn view(&self) -> PreparationView {
        match self {
            Preparation::Loading { file, parent_directory } => PreparationView::Loading {
                file: file@,
                parent_directory: parent_directory@,
            },
            Preparation::Ready(writer) => PreparationView::Ready(writer@),
            Preparation::Failed(error) => PreparationView::Failed(*error),
        }
    }
}

impl PreparationView {
    /// To overwrite, the writer starts from empty content. To modify, it starts from the
    /// content of the file's data map, which is asked for.
    pub open spec fn start(
        mode: Mode,
        parent_directory: DirectoryListingView,
        file: FileView,
    ) -> TurnView<PreparationView> {
        match mode {
            Mode::Overwrite => TurnView::end(
                PreparationView::Ready(
                    WriterView { file, parent_directory, content: Seq::empty() },
                ),
            ),
            Mode::Modify => TurnView::ask(
                PreparationView::Loading { file, parent_directory },
                RequestView::SelfDecrypt { data_map: file.datamap },
            ),
        }
    }

    /// The bytes that come back are the content that the writer starts from. A reply of
    /// another kind ends the making with the error that the reply stands for.
    pub open spec fn step(self, reply: ReplyView) -> TurnView<PreparationView> {
        match self {
            PreparationView::Loading { file, parent_directory } => match reply {
                ReplyView::Bytes(content) => TurnView::end(
                    PreparationView::Ready(WriterView { file, parent_directory, content }),
                ),
                _ => TurnView::end(PreparationView::Failed(reply.as_error())),
            },
            _ => TurnView::end(self),
        }
    }
}

impl Preparation {
    /// Takes the reply to the pending request and gives the next state.
    pub fn step(self, reply: Reply) -> (next: Turn<Preparation>)
        ensures
            next@ == self@.step(reply@),
    {
        match self {
            Preparation::Loading { file, parent_directory } => match reply {
                Reply::Bytes(content) => Turn::end(
                    Preparation::Ready(Writer::with_content(parent_directory, file, content)),
                ),
                other => Turn::end(Preparation::Failed(other.as_error())),
            },
            Preparation::Ready(writer) => Turn::end(Preparation::Ready(writer)),
            Preparation::Failed(error) => Turn::end(Preparation::Failed(error)),
        }
    }

    /// What the making ended with, or `None` while it has not ended.
    pub fn finish(self) -> (result: Option<Result<Writer, NfsError>>)
        ensures
            match result {
                Some(Ok(writer)) => self@ == PreparationView::Ready(writer@),
                Some(Err(error)) => self@ == PreparationView::Failed(error),
                None => self@ is Loading,
            },
    {
        match self {
            Preparation::Ready(writer) => Some(Ok(writer)),
            Preparation::Failed(error) => Some(Err(error)),
            _ => None,
        }
    }
}

/// Where the closing of a writer stands.
#[derive(Debug)]
pub enum Closing {
    /// Waits for the data map of the content.
    Encrypting { file: File, parent_directory: DirectoryListing, size: u64, now: Time },
    /// The directory, with the file in it, is being updated.
    Updating { updating: Update, parent_directory: DirectoryListing },
    /// The end: the directory with the file in it, and the directory that holds it as it
    /// is now.
    Closed { parent_directory: DirectoryListing, grand_parent: Option<DirectoryListing> },
    /// The end: what went wrong.
    Failed(NfsError),
}

/// The mathematical value of a [`Closing`].
pub ghost enum ClosingView {
    Encrypting { file: FileView, parent_directory: DirectoryListingView, size: u64, now: Time },
    Updating { updating: UpdateView, parent_directory: DirectoryListingView },
    Closed { parent_directory: DirectoryListingView, grand_parent: Option<DirectoryListingView> },
    Failed(NfsError),
}

impl View for Closing {
    type V = ClosingView;

    open spec fn view(&self) -> ClosingView {
        match self {
            Closing::Encrypting { file, parent_directory, size, now } => ClosingView::Encrypting {
                file: file@,
                parent_directory: parent_directory@,
                size: *size,
                now: *now,
            },
            Closing::Updating { updating, parent_directory } => ClosingView::Updating {
                updating: updating@,
                parent_directory: parent_directory@,
            },
            Closing::Closed { parent_directory, grand_parent } => ClosingView::Closed {
                parent_directory: parent_directory@,
                grand_parent: optional(*grand_parent),
            },
            Closing::Failed(error) => ClosingView::Failed(*error),
        }
    }
}

impl ClosingView {
    /// Closing starts with the self-encryption of the content.
    pub open spec fn start(writer: WriterView, now: Time) -> TurnView<ClosingView> {
        TurnView::ask(
            ClosingView::Encrypting {
                file: writer.file,
                parent_directory: writer.parent_directory,
                size: writer.content.len() as u64,
                now,
            },
            RequestView::SelfEncrypt { content: writer.content },
        )
    }

    /// What follows a step of the update of the directory: when it has ended, the writer
    /// is closed.
    pub open spec fn after_updating(
        updating: TurnView<UpdateView>,
        parent_directory: DirectoryListingView,
    ) -> TurnView<ClosingView> {
        match updating.state {
            UpdateView::Updated(grand_parent) => TurnView::end(
                ClosingView::Closed { parent_directory, grand_parent },
            ),
            UpdateView::Failed(error) => TurnView::end(ClosingView::Failed(error)),
            _ => TurnView {
                state: ClosingView::Updating { updating: updating.state, parent_directory },
                request: updating.request,
            },
        }
    }

    /// How closing goes on. The file takes the data map that comes back, the size of the
    /// content and the time of the closing, and is put into the directory; then the
    /// directory is updated. A reply of another kind than the one waited for ends the
    /// closing with the error that the reply stands for.
    pub open spec fn step(self, reply: ReplyView) -> TurnView<ClosingView> {
        match self {
            ClosingView::Encrypting { file, parent_directory, size, now } => match reply {
                ReplyView::DataMap(data_map) => {
                    let parent_directory = parent_directory.upsert_file(
                        spec_closed_file(file, data_map, size, now),
                    );
                    Self::after_updating(UpdateView::start(parent_directory), parent_directory)
                },
                _ => TurnView::end(ClosingView::Failed(reply.as_error())),
            },
            ClosingView::Updating { updating, parent_directory } => Self::after_updating(
                updating.step(reply),
                parent_directory,
            ),
            _ => TurnView::end(self),
        }
    }
}

impl Closing {
    fn after_updating(updating: Turn<Update>, parent_directory: DirectoryListing) -> (turn: Turn<
        Closing,
    >)
        ensures
            turn@ == ClosingView::after_updating(updating@, parent_directory@),
    {
        match updating.state {
            Update::Updated(grand_parent) => Turn::end(
                Closing::Closed { parent_directory, grand_parent },
            ),
            Update::Failed(error) => Turn::end(Closing::Failed(error)),
            state => Turn {
                state: Closing::Updating { updating: state, parent_directory },
                request: updating.request,
            },
        }
    }

    /// Takes the reply to the pending request and gives the next state.
    pub fn step(self, reply: Reply) -> (next: Turn<Closing>)
        ensures
            next@ == self@.step(reply@),
    {
        match self {
            Closing::Encrypting { file, parent_directory, size, now } => match reply {
                Reply::DataMap(data_map) => {
                    let mut file = file;
                    let mut parent_directory = parent_directory;
                    file.set_datamap(data_map);
                    file.get_mut_metadata().set_modified_time(now);
                    file.get_mut_metadata().set_size(size);
                    parent_directory.upsert_file(file);
                    let updating = Update::start(&parent_directory);
                    Closing::after_updating(updating, parent_directory)
                },
                other => Turn::end(Closing::Failed(other.as_error())),
            },
            Closing::Updating { updating, parent_directory } => Closing::after_updating(
                updating.step(reply),
                parent_directory,
            ),
            Closing::Closed { parent_directory, grand_parent } => Turn::end(
                Closing::Closed { parent_directory, grand_parent },
            ),
            Closing::Failed(error) => Turn::end(Closing::Failed(error)),
        }
    }

    /// What the closing ended with: the directory with the file in it, and the directory
    /// that holds it as it is now; or `None` while it has not ended.
    pub fn finish(self) -> (result: Option<
        Result<(DirectoryListing, Option<DirectoryListing>), NfsError>,
    >)
        ensures
            match result {
                Some(Ok((parent_directory, grand_parent))) => self@ == (ClosingView::Closed {
                    parent_directory: parent_directory@,
                    grand_parent: optional(grand_parent),
                }),
                Some(Err(error)) => self@ == ClosingView::Failed(error),
                None => self@ is Encrypting || self@ is Updating,
            },
    {
        match self {
            Closing::Closed { parent_directory, grand_parent } => Some(
                Ok((parent_directory, grand_parent)),
            ),
            Closing::Failed(error) => Some(Err(error)),
            _ => None,
        }
    }
}

/// Closing a writer leaves the file who it was. Whatever data map comes back, the
/// directory that is updated holds, under the identifier of the file, the file with that
/// data map, the size of the content and the time of the closing, and with its name, its
/// identifier, its time of creation and its user metadata as they were.
pub proof fn lemma_close_keeps_identity(writer: WriterView, now: Time, data_map: DataMapView)
    ensures
        ({
            let closed = spec_closed_file(
                writer.file,
                data_map,
                writer.content.len() as u64,
                now,
            );
            let next = ClosingView::start(writer, now).state.step(ReplyView::DataMap(data_map));
            &&& closed.metadata.id == writer.file.metadata.id
            &&& closed.metadata.name == writer.file.metadata.name
            &&& closed.metadata.created_time == writer.file.metadata.created_time
            &&& closed.metadata.user_metadata == writer.file.metadata.user_metadata
            &&& next.state is Updating
            &&& next.state->Updating_parent_directory == writer.parent_directory.upsert_file(closed)
            &&& next.state->Updating_parent_directory.find_file_by_id(writer.file.metadata.id)
                == Some(closed)
            &&& next.request == UpdateView::start(
                writer.parent_directory.upsert_file(closed),
            ).request
        }),
{
    let closed = spec_closed_file(writer.file, data_map, writer.content.len() as u64, now);
    crate::directory_listing::laws::lemma_upsert_then_find(
        writer.parent_directory,
        closed,
        writer.parent_directory.metadata,
    );
}

} // verus!
