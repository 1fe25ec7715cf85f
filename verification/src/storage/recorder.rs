//! The rotating recorder: which file each chunk goes to, and what has been
//! stored so far.
//!
//! The recorder decides and keeps the books; the caller holds the file handle
//! and does the writing. Before a write the caller asks [`Recorder::target`]
//! where the bytes go, performs the append, and reports the result to
//! [`Recorder::write`]. [`Recorder::flush`] names the file to sync and close.

use crate::storage::disk_inspector::{DiskInspector, DiskSnapshot, MountView};
use chrono::{DateTime, Utc};
use vstd::prelude::*;
use vstd::string::*;

verus! {

/// The text that `chrono` renders for the instant `seconds` after the Unix
/// epoch, in UTC, under the pattern `%Y%m%d%H%M%S`; nothing where the instant
/// lies outside the range of dates that `chrono` represents.
pub uninterp spec fn stamp_text(seconds: i64) -> Option<Seq<char>>;

/// `chrono::DateTime::<Utc>::from_timestamp(seconds, 0)`, rendered with
/// `DateTime::format("%Y%m%d%H%M%S")`. The text is a function of `seconds`
/// alone and is taken as the meaning of [`stamp_text`]; nothing else is
/// claimed of it. The pattern is fixed and valid, so rendering does not fail.
#[verifier::external_body]
fn render_stamp(seconds: i64) -> (text: Option<String>)
    ensures
        match text {
            Some(rendered) => stamp_text(seconds) == Some(rendered@),
            None => stamp_text(seconds) is None,
        },
{
    match DateTime::<Utc>::from_timestamp(seconds, 0) {
        Some(moment) => Some(moment.format("%Y%m%d%H%M%S").to_string()),
        None => None,
    }
}

/// `directory` extended by the entry `name`: a separator is put between the
/// two unless `directory` is empty or already ends in one.
pub open spec fn joined(directory: Seq<char>, name: Seq<char>) -> Seq<char> {
    if directory.len() == 0 {
        name
    } else if directory.last() == '/' {
        directory + name
    } else {
        directory + "/"@ + name
    }
}

/// The path of the file that holds a capture begun at `stamp` under
/// `directory`: `<directory>/<YYYYMMDDHHMMSS>.mp3`.
pub open spec fn file_path(directory: Seq<char>, stamp: i64) -> Option<Seq<char>> {
    match stamp_text(stamp) {
        Some(text) => Some(joined(directory, text + ".mp3"@)),
        None => None,
    }
}

/// `a + b`, held at the largest `usize` once the sum passes it.
pub open spec fn saturated(a: nat, b: nat) -> nat {
    if a + b > usize::MAX {
        usize::MAX as nat
    } else {
        a + b
    }
}

/// What the file system made of one append.
#[derive(Debug, Clone, Copy, PartialEq, Eq, Structural)]
pub enum WriteOutcome {
    /// Every byte was appended.
    Written,
    /// The file had to be opened first, and could not be.
    OpenFailed,
    /// The file is open, but the bytes could not be appended.
    AppendFailed,
}

/// Where the bytes of one write go.
#[derive(Debug, PartialEq, Eq)]
pub struct FileTarget {
    /// Path of the file to append to.
    pub path: String,
    /// The file is not open yet: open it for appending, creating it if it
    /// does not exist.
    pub create: bool,
}

/// The mathematical content of a [`FileTarget`].
pub struct FileTargetView {
    pub path: Seq<char>,
    pub create: bool,
}

impl View for FileTarget {
    type V = FileTargetView;

    open spec fn view(&self) -> FileTargetView {
        FileTargetView { path: self.path@, create: self.create }
    }
}

/// The file that is open for appending.
#[derive(Debug, PartialEq, Eq)]
pub struct RecordingFile {
    stamp: i64,
    path: String,
    written: usize,
}

/// The mathematical content of a [`RecordingFile`]: the second at which its
/// capture began, its path, and the bytes appended since it was opened.
pub struct RecordingFileView {
    pub stamp: i64,
    pub path: Seq<char>,
    pub written: nat,
}

impl View for RecordingFile {
    type V = RecordingFileView;

    closed spec fn view(&self) -> RecordingFileView {
        RecordingFileView { stamp: self.stamp, path: self.path@, written: self.written as nat }
    }
}

impl RecordingFile {
    /// The second, counted from the Unix epoch, at which the capture began.
    pub fn stamp(&self) -> (stamp: i64)
        ensures
            stamp == self@.stamp,
    {
        self.stamp
    }

    /// Where the file lies.
    pub fn path(&self) -> (path: &String)
        ensures
            path@ == self@.path,
    {
        &self.path
    }

    /// Bytes appended since the file was opened.
    pub fn written(&self) -> (bytes: usize)
        ensures
            bytes == self@.written,
    {
        self.written
    }
}

/// The state of a recorder as contracts see it.
pub struct RecorderView {
    /// The directory that receives the files.
    pub path: Seq<char>,
    /// The file that is open, if one is.
    pub file: Option<RecordingFileView>,
    /// Bytes of all writes that succeeded.
    pub bytes_written: nat,
    /// Writes that failed.
    pub write_failures: nat,
    /// The disk space reading on hand.
    pub disk: DiskSnapshot,
    /// For each capture second under which a file was opened, the bytes
    /// appended to that file so far, in order.
    pub stored: Map<i64, Seq<u8>>,
}

impl RecorderView {
    /// The counters fit the machine, and the open file is named after its
    /// capture second and is on record.
    pub open spec fn wf(self) -> bool {
        &&& self.bytes_written <= usize::MAX
        &&& self.write_failures <= usize::MAX
        &&& self.file matches Some(file) ==> {
            &&& file.written <= usize::MAX
            &&& file_path(self.path, file.stamp) == Some(file.path)
            &&& self.stored.dom().contains(file.stamp)
        }
    }

    /// The bytes appended so far to the file of capture second `stamp`.
    pub open spec fn held(self, stamp: i64) -> Seq<u8> {
        if self.stored.dom().contains(stamp) {
            self.stored[stamp]
        } else {
            Seq::empty()
        }
    }

    /// Where a write at second `now` goes: to the open file, or else to a
    /// file named after `now`, if that second has a name.
    pub open spec fn target(self, now: i64) -> Option<FileTargetView> {
        match self.file {
            Some(file) => Some(FileTargetView { path: file.path, create: false }),
            None => match file_path(self.path, now) {
                Some(path) => Some(FileTargetView { path, create: true }),
                None => None,
            },
        }
    }

    /// The state after one more failed write.
    pub open spec fn failed(self) -> RecorderView {
        RecorderView { write_failures: saturated(self.write_failures, 1), ..self }
    }

    /// The state after `data` was handed over at second `now` and the file
    /// system answered with `outcome`.
    pub open spec fn written(self, data: Seq<u8>, now: i64, outcome: WriteOutcome) -> RecorderView {
        match self.file {
            Some(file) => match outcome {
                WriteOutcome::Written => RecorderView {
                    file: Some(
                        RecordingFileView {
                            written: saturated(file.written, data.len()),
                            ..file
                        },
                    ),
                    bytes_written: saturated(self.bytes_written, data.len()),
                    stored: self.stored.insert(file.stamp, self.held(file.stamp) + data),
                    ..self
                },
                _ => self.failed(),
            },
            None => match file_path(self.path, now) {
                None => self.failed(),
                Some(path) => match outcome {
                    WriteOutcome::OpenFailed => self.failed(),
                    WriteOutcome::AppendFailed => RecorderView {
                        file: Some(RecordingFileView { stamp: now, path, written: 0 }),
                        stored: self.stored.insert(now, self.held(now)),
                        ..self.failed()
                    },
                    WriteOutcome::Written => RecorderView {
                        file: Some(
                            RecordingFileView {
                                stamp: now,
                                path,
                                written: saturated(0, data.len()),
                            },
                        ),
                        bytes_written: saturated(self.bytes_written, data.len()),
                        stored: self.stored.insert(now, self.held(now) + data),
                        ..self
                    },
                },
            },
        }
    }

    /// The state after the open file, if any, was closed.
    pub open spec fn flushed(self) -> RecorderView {
        RecorderView { file: None, ..self }
    }

    /// The state after the free space was asked for at time `now`, when a
    /// fresh look at the disks would show `mounts`.
    pub open spec fn sampled(self, mounts: Seq<MountView>, now: nat) -> RecorderView {
        RecorderView { disk: self.disk.observed(mounts, now), ..self }
    }
}

/// Appends received bytes to one file at a time and rotates on flush.
pub struct Recorder {
    path: String,
    file: Option<RecordingFile>,
    bytes_written: usize,
    write_failures: usize,
    disk_inspector: DiskInspector,
    stored: Ghost<Map<i64, Seq<u8>>>,
}

impl View for Recorder {
    type V = RecorderView;

    closed spec fn view(&self) -> RecorderView {
        RecorderView {
            path: self.path@,
            file: match self.file {
                Some(file) => Some(file@),
                None => None,
            },
            bytes_written: self.bytes_written as nat,
            write_failures: self.write_failures as nat,
            disk: self.disk_inspector@,
            stored: self.stored@,
        }
    }
}

/// The path of the entry `name` in `directory`.
pub fn join(directory: &str, name: &str) -> (path: String)
    ensures
        path@ == joined(directory@, name@),
{
    let length = directory.unicode_len();
    if length == 0 {
        String::from_str(name)
    } else if directory.get_char(length - 1) == '/' {
        String::from_str(directory).concat(name)
    } else {
        String::from_str(directory).concat("/").concat(name)
    }
}

impl Recorder {
    /// A recorder for the directory `path` with no file open and nothing
    /// written.
    pub fn new(path: String, disk_inspector: DiskInspector) -> (recorder: Recorder)
        ensures
            recorder@ == (RecorderView {
                path: path@,
                file: None,
                bytes_written: 0,
                write_failures: 0,
                disk: disk_inspector@,
                stored: Map::empty(),
            }),
            recorder@.wf(),
    {
        Recorder {
            path,
            file: None,
            bytes_written: 0,
            write_failures: 0,
            disk_inspector,
            stored: Ghost(Map::empty()),
        }
    }

    /// Bytes of all writes that succeeded, held at `usize::MAX` once passed.
    pub fn bytes_written(&self) -> (bytes: usize)
        ensures
            bytes == self@.bytes_written,
    {
        self.bytes_written
    }

    /// Writes that failed, held at `usize::MAX` once passed.
    pub fn write_failures(&self) -> (failures: usize)
        ensures
            failures == self@.write_failures,
    {
        self.write_failures
    }

    /// The file that is open, if one is.
    pub fn current_file(&self) -> (file: &Option<RecordingFile>)
        ensures
            match *file {
                Some(open) => self@.file == Some(open@),
                None => self@.file is None,
            },
    {
        &self.file
    }

    /// The inspector that watches the disk.
    pub fn disk_inspector(&self) -> (inspector: &DiskInspector)
        ensures
            inspector@ == self@.disk,
    {
        &self.disk_inspector
    }

    /// Refreshes the disk sample if it is stale at time `now`; see
    /// [`DiskInspector::ensure_refreshed`]. Nothing else changes.
    pub fn ensure_refreshed(&mut self, now: usize)
        ensures
            exists|mounts: Seq<MountView>|
                final(self)@ == #[trigger] old(self)@.sampled(mounts, now as nat),
    {
        let ghost before = self.disk_inspector@;
        self.disk_inspector.ensure_refreshed(now);
        proof {
            let mounts = choose|mounts: Seq<MountView>|
                self.disk_inspector@ == before.observed(mounts, now as nat);
            assert(self@ == old(self)@.sampled(mounts, now as nat));
        }
    }

    /// Bytes free on the filesystem that hosts the recordings; see
    /// [`DiskInspector::bytes_available`]. Nothing else changes.
    pub fn bytes_available(&mut self) -> (bytes: usize)
        ensures
            exists|mounts: Seq<MountView>, now: nat|
                final(self)@ == #[trigger] old(self)@.sampled(mounts, now),
            bytes == final(self)@.disk.available_bytes,
    {
        let ghost before = self.disk_inspector@;
        let bytes = self.disk_inspector.bytes_available();
        proof {
            let (mounts, now) = choose|mounts: Seq<MountView>, now: nat|
                self.disk_inspector@ == before.observed(mounts, now);
            assert(self@ == old(self)@.sampled(mounts, now));
        }
        bytes
    }

    /// The record of a file for a capture that begins at second `now`,
    /// nothing written to it yet; nothing if that second has no name.
    pub fn create_file(&self, now: i64) -> (file: Option<RecordingFile>)
        ensures
            match file {
                Some(created) => file_path(self@.path, now) == Some(created@.path)
                    && created@.stamp == now && created@.written == 0,
                None => file_path(self@.path, now) is None,
            },
    {
        match render_stamp(now) {
            Some(text) => {
                let name = text.concat(".mp3");
                Some(
                    RecordingFile { stamp: now, path: join(self.path.as_str(), name.as_str()), written: 0 },
                )
            },
            None => None,
        }
    }

    /// Where the bytes of a write at second `now` go; nothing if no file is
    /// open and `now` has no name.
    pub fn target(&self, now: i64) -> (target: Option<FileTarget>)
        ensures
            match target {
                Some(place) => self@.target(now) == Some(place@),
                None => self@.target(now) is None,
            },
    {
        match &self.file {
            Some(file) => Some(FileTarget { path: file.path.clone(), create: false }),
            None => match self.create_file(now) {
                Some(file) => Some(FileTarget { path: file.path, create: true }),
                None => None,
            },
        }
    }

    /// Books the result of handing `data` to the file system at second
    /// `now`. A success adds the length of `data` to the counters and the
    /// bytes to the file's record; a failure is counted and the bytes are
    /// given up. A file that had to be opened, and was, stays open.
    pub fn write(&mut self, data: &[u8], now: i64, outcome: WriteOutcome)
        ensures
            final(self)@ == old(self)@.written(data@, now, outcome),
            old(self)@.wf() ==> final(self)@.wf(),
    {
        let open = match self.file.take() {
            Some(file) => Some(file),
            None => match outcome {
                WriteOutcome::OpenFailed => None,
                _ => {
                    let created = self.create_file(now);
                    proof {
                        if created is Some {
                            self.stored@ = self.stored@.insert(now, old(self)@.held(now));
                        }
                    }
                    created
                },
            },
        };
        match open {
            Some(mut file) => {
                match outcome {
                    WriteOutcome::Written => {
                        file.written = file.written.saturating_add(data.len());
                        self.bytes_written = self.bytes_written.saturating_add(data.len());
                        proof {
                            self.stored@ = self.stored@.insert(
                                file.stamp,
                                self@.held(file.stamp) + data@,
                            );
                        }
                    },
                    _ => {
                        self.write_failures = self.write_failures.saturating_add(1);
                    },
                }
                self.file = Some(file);
            },
            None => {
                self.write_failures = self.write_failures.saturating_add(1);
            },
        }
        proof {
            assert(self@.stored =~= old(self)@.written(data@, now, outcome).stored);
        }
    }

    /// Closes the books on the open file and returns its path, for the
    /// caller to sync and close; nothing if no file is open. The next write
    /// opens a new file.
    pub fn flush(&mut self) -> (closed: Option<String>)
        ensures
            final(self)@ == old(self)@.flushed(),
            old(self)@.wf() ==> final(self)@.wf(),
            match closed {
                Some(path) => old(self)@.file matches Some(file) && file.path == path@,
                None => old(self)@.file is None,
            },
    {
        match self.file.take() {
            Some(file) => Some(file.path),
            None => None,
        }
    }
}

/// One write as the caller made it: the bytes, the second at which they were
/// handed over, and what the file system answered.
pub struct WriteCall {
    pub data: Seq<u8>,
    pub now: i64,
    pub outcome: WriteOutcome,
}

impl RecorderView {
    /// The state after the writes `calls`, made in order.
    pub open spec fn written_all(self, calls: Seq<WriteCall>) -> RecorderView
        decreases calls.len(),
    {
        if calls.len() == 0 {
            self
        } else {
            self.written_all(calls.drop_last()).written(
                calls.last().data,
                calls.last().now,
                calls.last().outcome,
            )
        }
    }
}

/// The chunks of a run of writes, concatenated in call order.
pub open spec fn chunks_in_order(calls: Seq<WriteCall>) -> Seq<u8> {
    calls.map_values(|call: WriteCall| call.data).flatten()
}

/// Writes made between two flushes all go to one file, named after the
/// second of the first of them, and when each of them succeeds that file
/// gains exactly their chunks, concatenated in call order. Where no file was
/// opened under that second before, these are all the bytes it holds. No
/// other file changes.
pub proof fn law_file_holds_chunks_in_order(recorder: RecorderView, calls: Seq<WriteCall>)
    requires
        recorder.wf(),
        calls.len() > 0,
        forall|i: int| 0 <= i < calls.len() ==> calls[i].outcome == WriteOutcome::Written,
        stamp_text(calls[0].now) is Some,
    ensures
        ({
            let first = calls[0].now;
            let after = recorder.flushed().written_all(calls);
            &&& after.wf()
            &&& after.file matches Some(file) && file.stamp == first
            &&& after.flushed().held(first) == recorder.held(first) + chunks_in_order(calls)
            &&& !recorder.stored.dom().contains(first) ==> after.flushed().held(first)
                == chunks_in_order(calls)
            &&& forall|stamp: i64| stamp != first ==> after.flushed().held(stamp) == recorder.held(stamp)
            &&& forall|stamp: i64| stamp != first ==> after.stored.dom().contains(stamp) == recorder.stored.dom().contains(stamp)
        }),
    decreases calls.len(),
{
    let first = calls[0].now;
    let earlier = calls.drop_last();
    let last = calls.last();
    let chunks = calls.map_values(|call: WriteCall| call.data);
    let earlier_chunks = earlier.map_values(|call: WriteCall| call.data);
    assert(chunks == earlier_chunks.push(last.data));
    earlier_chunks.lemma_flatten_push(last.data);
    if calls.len() == 1 {
        assert(earlier_chunks == Seq::<Seq<u8>>::empty());
        assert(recorder.flushed().written_all(earlier) == recorder.flushed());
        assert(Seq::<u8>::empty() + last.data == last.data);
    } else {
        assert(earlier[0] == calls[0]);
        law_file_holds_chunks_in_order(recorder, earlier);
        let before = recorder.flushed().written_all(earlier);
        assert(before.held(first) + last.data == recorder.held(first) + (earlier_chunks.flatten()
            + last.data));
    }
}

/// What one write added to its file: its chunk if it succeeded, nothing if
/// it failed.
pub open spec fn acknowledged_chunk(call: WriteCall) -> Seq<u8> {
    if call.outcome == WriteOutcome::Written {
        call.data
    } else {
        Seq::empty()
    }
}

/// The chunks of the writes of a run that succeeded, concatenated in call
/// order.
pub open spec fn acknowledged(calls: Seq<WriteCall>) -> Seq<u8> {
    calls.map_values(|call: WriteCall| acknowledged_chunk(call)).flatten()
}

/// Whatever the outcomes of the writes made between two flushes, at seconds
/// that have names: if any of them found the file open or opened it, all of
/// them went to that one file, which gained exactly the chunks of those that
/// succeeded, concatenated in call order, and no other file changed; and if
/// none did, every one of them failed to open the file and nothing is on
/// record that was not before.
pub proof fn law_file_holds_acknowledged_chunks(recorder: RecorderView, calls: Seq<WriteCall>)
    requires
        recorder.wf(),
        forall|i: int| 0 <= i < calls.len() ==> stamp_text(#[trigger] calls[i].now) is Some,
    ensures
        ({
            let after = recorder.flushed().written_all(calls);
            &&& after.wf()
            &&& match after.file {
                Some(file) => {
                    &&& exists|i: int|
                        0 <= i < calls.len() && (#[trigger] calls[i]).now == file.stamp
                            && calls[i].outcome != WriteOutcome::OpenFailed
                    &&& after.held(file.stamp) == recorder.held(file.stamp) + acknowledged(calls)
                    &&& forall|stamp: i64|
                        stamp != file.stamp ==> after.held(stamp) == recorder.held(stamp)
                            && after.stored.dom().contains(stamp) == recorder.stored.dom().contains(
                            stamp,
                        )
                },
                None => {
                    &&& forall|i: int|
                        0 <= i < calls.len() ==> (#[trigger] calls[i]).outcome
                            == WriteOutcome::OpenFailed
                    &&& acknowledged(calls) == Seq::<u8>::empty()
                    &&& after.stored == recorder.stored
                },
            }
        }),
    decreases calls.len(),
{
    let pieces = calls.map_values(|call: WriteCall| acknowledged_chunk(call));
    if calls.len() == 0 {
        assert(pieces == Seq::<Seq<u8>>::empty());
    } else {
        let earlier = calls.drop_last();
        let last = calls.last();
        let earlier_pieces = earlier.map_values(|call: WriteCall| acknowledged_chunk(call));
        assert(pieces == earlier_pieces.push(acknowledged_chunk(last)));
        earlier_pieces.lemma_flatten_push(acknowledged_chunk(last));
        law_file_holds_acknowledged_chunks(recorder, earlier);
        let before = recorder.flushed().written_all(earlier);
        let after = recorder.flushed().written_all(calls);
        assert(stamp_text(calls[calls.len() - 1].now) is Some);
        assert(forall|i: int| 0 <= i < earlier.len() ==> earlier[i] == calls[i]);
        match before.file {
            Some(file) => {
                let i = choose|i: int|
                    0 <= i < earlier.len() && (#[trigger] earlier[i]).now == file.stamp
                        && earlier[i].outcome != WriteOutcome::OpenFailed;
                assert(calls[i].now == file.stamp);
                assert(before.held(file.stamp) + acknowledged_chunk(last) == recorder.held(
                    file.stamp,
                ) + (acknowledged(earlier) + acknowledged_chunk(last)));
                assert(before.held(file.stamp) + Seq::<u8>::empty() == before.held(file.stamp));
            },
            None => {
                assert(Seq::<u8>::empty() + acknowledged_chunk(last) == acknowledged_chunk(last));
                assert(recorder.held(last.now) + Seq::<u8>::empty() == recorder.held(last.now));
                if last.outcome != WriteOutcome::OpenFailed {
                    assert(calls[calls.len() - 1].now == last.now);
                }
            },
        }
    }
}

/// A write after a flush, at a second later than every second under which a
/// file was opened before, goes to a file of its own: one to be created,
/// named after that second, under which nothing is on record yet. If the
/// write succeeds the file holds exactly its bytes.
pub proof fn law_later_write_opens_new_file(
    recorder: RecorderView,
    data: Seq<u8>,
    now: i64,
    outcome: WriteOutcome,
)
    requires
        recorder.wf(),
        forall|stamp: i64| recorder.stored.dom().contains(stamp) ==> stamp < now,
        stamp_text(now) is Some,
    ensures
        !recorder.stored.dom().contains(now),
        recorder.flushed().target(now) == Some(
            FileTargetView { path: file_path(recorder.path, now).unwrap(), create: true },
        ),
        outcome != WriteOutcome::OpenFailed ==> (recorder.flushed().written(
            data,
            now,
            outcome,
        ).file matches Some(file) && file.stamp == now),
        outcome == WriteOutcome::Written ==> recorder.flushed().written(data, now, outcome).held(
            now,
        ) == data,
{
    assert(Seq::<u8>::empty() + data == data);
}

/// Neither counter ever goes down, whatever is written and however it ends,
/// and a flush leaves both as they are.
pub proof fn law_counters_never_decrease(
    recorder: RecorderView,
    data: Seq<u8>,
    now: i64,
    outcome: WriteOutcome,
)
    requires
        recorder.wf(),
    ensures
        recorder.written(data, now, outcome).bytes_written >= recorder.bytes_written,
        recorder.written(data, now, outcome).write_failures >= recorder.write_failures,
        recorder.flushed().bytes_written == recorder.bytes_written,
        recorder.flushed().write_failures == recorder.write_failures,
{
}

} // verus!
