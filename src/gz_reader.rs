//! The decisions of reading a whole gzip file through zlib's `gzopen`,
//! `gzeof`, `gzread` and `gzclose`.
//!
//! A [`GzReader`] is a state machine: the caller performs the action it
//! asks for, hands back what the native call returned as a
//! [`ReaderEvent`], and gets the next action. The machine always asks for
//! the handle to be closed once it was opened, whether reading succeeded or
//! failed, and only hands out the text after the stream reached its end.
use vstd::prelude::*;
use vstd::utf8::valid_utf8;
use vstd::utf8::decode_utf8;
use vstd::string::StringSliceAdditionalSpecFns;

verus! {

/// The size of the buffer each native read fills.
pub const READ_CHUNK_LEN: usize = 4096;

/// `errno` for a path that names no file.
pub const ENOENT: i32 = 2;

/// `errno` for an operation the caller is not permitted to do.
pub const EPERM: i32 = 1;

/// `errno` for a file the caller may not read.
pub const EACCES: i32 = 13;

/// Why a gzip file could not be opened.
#[derive(Clone, Copy, Debug, PartialEq, Eq, Structural)]
pub enum FileOpenError {
    NotFound,
    PermissionDenied,
    InvalidFormat,
}

/// A native read that failed, with the code it returned.
#[derive(Clone, Copy, Debug, PartialEq, Eq, Structural)]
pub enum ReadError {
    NativeError(i32),
}

/// Why reading a whole gzip file failed.
#[derive(Clone, Copy, Debug, PartialEq, Eq, Structural)]
pub enum GzReadError {
    Open(FileOpenError),
    Read(ReadError),
    /// The decompressed bytes are not valid UTF-8.
    Decode,
}

/// How the `errno` left by a failed `gzopen` is reported.
pub open spec fn open_error_spec(errno: i32) -> FileOpenError {
    if errno == ENOENT {
        FileOpenError::NotFound
    } else if errno == EACCES || errno == EPERM {
        FileOpenError::PermissionDenied
    } else {
        FileOpenError::InvalidFormat
    }
}

/// The error for a failed `gzopen`, from the `errno` it left.
pub fn open_error_of(errno: i32) -> (r: FileOpenError)
    ensures
        r == open_error_spec(errno),
{
    if errno == ENOENT {
        FileOpenError::NotFound
    } else if errno == EACCES || errno == EPERM {
        FileOpenError::PermissionDenied
    } else {
        FileOpenError::InvalidFormat
    }
}

/// The path as `gzopen` takes it: its bytes followed by one NUL. A path
/// that holds a NUL itself names no file.
pub fn c_path_bytes(path: &str) -> (r: Result<Vec<u8>, FileOpenError>)
    ensures
        r is Ok <==> !path.spec_bytes().contains(0u8),
        r is Ok ==> r->Ok_0@ == path.spec_bytes().push(0u8),
        r is Err ==> r->Err_0 == FileOpenError::NotFound,
{
    let bytes = path.as_bytes();
    let mut out: Vec<u8> = Vec::new();
    let mut i: usize = 0;
    while i < bytes.len()
        invariant
            bytes@ == path.spec_bytes(),
            i <= bytes@.len(),
            out@ == bytes@.take(i as int),
            !out@.contains(0u8),
        decreases bytes@.len() - i,
    {
        if bytes[i] == 0 {
            assert(bytes@[i as int] == 0u8);
            return Err(FileOpenError::NotFound);
        }
        out.push(bytes[i]);
        i = i + 1;
        assert(bytes@.take(i as int) == bytes@.take(i - 1) + seq![bytes@[i - 1]]);
    }
    assert(bytes@.take(i as int) == bytes@);
    out.push(0u8);
    Ok(out)
}

/// Where a reader stands in the life of its native handle.
#[derive(Clone, Copy, Debug, PartialEq, Eq, Structural)]
pub enum Phase {
    /// No handle yet: the file must be opened.
    Opening,
    /// The handle is open: ask whether the stream has ended.
    CheckingEnd,
    /// The stream has not ended: read the next chunk.
    Reading,
    /// Reading is over, by the end of the stream or by an error: close.
    Closing,
    /// Nothing is left to do and no handle is open.
    Done,
}

/// The native call a reader asks for next.
#[derive(Clone, Copy, Debug, PartialEq, Eq, Structural)]
pub enum ReaderAction {
    /// Call `gzopen` on the path.
    Open,
    /// Call `gzeof` on the handle.
    QueryEnd,
    /// Call `gzread` on the handle into a buffer of `READ_CHUNK_LEN` bytes.
    Read,
    /// Call `gzclose` on the handle.
    Close,
    /// Take the result with [`GzReader::finish`].
    Finish,
}

/// What a native call returned.
#[derive(Debug)]
pub enum ReaderEvent {
    /// `gzopen` returned a handle.
    Opened,
    /// `gzopen` returned no handle.
    OpenFailed(FileOpenError),
    /// `gzeof` returned whether the stream has ended.
    EndQueried(bool),
    /// `gzread` returned a count, and the buffer it was given.
    ReadReturned(i32, Vec<u8>),
    /// `gzclose` returned a status.
    Closed(i32),
}

/// The state of a reader: its phase, the decompressed bytes gathered so
/// far, and the first error met.
pub ghost struct ReaderModel {
    pub phase: Phase,
    pub contents: Seq<u8>,
    pub failure: Option<GzReadError>,
}

/// A fresh reader: nothing is open and nothing was read.
pub open spec fn start() -> ReaderModel {
    ReaderModel { phase: Phase::Opening, contents: Seq::empty(), failure: None }
}

/// The action a reader in `phase` asks for.
pub open spec fn action_of(phase: Phase) -> ReaderAction {
    match phase {
        Phase::Opening => ReaderAction::Open,
        Phase::CheckingEnd => ReaderAction::QueryEnd,
        Phase::Reading => ReaderAction::Read,
        Phase::Closing => ReaderAction::Close,
        Phase::Done => ReaderAction::Finish,
    }
}

/// Whether `e` is the answer to the action a reader in `phase` asks for.
pub open spec fn accepts_spec(phase: Phase, e: ReaderEvent) -> bool {
    match e {
        ReaderEvent::Opened => phase == Phase::Opening,
        ReaderEvent::OpenFailed(_) => phase == Phase::Opening,
        ReaderEvent::EndQueried(_) => phase == Phase::CheckingEnd,
        ReaderEvent::ReadReturned(_, _) => phase == Phase::Reading,
        ReaderEvent::Closed(_) => phase == Phase::Closing,
    }
}

/// A read that delivered bytes: its count lies within the buffer.
pub open spec fn is_good_read(e: ReaderEvent) -> bool {
    match e {
        ReaderEvent::ReadReturned(n, buf) => 0 <= n <= buf@.len(),
        _ => false,
    }
}

/// The bytes a read delivered: the first `count` bytes of its buffer.
pub open spec fn chunk_of(e: ReaderEvent) -> Seq<u8> {
    match e {
        ReaderEvent::ReadReturned(n, buf) => buf@.take(n as int),
        _ => Seq::empty(),
    }
}

/// The state after event `e`.
pub open spec fn next(m: ReaderModel, e: ReaderEvent) -> ReaderModel {
    match e {
        ReaderEvent::Opened => ReaderModel { phase: Phase::CheckingEnd, ..m },
        ReaderEvent::OpenFailed(k) => ReaderModel {
            phase: Phase::Done,
            failure: Some(GzReadError::Open(k)),
            ..m
        },
        ReaderEvent::EndQueried(at_end) => ReaderModel {
            phase: if at_end {
                Phase::Closing
            } else {
                Phase::Reading
            },
            ..m
        },
        ReaderEvent::ReadReturned(n, buf) => if is_good_read(e) {
            ReaderModel { phase: Phase::CheckingEnd, contents: m.contents + chunk_of(e), ..m }
        } else {
            ReaderModel {
                phase: Phase::Closing,
                failure: Some(GzReadError::Read(ReadError::NativeError(n))),
                ..m
            }
        },
        ReaderEvent::Closed(status) => ReaderModel {
            phase: Phase::Done,
            failure: if m.failure is Some {
                m.failure
            } else if status != 0 {
                Some(GzReadError::Read(ReadError::NativeError(status)))
            } else {
                None
            },
            ..m
        },
    }
}

/// What reading the file comes to once the reader is done: the first error
/// met, or else the gathered bytes decoded as UTF-8.
pub open spec fn outcome(m: ReaderModel) -> Result<Seq<char>, GzReadError> {
    match m.failure {
        Some(e) => Err(e),
        None => if valid_utf8(m.contents) {
            Ok(decode_utf8(m.contents))
        } else {
            Err(GzReadError::Decode)
        },
    }
}

/// The state after the events `es`, one after the other.
pub open spec fn run(m: ReaderModel, es: Seq<ReaderEvent>) -> ReaderModel
    decreases es.len(),
{
    if es.len() == 0 {
        m
    } else {
        run(next(m, es[0]), es.drop_first())
    }
}

/// The events of a stream that has not ended yet and then delivers each
/// of `reads`: before each read, `gzeof` answers that more is to come.
pub open spec fn read_rounds(reads: Seq<ReaderEvent>) -> Seq<ReaderEvent>
    decreases reads.len(),
{
    if reads.len() == 0 {
        Seq::empty()
    } else {
        seq![ReaderEvent::EndQueried(false), reads[0]] + read_rounds(reads.drop_first())
    }
}

/// All bytes that `reads` delivered, in order.
pub open spec fn delivered(reads: Seq<ReaderEvent>) -> Seq<u8>
    decreases reads.len(),
{
    if reads.len() == 0 {
        Seq::empty()
    } else {
        chunk_of(reads[0]) + delivered(reads.drop_first())
    }
}

/// Running two runs of events one after the other is running their
/// concatenation.
pub proof fn lemma_run_concat(m: ReaderModel, a: Seq<ReaderEvent>, b: Seq<ReaderEvent>)
    ensures
        run(m, a + b) == run(run(m, a), b),
    decreases a.len(),
{
    if a.len() > 0 {
        assert((a + b).drop_first() == a.drop_first() + b);
        lemma_run_concat(next(m, a[0]), a.drop_first(), b);
    } else {
        assert(a + b == b);
    }
}

/// Successful reads from an open stream append exactly the bytes they
/// delivered and leave the reader ready to ask for the end again.
pub proof fn lemma_read_rounds(m: ReaderModel, reads: Seq<ReaderEvent>)
    requires
        m.phase == Phase::CheckingEnd,
        m.failure is None,
        forall|i: int| 0 <= i < reads.len() ==> is_good_read(#[trigger] reads[i]),
    ensures
        run(m, read_rounds(reads)) == (ReaderModel {
            contents: m.contents + delivered(reads),
            ..m
        }),
    decreases reads.len(),
{
    if reads.len() == 0 {
        assert(m.contents + delivered(reads) == m.contents);
    } else {
        let rest = reads.drop_first();
        let head = seq![ReaderEvent::EndQueried(false), reads[0]];
        assert(is_good_read(reads[0]));
        lemma_run_concat(m, head, read_rounds(rest));
        assert(head.drop_first() == seq![reads[0]]);
        assert(head.drop_first().drop_first() == Seq::<ReaderEvent>::empty());
        reveal_with_fuel(run, 3);
        let m1 = run(m, head);
        assert(m1 == ReaderModel { contents: m.contents + chunk_of(reads[0]), ..m });
        assert forall|i: int| 0 <= i < rest.len() implies is_good_read(#[trigger] rest[i]) by {
            assert(rest[i] == reads[i + 1]);
        }
        lemma_read_rounds(m1, rest);
        assert(m.contents + chunk_of(reads[0]) + delivered(rest) == m.contents + delivered(
            reads,
        ));
    }
}

/// A file whose stream delivers `reads` and then ends is read completely:
/// once opened, the reader asks for every read, then for the handle to be
/// closed, and once it is closed the result is the concatenation of all
/// delivered bytes, decoded as UTF-8.
pub proof fn lemma_reads_to_end_deliver_all(reads: Seq<ReaderEvent>)
    requires
        forall|i: int| 0 <= i < reads.len() ==> is_good_read(#[trigger] reads[i]),
    ensures
        ({
            let drained = run(
                start(),
                seq![ReaderEvent::Opened] + read_rounds(reads) + seq![
                    ReaderEvent::EndQueried(true),
                ],
            );
            let closed = next(drained, ReaderEvent::Closed(0));
            &&& drained.phase == Phase::Closing
            &&& action_of(drained.phase) == ReaderAction::Close
            &&& drained.contents == delivered(reads)
            &&& closed.phase == Phase::Done
            &&& outcome(closed) == if valid_utf8(delivered(reads)) {
                Ok::<Seq<char>, GzReadError>(decode_utf8(delivered(reads)))
            } else {
                Err(GzReadError::Decode)
            }
        }),
{
    let opened = seq![ReaderEvent::Opened];
    let ended = seq![ReaderEvent::EndQueried(true)];
    lemma_run_concat(start(), opened + read_rounds(reads), ended);
    lemma_run_concat(start(), opened, read_rounds(reads));
    reveal_with_fuel(run, 2);
    let m1 = run(start(), opened);
    assert(opened.drop_first() == Seq::<ReaderEvent>::empty());
    assert(m1 == ReaderModel { phase: Phase::CheckingEnd, ..start() });
    lemma_read_rounds(m1, reads);
    assert(Seq::<u8>::empty() + delivered(reads) == delivered(reads));
    assert(ended.drop_first() == Seq::<ReaderEvent>::empty());
}

/// A read that fails mid-stream is never passed over: the reader asks for
/// the handle to be closed next, and whatever the close returns, the
/// result is that read's error.
pub proof fn lemma_failed_read_closes(m: ReaderModel, n: i32, buf: Vec<u8>, close_status: i32)
    requires
        m.phase == Phase::Reading,
        m.failure is None,
        n < 0,
    ensures
        ({
            let failed = next(m, ReaderEvent::ReadReturned(n, buf));
            let closed = next(failed, ReaderEvent::Closed(close_status));
            &&& action_of(failed.phase) == ReaderAction::Close
            &&& closed.phase == Phase::Done
            &&& outcome(closed) == Err::<Seq<char>, GzReadError>(
                GzReadError::Read(ReadError::NativeError(n)),
            )
        }),
{
}

/// Relies on `String::from_utf8`: it accepts exactly the valid UTF-8 byte
/// sequences, and the string holds the characters they encode.
#[verifier::external_body]
fn string_from_utf8(bytes: Vec<u8>) -> (r: Option<String>)
    ensures
        r is Some <==> valid_utf8(bytes@),
        r is Some ==> r->Some_0@ == decode_utf8(bytes@),
{
    String::from_utf8(bytes).ok()
}

/// Reads a whole gzip file, one native call at a time.
pub struct GzReader {
    phase: Phase,
    contents: Vec<u8>,
    failure: Option<GzReadError>,
}

impl View for GzReader {
    type V = ReaderModel;

    closed spec fn view(&self) -> ReaderModel {
        ReaderModel { phase: self.phase, contents: self.contents@, failure: self.failure }
    }
}

impl GzReader {
    /// A reader that has not opened the file yet.
    pub fn new() -> (r: GzReader)
        ensures
            r@ == start(),
    {
        GzReader { phase: Phase::Opening, contents: Vec::new(), failure: None }
    }

    /// The native call this reader asks for next.
    pub fn action(&self) -> (a: ReaderAction)
        ensures
            a == action_of(self@.phase),
    {
        match self.phase {
            Phase::Opening => ReaderAction::Open,
            Phase::CheckingEnd => ReaderAction::QueryEnd,
            Phase::Reading => ReaderAction::Read,
            Phase::Closing => ReaderAction::Close,
            Phase::Done => ReaderAction::Finish,
        }
    }

    /// Whether `e` answers the action this reader asks for.
    pub fn accepts(&self, e: &ReaderEvent) -> (r: bool)
        ensures
            r == accepts_spec(self@.phase, *e),
    {
        match e {
            ReaderEvent::Opened => self.phase == Phase::Opening,
            ReaderEvent::OpenFailed(_) => self.phase == Phase::Opening,
            ReaderEvent::EndQueried(_) => self.phase == Phase::CheckingEnd,
            ReaderEvent::ReadReturned(_, _) => self.phase == Phase::Reading,
            ReaderEvent::Closed(_) => self.phase == Phase::Closing,
        }
    }

    /// Takes in what the last native call returned and gives the next
    /// native call to make.
    pub fn step(&mut self, e: ReaderEvent) -> (a: ReaderAction)
        requires
            accepts_spec(old(self)@.phase, e),
        ensures
            final(self)@ == next(old(self)@, e),
            a == action_of(final(self)@.phase),
    {
        match e {
            ReaderEvent::Opened => {
                self.phase = Phase::CheckingEnd;
            },
            ReaderEvent::OpenFailed(k) => {
                self.phase = Phase::Done;
                self.failure = Some(GzReadError::Open(k));
            },
            ReaderEvent::EndQueried(at_end) => {
                self.phase = if at_end {
                    Phase::Closing
                } else {
                    Phase::Reading
                };
            },
            ReaderEvent::ReadReturned(n, buf) => {
                if 0 <= n && n as usize <= buf.len() {
                    let count = n as usize;
                    let ghost before = self.contents@;
                    let mut i: usize = 0;
                    while i < count
                        invariant
                            count <= buf@.len(),
                            i <= count,
                            self.contents@ == before + buf@.take(i as int),
                            self.phase == old(self).phase,
                            self.failure == old(self).failure,
                        decreases count - i,
                    {
                        self.contents.push(buf[i]);
                        i = i + 1;
                        assert(buf@.take(i as int) == buf@.take(i - 1) + seq![buf@[i - 1]]);
                    }
                    assert(self.contents@ == old(self)@.contents + chunk_of(e));
                    self.phase = Phase::CheckingEnd;
                } else {
                    self.phase = Phase::Closing;
                    self.failure = Some(GzReadError::Read(ReadError::NativeError(n)));
                }
            },
            ReaderEvent::Closed(status) => {
                self.phase = Phase::Done;
                if self.failure.is_none() && status != 0 {
                    self.failure = Some(GzReadError::Read(ReadError::NativeError(status)));
                }
            },
        }
        self.action()
    }

    /// The decoded text of the whole file, or the first error met.
    pub fn finish(self) -> (r: Result<String, GzReadError>)
        requires
            self@.phase == Phase::Done,
        ensures
            r is Ok <==> outcome(self@) is Ok,
            r is Ok ==> r->Ok_0@ == outcome(self@)->Ok_0,
            r is Err ==> outcome(self@) == Err::<Seq<char>, _>(r->Err_0),
    {
        match self.failure {
            Some(e) => Err(e),
            None => match string_from_utf8(self.contents) {
                Some(text) => Ok(text),
                None => Err(GzReadError::Decode),
            },
        }
    }
}

} // verus!
