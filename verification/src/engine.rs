//! Plain values that stand for what the container engine reports, and the
//! rules that read them: whether an image exists, what a pull or build frame
//! tells the client, how the captured output accumulates, and how the exit
//! status of a run is derived.

use vstd::prelude::*;
use vstd::string::*;
use vstd::utf8::{char_is_scalar, decode_utf8, encode_scalar, encode_utf8, valid_utf8};
use crate::models::{chunk_views, ChunkView, CodeRunnerChunk};
use crate::pipeline::no_terminal;
use crate::text::{chars_of, concat2, i64_to_decimal, signed_decimal};

verus! {

/// The kinds of engine failure that the runner tells apart.
#[derive(Debug, Clone, Copy, PartialEq, Eq, Structural)]
pub enum DockerErrorKind {
    /// The engine answered with an HTTP error status.
    ResponseServerError { status_code: u16 },
    /// Waiting for a container ended with an error that carries its exit
    /// code.
    ContainerWaitError { code: i64 },
    /// Any other transport or protocol failure.
    Other,
}

/// A failure reported by the engine client.
#[derive(Debug, Clone, PartialEq, Eq)]
pub struct DockerError {
    pub kind: DockerErrorKind,
    /// The failure as the engine client words it.
    pub text: String,
}

/// Whether an image is present locally, from the answer to an inspection:
/// present on success, absent on a not-found response, and a failure
/// otherwise.
pub open spec fn image_presence(kind: Option<DockerErrorKind>) -> Option<bool> {
    match kind {
        None => Some(true),
        Some(DockerErrorKind::ResponseServerError { status_code }) => if status_code == 404 {
            Some(false)
        } else {
            None
        },
        Some(_) => None,
    }
}

/// The failure kind of an inspection answer, if it failed.
pub open spec fn failure_kind(r: Result<(), DockerError>) -> Option<DockerErrorKind> {
    match r {
        Ok(_) => None,
        Err(e) => Some(e.kind),
    }
}

/// Reads the answer to an image inspection: `Ok(true)` if the image is
/// present locally, `Ok(false)` on a not-found response, and the failure
/// itself otherwise.
pub fn exists_image(inspected: Result<(), DockerError>) -> (r: Result<bool, DockerError>)
    ensures
        match image_presence(failure_kind(inspected)) {
            Some(present) => r == Ok::<bool, DockerError>(present),
            None => inspected is Err && r == Err::<bool, DockerError>(inspected->Err_0),
        },
{
    match inspected {
        Ok(_) => Ok(true),
        Err(err) => {
            match err.kind {
                DockerErrorKind::ResponseServerError { status_code } => {
                    if status_code == 404 {
                        Ok(false)
                    } else {
                        Err(err)
                    }
                },
                _ => Err(err),
            }
        },
    }
}

/// One progress frame of an image pull.
#[derive(Debug, Clone, PartialEq, Eq)]
pub struct PullFrame {
    pub status: Option<String>,
    pub current: Option<i64>,
    pub total: Option<i64>,
    /// The frame's error detail, rendered for display.
    pub error_detail: Option<String>,
}

/// Text of an optional string, empty when absent.
pub open spec fn text_or_empty(s: Option<String>) -> Seq<char> {
    match s {
        Some(t) => t@,
        None => Seq::empty(),
    }
}

/// The debug line for the progress of a pull.
pub open spec fn msg_pull_progress(status: Seq<char>, current: i64, total: i64) -> Seq<char> {
    "Pulling image: "@ + status + " "@ + signed_decimal(current as int) + "/"@ + signed_decimal(
        total as int,
    )
}

/// The info line for an error frame of a pull.
pub open spec fn msg_pull_error(detail: Seq<char>) -> Seq<char> {
    "Error while pulling image: "@ + detail
}

/// The events that one pull frame gives rise to: a debug line when the frame
/// carries both a current and a total count, then an info line when it
/// carries an error.
pub open spec fn pull_frame_chunks(frame: PullFrame) -> Seq<ChunkView> {
    let progress = if frame.current is Some && frame.total is Some {
        seq![
            ChunkView::Debug(
                msg_pull_progress(
                    text_or_empty(frame.status),
                    frame.current->0,
                    frame.total->0,
                ),
            ),
        ]
    } else {
        Seq::empty()
    };
    let failure = match frame.error_detail {
        Some(d) => seq![ChunkView::Info(msg_pull_error(d@))],
        None => Seq::empty(),
    };
    progress + failure
}

/// Turns one frame of pull progress into the events for the client.
pub fn process_pull_frame(frame: &PullFrame) -> (events: Vec<CodeRunnerChunk>)
    ensures
        chunk_views(events@) == pull_frame_chunks(*frame),
{
    let mut events: Vec<CodeRunnerChunk> = Vec::new();
    if let Some(current) = frame.current {
        if let Some(total) = frame.total {
            let mut msg = "Pulling image: ".to_owned();
            match &frame.status {
                Some(s) => {
                    msg.append(s.as_str());
                },
                None => {},
            }
            msg.append(" ");
            msg.append(i64_to_decimal(current).as_str());
            msg.append("/");
            msg.append(i64_to_decimal(total).as_str());
            assert(msg@ =~= msg_pull_progress(text_or_empty(frame.status), current, total));
            events.push(CodeRunnerChunk::Debug(msg));
        }
    }
    match &frame.error_detail {
        Some(d) => {
            events.push(CodeRunnerChunk::Info(concat2("Error while pulling image: ", d.as_str())));
        },
        None => {},
    }
    assert(chunk_views(events@) =~= pull_frame_chunks(*frame));
    events
}

/// Index of the first transport failure of a pull stream at or after `from`;
/// the length of the stream if there is none.
pub open spec fn pull_failure_from(items: Seq<Result<PullFrame, DockerError>>, from: int) -> int
    decreases items.len() - from,
{
    if from < 0 || from >= items.len() {
        items.len() as int
    } else if items[from] is Err {
        from
    } else {
        pull_failure_from(items, from + 1)
    }
}

/// The events of the first `upto` frames of a pull stream.
pub open spec fn pull_stream_chunks(items: Seq<Result<PullFrame, DockerError>>, upto: int) -> Seq<
    ChunkView,
>
    decreases upto,
{
    if upto <= 0 {
        Seq::empty()
    } else {
        pull_stream_chunks(items, upto - 1) + (match items[upto - 1] {
            Ok(frame) => pull_frame_chunks(frame),
            Err(_) => Seq::empty(),
        })
    }
}

/// Reads a pull stream: forwards progress and error frames as events, and
/// fails only on a transport failure, at which it stops.
pub fn process_pull_stream(items: &Vec<Result<PullFrame, DockerError>>) -> (r: (
    Result<(), DockerError>,
    Vec<CodeRunnerChunk>,
))
    ensures
        ({
            let k = pull_failure_from(items@, 0);
            &&& 0 <= k <= items@.len()
            &&& chunk_views(r.1@) == pull_stream_chunks(items@, k)
            &&& k == items@.len() ==> r.0 is Ok
            &&& k < items@.len() ==> r.0 is Err && items@[k] is Err && r.0->Err_0.kind
                == items@[k]->Err_0.kind && r.0->Err_0.text@ == items@[k]->Err_0.text@
        }),
{
    let mut events: Vec<CodeRunnerChunk> = Vec::new();
    let mut i: usize = 0;
    assert(chunk_views(events@) =~= pull_stream_chunks(items@, 0));
    while i < items.len()
        invariant
            i <= items.len(),
            pull_failure_from(items@, 0) == pull_failure_from(items@, i as int),
            chunk_views(events@) == pull_stream_chunks(items@, i as int),
        decreases items.len() - i,
    {
        match &items[i] {
            Ok(frame) => {
                let ghost before = chunk_views(events@);
                let mut more = process_pull_frame(frame);
                let ghost more_views = chunk_views(more@);
                events.append(&mut more);
                assert(chunk_views(events@) =~= before + more_views);
            },
            Err(err) => {
                return (Err(DockerError { kind: err.kind, text: err.text.clone() }), events);
            },
        }
        i += 1;
    }
    (Ok(()), events)
}

/// One frame of an image build.
#[derive(Debug, Clone, PartialEq, Eq)]
pub struct BuildFrame {
    /// The image id of an `aux` frame.
    pub aux_id: Option<String>,
    /// A piece of the build's output.
    pub stream: Option<String>,
    /// The message of the frame's error detail.
    pub error_message: Option<String>,
}

/// What a build stream has told so far.
#[derive(Debug, Clone, PartialEq, Eq)]
pub struct BuildProgress {
    pub image_id: Option<String>,
    pub build_logs: String,
}

/// Model of a `BuildProgress`.
pub struct BuildProgressView {
    pub image_id: Option<Seq<char>>,
    pub build_logs: Seq<char>,
}

impl View for BuildProgress {
    type V = BuildProgressView;

    open spec fn view(&self) -> BuildProgressView {
        BuildProgressView {
            image_id: match self.image_id {
                Some(id) => Some(id@),
                None => None,
            },
            build_logs: self.build_logs@,
        }
    }
}

/// The info line for an error of a build.
pub open spec fn msg_build_error(err: Seq<char>) -> Seq<char> {
    "Error during build: "@ + err
}

/// The newline and message that a build error adds to the logs.
pub open spec fn build_error_log(err: Seq<char>) -> Seq<char> {
    seq!['\n'] + msg_build_error(err)
}

/// The progress after one more item of the build stream.
pub open spec fn build_progress_after(
    before: BuildProgressView,
    item: Result<BuildFrame, DockerError>,
) -> BuildProgressView {
    match item {
        Ok(frame) => BuildProgressView {
            image_id: match frame.aux_id {
                Some(id) => Some(id@),
                None => before.image_id,
            },
            build_logs: before.build_logs + text_or_empty(frame.stream) + (match frame.error_message {
                Some(e) => build_error_log(e@),
                None => Seq::empty(),
            }),
        },
        Err(err) => BuildProgressView {
            image_id: before.image_id,
            build_logs: before.build_logs + build_error_log(err.text@),
        },
    }
}

/// The events that one item of the build stream gives rise to: every piece
/// of output as a debug line, every error as an info line.
pub open spec fn build_item_chunks(item: Result<BuildFrame, DockerError>) -> Seq<ChunkView> {
    match item {
        Ok(frame) => (match frame.stream {
            Some(s) => seq![ChunkView::Debug(s@)],
            None => Seq::empty(),
        }) + (match frame.error_message {
            Some(e) => seq![ChunkView::Info(msg_build_error(e@))],
            None => Seq::empty(),
        }),
        Err(err) => seq![ChunkView::Info(msg_build_error(err.text@))],
    }
}

/// The progress after a whole build stream.
pub open spec fn build_progress_of(items: Seq<Result<BuildFrame, DockerError>>) -> BuildProgressView
    decreases items.len(),
{
    if items.len() == 0 {
        BuildProgressView { image_id: None, build_logs: Seq::empty() }
    } else {
        build_progress_after(build_progress_of(items.drop_last()), items.last())
    }
}

/// The events of a whole build stream.
pub open spec fn build_stream_chunks(items: Seq<Result<BuildFrame, DockerError>>) -> Seq<ChunkView>
    decreases items.len(),
{
    if items.len() == 0 {
        Seq::empty()
    } else {
        build_stream_chunks(items.drop_last()) + build_item_chunks(items.last())
    }
}

/// Some frame of the stream carries an image id.
pub open spec fn has_aux_id(items: Seq<Result<BuildFrame, DockerError>>) -> bool {
    exists|i: int| 0 <= i < items.len() && (#[trigger] items[i]) is Ok && items[i]->Ok_0.aux_id is Some
}

/// A build yields an image id if and only if a frame with one arrived before
/// the end of the stream.
pub proof fn lemma_image_id_iff_aux_frame(items: Seq<Result<BuildFrame, DockerError>>)
    ensures
        build_progress_of(items).image_id is Some <==> has_aux_id(items),
    decreases items.len(),
{
    if items.len() > 0 {
        let front = items.drop_last();
        lemma_image_id_iff_aux_frame(front);
        let last = items.last();
        if has_aux_id(front) {
            let i = choose|i: int| 0 <= i < front.len() && (#[trigger] front[i]) is Ok && front[i]->Ok_0.aux_id is Some;
            assert(items[i] == front[i]);
        }
        if has_aux_id(items) {
            let i = choose|i: int| 0 <= i < items.len() && (#[trigger] items[i]) is Ok && items[i]->Ok_0.aux_id is Some;
            if i < items.len() - 1 {
                assert(front[i] == items[i]);
            }
        }
        if last is Ok && last->Ok_0.aux_id is Some {
            assert(items[items.len() - 1] == last);
        }
    }
}

impl BuildProgress {
    /// Nothing seen yet.
    pub fn new() -> (p: BuildProgress)
        ensures
            p@ == build_progress_of(Seq::empty()),
    {
        BuildProgress { image_id: None, build_logs: String::new() }
    }

    /// Takes one item of the build stream: remembers an image id, appends
    /// output and errors to the logs, and returns the events for the client.
    pub fn absorb(&mut self, item: &Result<BuildFrame, DockerError>) -> (events: Vec<
        CodeRunnerChunk,
    >)
        ensures
            final(self)@ == build_progress_after(old(self)@, *item),
            chunk_views(events@) == build_item_chunks(*item),
    {
        let mut events: Vec<CodeRunnerChunk> = Vec::new();
        proof {
            reveal_strlit("\n");
            assert("\n"@ =~= seq!['\n']);
        }
        match item {
            Ok(frame) => {
                match &frame.aux_id {
                    Some(id) => {
                        self.image_id = Some(id.clone());
                    },
                    None => {},
                }
                match &frame.stream {
                    Some(s) => {
                        self.build_logs.append(s.as_str());
                        events.push(CodeRunnerChunk::Debug(s.clone()));
                    },
                    None => {},
                }
                match &frame.error_message {
                    Some(e) => {
                        let message = concat2("Error during build: ", e.as_str());
                        self.build_logs.append("\n");
                        self.build_logs.append(message.as_str());
                        events.push(CodeRunnerChunk::Info(message));
                    },
                    None => {},
                }
                assert(self@.build_logs =~= build_progress_after(old(self)@, *item).build_logs);
                assert(chunk_views(events@) =~= build_item_chunks(*item));
            },
            Err(err) => {
                let message = concat2("Error during build: ", err.text.as_str());
                self.build_logs.append("\n");
                self.build_logs.append(message.as_str());
                events.push(CodeRunnerChunk::Info(message));
                assert(self@.build_logs =~= build_progress_after(old(self)@, *item).build_logs);
                assert(chunk_views(events@) =~= build_item_chunks(*item));
            },
        }
        events
    }
}

/// Reads a whole build stream: returns the image id, if one arrived, with
/// the accumulated logs, and the events for the client.
pub fn process_build_stream(items: &Vec<Result<BuildFrame, DockerError>>) -> (r: (
    BuildProgress,
    Vec<CodeRunnerChunk>,
))
    ensures
        r.0@ == build_progress_of(items@),
        chunk_views(r.1@) == build_stream_chunks(items@),
        r.0.image_id is Some <==> has_aux_id(items@),
{
    let mut progress = BuildProgress::new();
    let mut events: Vec<CodeRunnerChunk> = Vec::new();
    let mut i: usize = 0;
    assert(items@.take(0) =~= Seq::empty());
    assert(chunk_views(events@) =~= build_stream_chunks(items@.take(0)));
    while i < items.len()
        invariant
            i <= items.len(),
            progress@ == build_progress_of(items@.take(i as int)),
            chunk_views(events@) == build_stream_chunks(items@.take(i as int)),
        decreases items.len() - i,
    {
        let ghost prev_events = events@;
        let mut more = progress.absorb(&items[i]);
        let ghost more_views = chunk_views(more@);
        events.append(&mut more);
        proof {
            let next = items@.take(i + 1);
            assert(next.drop_last() =~= items@.take(i as int));
            assert(next.last() == items@[i as int]);
            assert(chunk_views(events@) =~= chunk_views(prev_events) + more_views);
        }
        i += 1;
    }
    proof {
        assert(items@.take(items.len() as int) =~= items@);
        lemma_image_id_iff_aux_frame(items@);
    }
    (progress, events)
}

/// How a lossy UTF-8 decoder reads `bytes`: each maximal invalid part
/// becomes U+FFFD, the rest is decoded.
pub uninterp spec fn utf8_lossy(bytes: Seq<u8>) -> Seq<char>;

/// `String::from_utf8_lossy` of std, named by `utf8_lossy`. Valid UTF-8 is
/// decoded as it stands.
#[verifier::external_body]
fn decode_lossy(bytes: &Vec<u8>) -> (s: String)
    ensures
        s@ == utf8_lossy(bytes@),
        valid_utf8(bytes@) ==> s@ == decode_utf8(bytes@),
{
    String::from_utf8_lossy(bytes).into_owned()
}

/// One frame of a container's multiplexed output.
#[derive(Debug, Clone, PartialEq, Eq)]
pub enum LogOutput {
    StdErr { message: Vec<u8> },
    StdOut { message: Vec<u8> },
    StdIn { message: Vec<u8> },
    Console { message: Vec<u8> },
}

/// Number of bytes after which an accumulator takes no further frame.
pub const MAX_OUTPUT_BYTES: usize = 1048576;

/// Seconds granted to late output after the run's own time limit.
pub const GRACE_PERIOD_SECS: u64 = 5;

/// The accumulated standard output and standard error of a run. Each
/// accumulator holds at most `MAX_OUTPUT_BYTES` bytes; once a line has been
/// cut to fit, the accumulator is full and takes nothing more.
#[derive(Debug, Clone, PartialEq, Eq)]
pub struct OutputCapture {
    pub stdout: String,
    pub stderr: String,
    /// A line of standard output was cut.
    pub stdout_full: bool,
    /// A line of standard error was cut.
    pub stderr_full: bool,
}

/// Number of bytes of the UTF-8 encoding of `c`.
pub open spec fn char_width(c: char) -> int {
    encode_scalar(c as u32).len() as int
}

/// Number of bytes of the UTF-8 encoding of `chars`.
pub open spec fn byte_len(chars: Seq<char>) -> int {
    encode_utf8(chars).len() as int
}

/// The longest prefix of `chars` whose UTF-8 encoding takes at most `room`
/// bytes.
pub open spec fn fitting(chars: Seq<char>, room: int) -> Seq<char>
    decreases chars.len(),
{
    if chars.len() == 0 || char_width(chars[0]) > room {
        Seq::empty()
    } else {
        seq![chars[0]] + fitting(chars.drop_first(), room - char_width(chars[0]))
    }
}

/// The line that a frame with text `text` adds to an accumulator.
pub open spec fn line_of(text: Seq<char>) -> Seq<char> {
    text + seq!['\n']
}

/// The text of an accumulator after a frame with text `text`: the frame's
/// line is appended as far as it fits under the cap, unless the accumulator
/// is full.
pub open spec fn accumulated(before: Seq<char>, full: bool, text: Seq<char>) -> Seq<char> {
    if full {
        before
    } else {
        before + fitting(line_of(text), MAX_OUTPUT_BYTES - byte_len(before))
    }
}

/// Whether an accumulator is full after a frame with text `text`: it was
/// full, or the frame's line did not fit whole.
pub open spec fn full_after(before: Seq<char>, full: bool, text: Seq<char>) -> bool {
    full || fitting(line_of(text), MAX_OUTPUT_BYTES - byte_len(before)).len() < line_of(text).len()
}

/// The encoding of a concatenation is the concatenation of the encodings.
pub proof fn lemma_encode_concat(a: Seq<char>, b: Seq<char>)
    ensures
        encode_utf8(a + b) == encode_utf8(a) + encode_utf8(b),
        byte_len(a + b) == byte_len(a) + byte_len(b),
    decreases a.len(),
{
    if a.len() == 0 {
        assert(a + b =~= b);
        assert(encode_utf8(a) + encode_utf8(b) =~= encode_utf8(b));
    } else {
        lemma_encode_concat(a.drop_first(), b);
        assert((a + b).drop_first() =~= a.drop_first() + b);
        assert((a + b)[0] == a[0]);
        assert(encode_utf8(a + b) =~= encode_utf8(a) + encode_utf8(b));
    }
}

/// What fits is a prefix of the text, and takes no more bytes than there is
/// room.
pub proof fn lemma_fitting_fits(chars: Seq<char>, room: int)
    ensures
        fitting(chars, room).is_prefix_of(chars),
        room >= 0 ==> byte_len(fitting(chars, room)) <= room,
        room < 0 ==> fitting(chars, room).len() == 0,
    decreases chars.len(),
{
    if chars.len() == 0 || char_width(chars[0]) > room {
        assert(encode_utf8(Seq::<char>::empty()).len() == 0);
        if room < 0 && chars.len() > 0 {
            assert(char_width(chars[0]) >= 0);
        }
    } else {
        let rest = chars.drop_first();
        let w = char_width(chars[0]);
        lemma_fitting_fits(rest, room - w);
        let kept = fitting(chars, room);
        let tail = fitting(rest, room - w);
        assert(kept =~= seq![chars[0]] + tail);
        lemma_encode_concat(seq![chars[0]], tail);
        let one = seq![chars[0]];
        assert(one.len() == 1 && one[0] == chars[0]);
        assert(one.drop_first() =~= Seq::<char>::empty());
        assert(encode_utf8(one.drop_first()) =~= Seq::<u8>::empty());
        assert(encode_utf8(one) =~= encode_scalar(chars[0] as u32) + encode_utf8(
            one.drop_first(),
        ));
        assert(encode_utf8(one) =~= encode_scalar(chars[0] as u32));
        assert forall|i: int| 0 <= i < kept.len() implies kept[i] == chars[i] by {
            if i > 0 {
                assert(kept[i] == tail[i - 1]);
                assert(tail[i - 1] == rest[i - 1]);
            }
        }
    }
}

/// Cutting a concatenation: if the first part fits whole, the cut goes on
/// into the second part with the room that is left; otherwise it is the cut
/// of the first part.
pub proof fn lemma_fitting_concat(a: Seq<char>, b: Seq<char>, room: int)
    ensures
        fitting(a + b, room) == (if fitting(a, room).len() == a.len() {
            a + fitting(b, room - byte_len(a))
        } else {
            fitting(a, room)
        }),
    decreases a.len(),
{
    if a.len() == 0 {
        assert(a + b =~= b);
        assert(a + fitting(b, room - byte_len(a)) =~= fitting(b, room));
    } else {
        let w = char_width(a[0]);
        assert((a + b)[0] == a[0]);
        assert((a + b).drop_first() =~= a.drop_first() + b);
        if w > room {
        } else {
            lemma_fitting_concat(a.drop_first(), b, room - w);
            lemma_fitting_fits(a.drop_first(), room - w);
            assert(byte_len(a) == w + byte_len(a.drop_first()));
            if fitting(a.drop_first(), room - w).len() == a.drop_first().len() {
                assert(fitting(a + b, room) =~= a + fitting(b, room - byte_len(a)));
            } else {
                assert(fitting(a + b, room) =~= fitting(a, room));
            }
        }
    }
}

/// The note for a frame of output that could not be read.
pub open spec fn msg_output_error(err: Seq<char>) -> Seq<char> {
    "Error while processing output: "@ + err
}

/// The event that one item of the output stream is forwarded as, if any.
pub open spec fn output_item_chunk(item: Result<LogOutput, DockerError>) -> Option<ChunkView> {
    match item {
        Ok(LogOutput::StdOut { message }) => Some(ChunkView::Stdout(utf8_lossy(message@))),
        Ok(LogOutput::StdErr { message }) => Some(ChunkView::Stderr(utf8_lossy(message@))),
        Ok(_) => None,
        Err(err) => Some(ChunkView::Info(msg_output_error(err.text@))),
    }
}

/// The text of an output frame for the accumulator `stdout` or `stderr`,
/// if it is a frame of that stream.
pub open spec fn frame_text(item: Result<LogOutput, DockerError>, stdout: bool) -> Option<Seq<char>> {
    match item {
        Ok(LogOutput::StdOut { message }) => if stdout {
            Some(utf8_lossy(message@))
        } else {
            None
        },
        Ok(LogOutput::StdErr { message }) => if stdout {
            None
        } else {
            Some(utf8_lossy(message@))
        },
        _ => None,
    }
}

/// A frame of valid UTF-8 is forwarded as it stands.
pub open spec fn decodes_exactly(item: Result<LogOutput, DockerError>) -> bool {
    match item {
        Ok(LogOutput::StdOut { message }) => valid_utf8(message@) ==> utf8_lossy(message@)
            == decode_utf8(message@),
        Ok(LogOutput::StdErr { message }) => valid_utf8(message@) ==> utf8_lossy(message@)
            == decode_utf8(message@),
        _ => true,
    }
}

/// An accumulator after one item of the output stream.
pub open spec fn text_after(
    before: Seq<char>,
    full: bool,
    item: Result<LogOutput, DockerError>,
    stdout: bool,
) -> Seq<char> {
    match frame_text(item, stdout) {
        Some(text) => accumulated(before, full, text),
        None => before,
    }
}

/// Whether an accumulator is full after one item of the output stream.
pub open spec fn full_after_item(
    before: Seq<char>,
    full: bool,
    item: Result<LogOutput, DockerError>,
    stdout: bool,
) -> bool {
    match frame_text(item, stdout) {
        Some(text) => full_after(before, full, text),
        None => full,
    }
}

/// The budget of the output task: the run's time limit and a grace period
/// for late flushes.
pub fn output_budget_secs(timeout: u32) -> (secs: u64)
    ensures
        secs == timeout + GRACE_PERIOD_SECS,
{
    timeout as u64 + GRACE_PERIOD_SECS
}

fn char_width_of(c: char) -> (w: usize)
    ensures
        w == char_width(c),
        1 <= w <= 4,
{
    proof {
        char_is_scalar(c);
    }
    let v: u32 = c as u32;
    if v < 0x80 {
        1
    } else if v < 0x800 {
        2
    } else if v < 0x10000 {
        3
    } else {
        4
    }
}

fn accumulate(buffer: &mut String, full: &mut bool, text: &str)
    requires
        byte_len(old(buffer)@) <= MAX_OUTPUT_BYTES,
    ensures
        final(buffer)@ == accumulated(old(buffer)@, *old(full), text@),
        *final(full) == full_after(old(buffer)@, *old(full), text@),
        byte_len(final(buffer)@) <= MAX_OUTPUT_BYTES,
        old(buffer)@.is_prefix_of(final(buffer)@),
        final(buffer)@.is_prefix_of(old(buffer)@ + line_of(text@)),
{
    if *full {
        assert(buffer@.is_prefix_of(buffer@ + line_of(text@)));
        return ;
    }
    let mut line = chars_of(text);
    line.push('\n');
    assert(line@ =~= line_of(text@));
    let ghost before = buffer@;
    let used: usize = buffer.as_str().as_bytes().len();
    let ghost room0: int = MAX_OUTPUT_BYTES - used;
    let mut room: usize = MAX_OUTPUT_BYTES - used;
    let mut i: usize = 0;
    proof {
        assert(line@.take(0) =~= Seq::<char>::empty());
        assert(line@.skip(0) =~= line@);
        assert(before + line@.take(0) =~= before);
    }
    while i < line.len() && char_width_of(line[i]) <= room
        invariant
            i <= line.len(),
            buffer@ == before + line@.take(i as int),
            fitting(line@, room0) == line@.take(i as int) + fitting(line@.skip(i as int), room as int),
        decreases line.len() - i,
    {
        let c = line[i];
        proof {
            let rest = line@.skip(i as int);
            assert(rest[0] == c);
            assert(rest.drop_first() =~= line@.skip(i + 1));
            assert(line@.take(i + 1) =~= line@.take(i as int) + seq![c]);
            assert(fitting(rest, room as int) == seq![c] + fitting(
                line@.skip(i + 1),
                room - char_width(c),
            ));
            assert(line@.take(i as int) + (seq![c] + fitting(
                line@.skip(i + 1),
                room - char_width(c),
            )) =~= line@.take(i + 1) + fitting(line@.skip(i + 1), room - char_width(c)));
            assert(before + line@.take(i as int).push(c) =~= before + line@.take(i + 1));
        }
        room = room - char_width_of(c);
        buffer.push(c);
        i += 1;
    }
    proof {
        let rest = line@.skip(i as int);
        if i < line.len() {
            assert(rest[0] == line@[i as int]);
        }
        assert(fitting(rest, room as int) =~= Seq::<char>::empty());
        assert(line@.take(i as int) + Seq::<char>::empty() =~= line@.take(i as int));
        assert(fitting(line@, room0) == line@.take(i as int));
        lemma_fitting_fits(line@, room0);
        lemma_encode_concat(before, fitting(line@, room0));
        assert(before.is_prefix_of(buffer@));
        assert(buffer@.is_prefix_of(before + line@)) by {
            assert(line@.take(i as int).is_prefix_of(line@));
        }
    }
    if i < line.len() {
        *full = true;
    }
}

impl OutputCapture {
    /// Neither accumulator holds more than the cap.
    pub open spec fn wf(&self) -> bool {
        byte_len(self.stdout@) <= MAX_OUTPUT_BYTES && byte_len(self.stderr@) <= MAX_OUTPUT_BYTES
    }

    /// Empty accumulators.
    pub fn new() -> (c: OutputCapture)
        ensures
            c.wf(),
            c.stdout@ == Seq::<char>::empty(),
            c.stderr@ == Seq::<char>::empty(),
            !c.stdout_full,
            !c.stderr_full,
    {
        let c = OutputCapture {
            stdout: String::new(),
            stderr: String::new(),
            stdout_full: false,
            stderr_full: false,
        };
        assert(encode_utf8(Seq::<char>::empty()).len() == 0);
        c
    }

    /// Takes one item of the output stream. A frame of standard output or
    /// standard error is decoded and forwarded, and its text and a newline
    /// are appended to its accumulator as far as they fit under the cap; the
    /// first line that has to be cut fills the accumulator. A protocol error
    /// is forwarded as a note; other frames are dropped.
    pub fn absorb(&mut self, item: &Result<LogOutput, DockerError>) -> (event: Option<
        CodeRunnerChunk,
    >)
        requires
            old(self).wf(),
        ensures
            final(self).wf(),
            final(self).stdout@ == text_after(old(self).stdout@, old(self).stdout_full, *item, true),
            final(self).stderr@ == text_after(
                old(self).stderr@,
                old(self).stderr_full,
                *item,
                false,
            ),
            final(self).stdout_full == full_after_item(
                old(self).stdout@,
                old(self).stdout_full,
                *item,
                true,
            ),
            final(self).stderr_full == full_after_item(
                old(self).stderr@,
                old(self).stderr_full,
                *item,
                false,
            ),
            old(self).stdout@.is_prefix_of(final(self).stdout@),
            old(self).stderr@.is_prefix_of(final(self).stderr@),
            match event {
                Some(chunk) => output_item_chunk(*item) == Some(chunk@),
                None => output_item_chunk(*item) is None,
            },
            decodes_exactly(*item),
            event matches Some(chunk) ==> !chunk@.is_terminal(),
    {
        match item {
            Ok(LogOutput::StdOut { message }) => {
                let text = decode_lossy(message);
                accumulate(&mut self.stdout, &mut self.stdout_full, text.as_str());
                Some(CodeRunnerChunk::Stdout(text))
            },
            Ok(LogOutput::StdErr { message }) => {
                let text = decode_lossy(message);
                accumulate(&mut self.stderr, &mut self.stderr_full, text.as_str());
                Some(CodeRunnerChunk::Stderr(text))
            },
            Ok(_) => None,
            Err(err) => Some(
                CodeRunnerChunk::Info(
                    concat2("Error while processing output: ", err.text.as_str()),
                ),
            ),
        }
    }

    /// Hands out the two accumulators.
    pub fn finish(self) -> (r: (String, String))
        ensures
            r.0 == self.stdout,
            r.1 == self.stderr,
    {
        (self.stdout, self.stderr)
    }
}

/// The lines of one stream among the first `upto` items of an output
/// stream: the text of each of its frames, each followed by a newline.
pub open spec fn lines_of(items: Seq<Result<LogOutput, DockerError>>, upto: int, stdout: bool) -> Seq<
    char,
>
    decreases upto,
{
    if upto <= 0 {
        Seq::empty()
    } else {
        lines_of(items, upto - 1, stdout) + (match frame_text(items[upto - 1], stdout) {
            Some(text) => line_of(text),
            None => Seq::empty(),
        })
    }
}

/// What an accumulator holds of the lines of its stream: the longest prefix
/// that fits under the cap.
pub open spec fn captured(items: Seq<Result<LogOutput, DockerError>>, upto: int, stdout: bool) -> Seq<
    char,
> {
    fitting(lines_of(items, upto, stdout), MAX_OUTPUT_BYTES as int)
}

/// The events that the first `upto` items of an output stream are forwarded
/// as.
pub open spec fn output_chunks(items: Seq<Result<LogOutput, DockerError>>, upto: int) -> Seq<
    ChunkView,
>
    decreases upto,
{
    if upto <= 0 {
        Seq::empty()
    } else {
        output_chunks(items, upto - 1) + (match output_item_chunk(items[upto - 1]) {
            Some(c) => seq![c],
            None => Seq::empty(),
        })
    }
}

/// One more item keeps an accumulator at the longest prefix of its lines
/// that fits under the cap.
proof fn lemma_capture_step(
    items: Seq<Result<LogOutput, DockerError>>,
    i: int,
    stdout: bool,
    text: Seq<char>,
    full: bool,
)
    requires
        0 <= i < items.len(),
        text == captured(items, i, stdout),
        full == (text.len() < lines_of(items, i, stdout).len()),
    ensures
        text_after(text, full, items[i], stdout) == captured(items, i + 1, stdout),
        full_after_item(text, full, items[i], stdout) == (captured(items, i + 1, stdout).len()
            < lines_of(items, i + 1, stdout).len()),
{
    let lines = lines_of(items, i, stdout);
    let cap = MAX_OUTPUT_BYTES as int;
    lemma_fitting_fits(lines, cap);
    match frame_text(items[i], stdout) {
        Some(t) => {
            let line = line_of(t);
            lemma_fitting_concat(lines, line, cap);
            lemma_fitting_fits(line, cap - byte_len(lines));
            if !full {
                assert(text =~= lines);
            }
        },
        None => {
            assert(lines + Seq::<char>::empty() =~= lines);
        },
    }
}

/// Captures a whole output stream: forwards every frame of standard output
/// and standard error to the client, in order and none dropped, and
/// accumulates their lines. Each accumulator comes back as the longest
/// prefix of the lines of its stream that fits under the cap, cut at a
/// character boundary. None of the forwarded events is terminal, and a frame
/// of valid UTF-8 is forwarded as it stands.
pub fn attach_task(items: &Vec<Result<LogOutput, DockerError>>) -> (r: (
    (String, String),
    Vec<CodeRunnerChunk>,
))
    ensures
        r.0.0@ == captured(items@, items@.len() as int, true),
        r.0.1@ == captured(items@, items@.len() as int, false),
        r.0.0@.is_prefix_of(lines_of(items@, items@.len() as int, true)),
        r.0.1@.is_prefix_of(lines_of(items@, items@.len() as int, false)),
        byte_len(r.0.0@) <= MAX_OUTPUT_BYTES,
        byte_len(r.0.1@) <= MAX_OUTPUT_BYTES,
        chunk_views(r.1@) == output_chunks(items@, items@.len() as int),
        no_terminal(chunk_views(r.1@)),
        forall|i: int| 0 <= i < items@.len() ==> decodes_exactly(#[trigger] items@[i]),
{
    let mut capture = OutputCapture::new();
    let mut events: Vec<CodeRunnerChunk> = Vec::new();
    let mut i: usize = 0;
    proof {
        assert(chunk_views(events@) =~= output_chunks(items@, 0));
        assert(captured(items@, 0, true) =~= Seq::<char>::empty());
        assert(captured(items@, 0, false) =~= Seq::<char>::empty());
    }
    while i < items.len()
        invariant
            i <= items.len(),
            capture.wf(),
            capture.stdout@ == captured(items@, i as int, true),
            capture.stderr@ == captured(items@, i as int, false),
            capture.stdout_full == (capture.stdout@.len() < lines_of(items@, i as int, true).len()),
            capture.stderr_full == (capture.stderr@.len() < lines_of(items@, i as int, false).len()),
            chunk_views(events@) == output_chunks(items@, i as int),
            no_terminal(chunk_views(events@)),
            forall|j: int| 0 <= j < i ==> decodes_exactly(#[trigger] items@[j]),
        decreases items.len() - i,
    {
        let ghost before = chunk_views(events@);
        proof {
            lemma_capture_step(items@, i as int, true, capture.stdout@, capture.stdout_full);
            lemma_capture_step(items@, i as int, false, capture.stderr@, capture.stderr_full);
        }
        match capture.absorb(&items[i]) {
            Some(chunk) => {
                events.push(chunk);
                assert(chunk_views(events@) =~= before.push(chunk@));
                assert(chunk_views(events@) =~= before + seq![chunk@]);
            },
            None => {
                assert(before + Seq::<ChunkView>::empty() =~= before);
            },
        }
        i += 1;
    }
    proof {
        lemma_fitting_fits(lines_of(items@, items@.len() as int, true), MAX_OUTPUT_BYTES as int);
        lemma_fitting_fits(lines_of(items@, items@.len() as int, false), MAX_OUTPUT_BYTES as int);
    }
    (capture.finish(), events)
}

/// How waiting for a container under a time budget ended.
#[derive(Debug, Clone, PartialEq, Eq)]
pub enum WaitOutcome {
    /// The budget elapsed first.
    Elapsed,
    /// The wait stream ended without an answer.
    Closed,
    /// The container exited.
    Exited { status_code: i64 },
    /// The wait failed.
    Failed(DockerError),
}

/// The timeout flag and the exit code of a run, from the outcome of the
/// wait.
pub open spec fn exit_status(outcome: WaitOutcome) -> (bool, Option<i64>) {
    match outcome {
        WaitOutcome::Elapsed => (true, None),
        WaitOutcome::Exited { status_code } => (false, Some(status_code)),
        WaitOutcome::Failed(err) => match err.kind {
            DockerErrorKind::ContainerWaitError { code } => (false, Some(code)),
            _ => (false, None),
        },
        WaitOutcome::Closed => (false, None),
    }
}

/// Returns whether the run timed out, and the exit code of the program if
/// there is one.
pub fn process_exit_status(exit_result: &WaitOutcome) -> (r: (bool, Option<i64>))
    ensures
        r == exit_status(*exit_result),
{
    match exit_result {
        WaitOutcome::Elapsed => (true, None),
        WaitOutcome::Exited { status_code } => (false, Some(*status_code)),
        WaitOutcome::Failed(err) => match err.kind {
            DockerErrorKind::ContainerWaitError { code } => (false, Some(code)),
            _ => (false, None),
        },
        WaitOutcome::Closed => (false, None),
    }
}

} // verus!
