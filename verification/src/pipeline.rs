//! The vocabulary between the runner's decision logic and whoever drives
//! the container engine: the calls that the logic asks for, what the engine
//! answered, and one step of a pipeline.

use vstd::prelude::*;
use vstd::string::*;
use crate::engine::{BuildFrame, DockerError, PullFrame, WaitOutcome};
use crate::models::{chunk_views, ChunkView, CodeRunnerChunk, CodeRunnerError, ErrorView};
use crate::sandbox::{ContainerCreateBody, ContainerView, CreateContainerOptions};
use crate::store::{FunctionStatus, StatusView};
use crate::text::{concat2, copy_bytes, pair_texts};

verus! {

/// Mode of every file in a build context.
pub const CONTEXT_FILE_MODE: u32 = 0o644;

/// One file of a build context.
#[derive(Debug, Clone, PartialEq, Eq)]
pub struct ContextFile {
    /// Path of the file inside the context.
    pub path: String,
    pub content: Vec<u8>,
}

impl ContextFile {
    /// Size that the file's archive header declares.
    pub fn size(&self) -> (n: u64)
        ensures
            n == self.content@.len(),
    {
        self.content.len() as u64
    }
}

/// Paths and contents of a list of context files.
pub open spec fn context_view(files: Seq<ContextFile>) -> Seq<(Seq<char>, Seq<u8>)> {
    files.map_values(|f: ContextFile| (f.path@, f.content@))
}

/// An image build: tag, labels, build arguments and the ordered files of the
/// context.
#[derive(Debug, Clone, PartialEq, Eq)]
pub struct BuildRequest {
    pub tag: String,
    pub labels: Vec<(String, String)>,
    pub build_args: Vec<(String, String)>,
    pub files: Vec<ContextFile>,
}

/// Model of a `BuildRequest`.
pub struct BuildView {
    pub tag: Seq<char>,
    pub labels: Seq<(Seq<char>, Seq<char>)>,
    pub build_args: Seq<(Seq<char>, Seq<char>)>,
    pub files: Seq<(Seq<char>, Seq<u8>)>,
}

impl View for BuildRequest {
    type V = BuildView;

    open spec fn view(&self) -> BuildView {
        BuildView {
            tag: self.tag@,
            labels: pair_texts(self.labels@),
            build_args: pair_texts(self.build_args@),
            files: context_view(self.files@),
        }
    }
}

fn copy_pairs(v: &Vec<(String, String)>) -> (r: Vec<(String, String)>)
    ensures
        pair_texts(r@) == pair_texts(v@),
{
    let mut r: Vec<(String, String)> = Vec::new();
    let mut i: usize = 0;
    while i < v.len()
        invariant
            i <= v.len(),
            pair_texts(r@) == pair_texts(v@).take(i as int),
        decreases v.len() - i,
    {
        let ghost before = pair_texts(r@);
        r.push((v[i].0.clone(), v[i].1.clone()));
        assert(pair_texts(r@) =~= before.push(pair_texts(v@)[i as int]));
        i += 1;
        assert(pair_texts(r@) =~= pair_texts(v@).take(i as int));
    }
    assert(pair_texts(v@).take(v.len() as int) =~= pair_texts(v@));
    r
}

impl BuildRequest {
    /// A copy of the request.
    pub fn duplicate(&self) -> (b: BuildRequest)
        ensures
            b@ == self@,
    {
        let mut files: Vec<ContextFile> = Vec::new();
        let mut i: usize = 0;
        while i < self.files.len()
            invariant
                i <= self.files.len(),
                context_view(files@) == context_view(self.files@).take(i as int),
            decreases self.files.len() - i,
        {
            let ghost before = context_view(files@);
            files.push(
                ContextFile {
                    path: self.files[i].path.clone(),
                    content: copy_bytes(&self.files[i].content),
                },
            );
            assert(context_view(files@) =~= before.push(context_view(self.files@)[i as int]));
            i += 1;
            assert(context_view(files@) =~= context_view(self.files@).take(i as int));
        }
        assert(context_view(self.files@).take(self.files.len() as int) =~= context_view(
            self.files@,
        ));
        BuildRequest {
            tag: self.tag.clone(),
            labels: copy_pairs(&self.labels),
            build_args: copy_pairs(&self.build_args),
            files,
        }
    }
}

/// Which streams of a container to attach to.
#[derive(Debug, Clone, Copy, PartialEq, Eq, Structural)]
pub struct AttachContainerOptions {
    pub stream: bool,
    pub stdin: bool,
    pub stdout: bool,
    pub stderr: bool,
    pub logs: bool,
}

/// What the driver is asked to do next.
#[derive(Debug, Clone, PartialEq, Eq)]
pub enum Action {
    /// Inspect an image and report whether that succeeded.
    InspectImage { image: String },
    /// Start pulling an image and report its frames.
    PullImage { image: String },
    /// Report the next frame of the stream that is being read.
    NextFrame,
    /// Send the build context as a tar archive, start the build and report
    /// its frames.
    BuildImage(BuildRequest),
    CreateContainer { body: ContainerCreateBody, options: CreateContainerOptions },
    /// Attach to the container and start capturing its output.
    AttachContainer { name: String, options: AttachContainerOptions },
    StartContainer { name: String },
    /// Write the payload to the container's input, then shut the input down.
    WriteInput { payload: String },
    /// Wait for the container to exit, for at most the given time.
    WaitContainer { name: String, timeout_secs: u64 },
    /// Wait for the captured output.
    JoinOutput,
    /// Persist the status of a function; the pipeline is over.
    SetFunctionStatus { name: String, status: FunctionStatus },
    /// Stop and remove the container; the pipeline is over.
    Cleanup { name: String },
    /// Nothing is left to do.
    Stop,
}

/// Model of an `Action`.
pub enum ActionView {
    InspectImage { image: Seq<char> },
    PullImage { image: Seq<char> },
    NextFrame,
    BuildImage(BuildView),
    CreateContainer { body: ContainerView, name: Seq<char> },
    AttachContainer { name: Seq<char>, options: AttachContainerOptions },
    StartContainer { name: Seq<char> },
    WriteInput { payload: Seq<char> },
    WaitContainer { name: Seq<char>, timeout_secs: u64 },
    JoinOutput,
    SetFunctionStatus { name: Seq<char>, status: StatusView },
    Cleanup { name: Seq<char> },
    Stop,
}

impl View for Action {
    type V = ActionView;

    open spec fn view(&self) -> ActionView {
        match self {
            Action::InspectImage { image } => ActionView::InspectImage { image: image@ },
            Action::PullImage { image } => ActionView::PullImage { image: image@ },
            Action::NextFrame => ActionView::NextFrame,
            Action::BuildImage(b) => ActionView::BuildImage(b@),
            Action::CreateContainer { body, options } => ActionView::CreateContainer {
                body: body@,
                name: options.name@,
            },
            Action::AttachContainer { name, options } => ActionView::AttachContainer {
                name: name@,
                options: *options,
            },
            Action::StartContainer { name } => ActionView::StartContainer { name: name@ },
            Action::WriteInput { payload } => ActionView::WriteInput { payload: payload@ },
            Action::WaitContainer { name, timeout_secs } => ActionView::WaitContainer {
                name: name@,
                timeout_secs: *timeout_secs,
            },
            Action::JoinOutput => ActionView::JoinOutput,
            Action::SetFunctionStatus { name, status } => ActionView::SetFunctionStatus {
                name: name@,
                status: status@,
            },
            Action::Cleanup { name } => ActionView::Cleanup { name: name@ },
            Action::Stop => ActionView::Stop,
        }
    }
}

impl ActionView {
    /// The action ends a pipeline.
    pub open spec fn is_final(self) -> bool {
        self is SetFunctionStatus || self is Cleanup || self is Stop
    }
}

/// What happened since the last step.
#[derive(Debug, PartialEq, Eq)]
pub enum EngineEvent {
    /// The pipeline begins.
    Begin,
    ImageInspected(Result<(), DockerError>),
    /// One frame of pull progress.
    PullProgress(PullFrame),
    /// The pull stream ended, or broke on a transport failure.
    PullFinished(Result<(), DockerError>),
    /// One item of the build stream.
    BuildProgress(Result<BuildFrame, DockerError>),
    /// The build stream ended.
    BuildFinished,
    ContainerCreated(Result<(), DockerError>),
    ContainerAttached(Result<(), DockerError>),
    ContainerStarted(Result<(), DockerError>),
    /// The payload was written and the input shut down; each failure is
    /// given as text.
    InputWritten { write_error: Option<String>, shutdown_error: Option<String> },
    WaitFinished(WaitOutcome),
    /// The output task handed over its accumulators.
    OutputCollected { stdout: String, stderr: String },
}

/// One step of a pipeline: the events to send to the client, in order, and
/// the next thing to do.
#[derive(Debug, Clone, PartialEq, Eq)]
pub struct Step {
    pub events: Vec<CodeRunnerChunk>,
    pub action: Action,
}

/// Model of a `Step`.
pub struct StepView {
    pub events: Seq<ChunkView>,
    pub action: ActionView,
}

impl View for Step {
    type V = StepView;

    open spec fn view(&self) -> StepView {
        StepView { events: chunk_views(self.events@), action: self.action@ }
    }
}

/// Number of terminal events in a stream.
pub open spec fn terminal_count(events: Seq<ChunkView>) -> nat
    decreases events.len(),
{
    if events.len() == 0 {
        0
    } else {
        terminal_count(events.drop_last()) + if events.last().is_terminal() {
            1nat
        } else {
            0nat
        }
    }
}

/// No event of the stream is terminal.
pub open spec fn no_terminal(events: Seq<ChunkView>) -> bool {
    forall|i: int| 0 <= i < events.len() ==> !(#[trigger] events[i]).is_terminal()
}

/// The stream is complete: it holds exactly one terminal event, and that
/// event is its last element.
pub open spec fn ends_with_single_terminal(events: Seq<ChunkView>) -> bool {
    &&& events.len() > 0
    &&& events.last().is_terminal()
    &&& no_terminal(events.drop_last())
}

/// A stream without terminal events counts none.
pub proof fn lemma_no_terminal_counts_zero(events: Seq<ChunkView>)
    requires
        no_terminal(events),
    ensures
        terminal_count(events) == 0,
    decreases events.len(),
{
    if events.len() > 0 {
        let front = events.drop_last();
        assert forall|i: int| 0 <= i < front.len() implies !(#[trigger] front[i]).is_terminal() by {
            assert(front[i] == events[i]);
        }
        lemma_no_terminal_counts_zero(front);
        assert(events.last() == events[events.len() - 1]);
    }
}

/// A complete stream holds exactly one event whose kind is `result`, `error`
/// or `build_error`, and that event is its last element.
pub proof fn lemma_complete_stream_has_one_terminal(events: Seq<ChunkView>)
    requires
        ends_with_single_terminal(events),
    ensures
        terminal_count(events) == 1,
        events.last().is_terminal(),
        forall|i: int| 0 <= i < events.len() - 1 ==> !(#[trigger] events[i]).is_terminal(),
{
    lemma_no_terminal_counts_zero(events.drop_last());
    assert forall|i: int| 0 <= i < events.len() - 1 implies !(#[trigger] events[i]).is_terminal() by {
        assert(events.drop_last()[i] == events[i]);
    }
}

/// Appending events without a terminal keeps a stream free of terminals.
pub proof fn lemma_no_terminal_append(a: Seq<ChunkView>, b: Seq<ChunkView>)
    requires
        no_terminal(a),
        no_terminal(b),
    ensures
        no_terminal(a + b),
{
    assert forall|i: int| 0 <= i < (a + b).len() implies !(#[trigger] (a + b)[i]).is_terminal() by {
        if i < a.len() {
            assert((a + b)[i] == a[i]);
        } else {
            assert((a + b)[i] == b[i - a.len()]);
        }
    }
}

/// Appending a complete run of events to a stream without a terminal gives a
/// complete stream.
pub proof fn lemma_complete_after_append(a: Seq<ChunkView>, b: Seq<ChunkView>)
    requires
        no_terminal(a),
        ends_with_single_terminal(b),
    ensures
        ends_with_single_terminal(a + b),
{
    lemma_no_terminal_append(a, b.drop_last());
    assert((a + b).drop_last() =~= a + b.drop_last());
    assert((a + b).last() == b.last());
}

/// `merged` interleaves `a` and `b`: it holds the elements of both, each in
/// its own order. `from_a[i]` tells which of the two the element `i` came
/// from.
pub open spec fn interleaves(
    merged: Seq<ChunkView>,
    a: Seq<ChunkView>,
    b: Seq<ChunkView>,
    from_a: Seq<bool>,
) -> bool
    decreases merged.len(),
{
    if merged.len() == 0 {
        a.len() == 0 && b.len() == 0 && from_a.len() == 0
    } else {
        &&& from_a.len() == merged.len()
        &&& if from_a.last() {
            a.len() > 0 && a.last() == merged.last() && interleaves(
                merged.drop_last(),
                a.drop_last(),
                b,
                from_a.drop_last(),
            )
        } else {
            b.len() > 0 && b.last() == merged.last() && interleaves(
                merged.drop_last(),
                a,
                b.drop_last(),
                from_a.drop_last(),
            )
        }
    }
}

/// Interleaving two streams without terminals gives a stream without
/// terminals.
pub proof fn lemma_interleaving_has_no_terminal(
    merged: Seq<ChunkView>,
    a: Seq<ChunkView>,
    b: Seq<ChunkView>,
    from_a: Seq<bool>,
)
    requires
        interleaves(merged, a, b, from_a),
        no_terminal(a),
        no_terminal(b),
    ensures
        no_terminal(merged),
    decreases merged.len(),
{
    if merged.len() > 0 {
        let front = merged.drop_last();
        if from_a.last() {
            assert(a.last() == a[a.len() - 1]);
            assert forall|i: int| 0 <= i < a.drop_last().len() implies !(
            #[trigger] a.drop_last()[i]).is_terminal() by {
                assert(a.drop_last()[i] == a[i]);
            }
            lemma_interleaving_has_no_terminal(front, a.drop_last(), b, from_a.drop_last());
        } else {
            assert(b.last() == b[b.len() - 1]);
            assert forall|i: int| 0 <= i < b.drop_last().len() implies !(
            #[trigger] b.drop_last()[i]).is_terminal() by {
                assert(b.drop_last()[i] == b[i]);
            }
            lemma_interleaving_has_no_terminal(front, a, b.drop_last(), from_a.drop_last());
        }
        assert forall|i: int| 0 <= i < merged.len() implies !(#[trigger] merged[i]).is_terminal() by {
            if i < front.len() {
                assert(front[i] == merged[i]);
            }
        }
    }
}

/// The stream that a client sees is complete: when the events of a pipeline
/// up to its terminal event are interleaved with the forwarded output in any
/// order, and the terminal event follows, there is exactly one terminal
/// event and it is last.
pub proof fn lemma_client_stream_is_complete(
    pipeline: Seq<ChunkView>,
    output: Seq<ChunkView>,
    merged: Seq<ChunkView>,
    from_pipeline: Seq<bool>,
)
    requires
        ends_with_single_terminal(pipeline),
        no_terminal(output),
        interleaves(merged, pipeline.drop_last(), output, from_pipeline),
    ensures
        ends_with_single_terminal(merged.push(pipeline.last())),
        terminal_count(merged.push(pipeline.last())) == 1,
{
    lemma_interleaving_has_no_terminal(merged, pipeline.drop_last(), output, from_pipeline);
    let all = merged.push(pipeline.last());
    assert(all.drop_last() =~= merged);
    lemma_complete_stream_has_one_terminal(all);
}

/// No events.
pub fn no_events() -> (v: Vec<CodeRunnerChunk>)
    ensures
        chunk_views(v@) == Seq::<ChunkView>::empty(),
{
    let v: Vec<CodeRunnerChunk> = Vec::new();
    assert(chunk_views(v@) =~= Seq::<ChunkView>::empty());
    v
}

/// The single event `a`.
pub fn one_event(a: CodeRunnerChunk) -> (v: Vec<CodeRunnerChunk>)
    ensures
        chunk_views(v@) == seq![a@],
{
    let mut v: Vec<CodeRunnerChunk> = Vec::new();
    v.push(a);
    assert(chunk_views(v@) =~= seq![a@]);
    v
}

/// The events `a` and `b`.
pub fn two_events(a: CodeRunnerChunk, b: CodeRunnerChunk) -> (v: Vec<CodeRunnerChunk>)
    ensures
        chunk_views(v@) == seq![a@, b@],
{
    let mut v: Vec<CodeRunnerChunk> = Vec::new();
    v.push(a);
    v.push(b);
    assert(chunk_views(v@) =~= seq![a@, b@]);
    v
}

/// An info event with the given message.
pub fn info(message: String) -> (c: CodeRunnerChunk)
    ensures
        c@ == ChunkView::Info(message@),
{
    CodeRunnerChunk::Info(message)
}

/// The terminal event for an engine failure, worded as `prefix` followed by
/// the failure's own text.
pub fn docker_failure(prefix: &str, err: &DockerError) -> (c: CodeRunnerChunk)
    ensures
        c@ == ChunkView::Error(ErrorView::Docker { message: prefix@ + err.text@ }),
{
    CodeRunnerChunk::Error(CodeRunnerError::Docker { message: concat2(prefix, err.text.as_str()) })
}

} // verus!
