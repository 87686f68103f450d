//! The pipelines of stored functions: building a function's image once, and
//! invoking the built image with a payload on standard input.

use vstd::prelude::*;
use vstd::string::*;
use vstd::utf8::encode_utf8;
use crate::constants::{APP_LABEL, BUILD_ID_ARG, FN_LABEL};
use crate::engine::{
    build_item_chunks, build_progress_after, build_progress_of, exists_image, exit_status,
    failure_kind, image_presence, process_exit_status, process_pull_frame, pull_frame_chunks,
    BuildProgress, BuildProgressView, DockerError,
};
use crate::executor::capture_options;
use crate::messages::{
    build_failed, building_image, built_image, checking_image, image_missing,
    msg_base_image_failed, msg_build_failed, msg_building_image, msg_built_image,
    msg_checking_image, msg_flush_failed, msg_image_missing, msg_pulling_image,
    msg_starting_container, msg_unexpected_event, msg_write_failed, msg_writing_input,
    pulling_image, starting_container,
};
use crate::models::{
    chunk_views, ChunkView, CodeRunnerChunk, CodeRunnerError, ErrorView, LanguageData,
    RunFunctionInput,
};
use crate::pipeline::{
    context_view, ends_with_single_terminal, info, lemma_complete_after_append,
    lemma_no_terminal_append, no_events, no_terminal, one_event, two_events, Action, ActionView,
    AttachContainerOptions, BuildRequest, BuildView, ContextFile, EngineEvent, Step, StepView,
};
use crate::sandbox::{sandbox_profile, setup_container};
use crate::store::{FunctionDetail, FunctionStatus, StatusView};
use crate::text::{
    concat2, concat3, debug_text, decimal, pair_texts, str_debug, u64_to_decimal,
};

verus! {

/// The tag of a function's image.
pub open spec fn function_tag(name: Seq<char>) -> Seq<char> {
    "code-runner-fn-"@ + name + ":latest"@
}

/// The build id of a function's version: the name, `-v` and the version
/// number.
pub open spec fn function_build_id(name: Seq<char>, version: u32) -> Seq<char> {
    name + "-v"@ + decimal(version as nat)
}

/// The build context of a function, in order: the Dockerfile, the
/// language's main program, then the function's code.
pub open spec fn function_context(
    dockerfile: Seq<char>,
    main_file: Seq<char>,
    main_code: Seq<char>,
    fn_file: Seq<char>,
    code: Seq<char>,
) -> Seq<(Seq<char>, Seq<u8>)> {
    seq![
        ("Dockerfile"@, encode_utf8(dockerfile)),
        (main_file, encode_utf8(main_code)),
        (fn_file, encode_utf8(code)),
    ]
}

/// The status line that lists the build context of a function, each path
/// as `{:?}` shows it.
pub open spec fn msg_function_context(main_file: Seq<char>, fn_file: Seq<char>) -> Seq<char> {
    "Creating build context:"@ + " "@ + str_debug("Dockerfile"@) + " "@ + str_debug(main_file)
        + " "@ + str_debug(fn_file)
}

/// The image build of a function: tagged `code-runner-fn-<name>:latest`,
/// labelled with the service version and the function's name, with the
/// name and version of the function as build id.
pub open spec fn function_build(
    name: Seq<char>,
    service_version: Seq<char>,
    fn_version: u32,
    dockerfile: Seq<char>,
    main_file: Seq<char>,
    main_code: Seq<char>,
    fn_file: Seq<char>,
    code: Seq<char>,
) -> BuildView {
    BuildView {
        tag: function_tag(name),
        labels: seq![(APP_LABEL@, "v"@ + service_version), (FN_LABEL@, name)],
        build_args: seq![(BUILD_ID_ARG@, function_build_id(name, fn_version))],
        files: function_context(dockerfile, main_file, main_code, fn_file, code),
    }
}

/// Where the build of a function stands.
#[derive(Debug, Clone, Copy, PartialEq, Eq, Structural)]
pub enum BuildPhase {
    Created,
    CheckingImage,
    PullingImage,
    Building,
    /// The image was built.
    Ready,
    /// The build failed.
    Failed,
}

impl BuildPhase {
    /// The build is over.
    pub open spec fn is_over(self) -> bool {
        self is Ready || self is Failed
    }
}

/// What the build of a function was set up with.
#[derive(Debug, Clone, PartialEq, Eq)]
pub struct BuildPlan {
    pub fn_name: String,
    /// Tag of the base image.
    pub base_image: String,
    /// The status line that lists the build context.
    pub context_message: String,
    pub build: BuildRequest,
}

/// The outcome of one step of a function build.
pub struct BuildTransition {
    pub phase: BuildPhase,
    pub build: BuildProgressView,
    pub step: StepView,
}

/// The terminal event of a build that succeeded: a result without output,
/// with exit code 0 and no timeout.
pub open spec fn build_succeeded() -> ChunkView {
    ChunkView::Result {
        stdout: Seq::empty(),
        stderr: Seq::empty(),
        exit_code: Some(0i64),
        timeout: false,
    }
}

/// A step that ends the build with the failure `err`: the failure is sent as
/// the terminal event and becomes the function's status.
pub open spec fn build_fails(plan: BuildPlan, build: BuildProgressView, err: ErrorView) -> BuildTransition {
    BuildTransition {
        phase: BuildPhase::Failed,
        build,
        step: StepView {
            events: seq![ChunkView::Error(err)],
            action: ActionView::SetFunctionStatus {
                name: plan.fn_name@,
                status: StatusView::Error(err),
            },
        },
    }
}

/// The step that starts the build once the base image is there.
pub open spec fn build_starts(plan: BuildPlan, build: BuildProgressView) -> BuildTransition {
    BuildTransition {
        phase: BuildPhase::Building,
        build,
        step: StepView {
            events: seq![
                ChunkView::Info(plan.context_message@),
                ChunkView::Info(msg_building_image(plan.build.tag@)),
            ],
            action: ActionView::BuildImage(plan.build@),
        },
    }
}

/// The rule of a function build: what follows from `event` in `phase`.
pub open spec fn build_transition(
    plan: BuildPlan,
    phase: BuildPhase,
    build: BuildProgressView,
    event: EngineEvent,
) -> BuildTransition {
    match (phase, event) {
        (BuildPhase::Ready, _) | (BuildPhase::Failed, _) => BuildTransition {
            phase,
            build,
            step: StepView { events: Seq::empty(), action: ActionView::Stop },
        },
        (BuildPhase::Created, EngineEvent::Begin) => BuildTransition {
            phase: BuildPhase::CheckingImage,
            build,
            step: StepView {
                events: seq![ChunkView::Info(msg_checking_image(plan.base_image@))],
                action: ActionView::InspectImage { image: plan.base_image@ },
            },
        },
        (BuildPhase::CheckingImage, EngineEvent::ImageInspected(r)) => match image_presence(
            failure_kind(r),
        ) {
            Some(true) => build_starts(plan, build),
            Some(false) => BuildTransition {
                phase: BuildPhase::PullingImage,
                build,
                step: StepView {
                    events: seq![ChunkView::Info(msg_pulling_image(plan.base_image@))],
                    action: ActionView::PullImage { image: plan.base_image@ },
                },
            },
            None => build_fails(
                plan,
                build,
                ErrorView::Docker { message: msg_base_image_failed() + (r->Err_0).text@ },
            ),
        },
        (BuildPhase::PullingImage, EngineEvent::PullProgress(frame)) => BuildTransition {
            phase: BuildPhase::PullingImage,
            build,
            step: StepView { events: pull_frame_chunks(frame), action: ActionView::NextFrame },
        },
        (BuildPhase::PullingImage, EngineEvent::PullFinished(r)) => match r {
            Ok(_) => build_starts(plan, build),
            Err(err) => build_fails(
                plan,
                build,
                ErrorView::Docker { message: msg_base_image_failed() + err.text@ },
            ),
        },
        (BuildPhase::Building, EngineEvent::BuildProgress(item)) => BuildTransition {
            phase: BuildPhase::Building,
            build: build_progress_after(build, item),
            step: StepView { events: build_item_chunks(item), action: ActionView::NextFrame },
        },
        (BuildPhase::Building, EngineEvent::BuildFinished) => match build.image_id {
            Some(id) => BuildTransition {
                phase: BuildPhase::Ready,
                build,
                step: StepView {
                    events: seq![
                        ChunkView::Info(msg_built_image(plan.build.tag@, id)),
                        build_succeeded(),
                    ],
                    action: ActionView::SetFunctionStatus {
                        name: plan.fn_name@,
                        status: StatusView::Ready { tag: plan.build.tag@, id },
                    },
                },
            },
            None => build_fails(
                plan,
                build,
                ErrorView::BuildFailed {
                    message: msg_build_failed(plan.build.tag@),
                    logs: build.build_logs,
                },
            ),
        },
        _ => build_fails(plan, build, ErrorView::Docker { message: msg_unexpected_event() }),
    }
}

/// The step that ends a function build sends exactly one terminal event, as
/// its last: the failure, or the result of a build that succeeded. It
/// carries the function's new status. A step before the end sends no
/// terminal event, and a step after the end sends nothing.
pub proof fn lemma_build_transition_shape(
    plan: BuildPlan,
    phase: BuildPhase,
    build: BuildProgressView,
    event: EngineEvent,
)
    ensures
        ({
            let t = build_transition(plan, phase, build, event);
            &&& phase.is_over() ==> t.phase == phase && t.step.events.len() == 0
                && t.step.action is Stop
            &&& !phase.is_over() && t.phase is Failed ==> ends_with_single_terminal(t.step.events)
                && t.step.action is SetFunctionStatus
                && t.step.action->SetFunctionStatus_status is Error
            &&& !phase.is_over() && t.phase is Ready ==> ends_with_single_terminal(t.step.events)
                && t.step.events.last() == build_succeeded()
                && t.step.action is SetFunctionStatus
                && t.step.action->SetFunctionStatus_status is Ready
            &&& !t.phase.is_over() ==> no_terminal(t.step.events) && !t.step.action.is_final()
        }),
{
    let t = build_transition(plan, phase, build, event);
    if !phase.is_over() && t.phase is Failed {
        assert(t.step.events.len() == 1);
        assert(t.step.events.drop_last() =~= Seq::<ChunkView>::empty());
    }
    if !phase.is_over() && t.phase is Ready {
        assert(t.step.events.len() == 2);
        assert(t.step.events.drop_last() =~= seq![t.step.events[0]]);
    }
    match event {
        EngineEvent::PullProgress(frame) => {
            crate::executor::lemma_pull_chunks_not_terminal(frame);
        },
        EngineEvent::BuildProgress(item) => {
            crate::executor::lemma_build_chunks_not_terminal(item);
        },
        _ => {},
    }
}

impl BuildPhase {
    /// How far a phase is along the build.
    pub open spec fn rank(self) -> nat {
        match self {
            BuildPhase::Created => 0,
            BuildPhase::CheckingImage => 1,
            BuildPhase::PullingImage => 2,
            BuildPhase::Building => 3,
            BuildPhase::Ready => 4,
            BuildPhase::Failed => 4,
        }
    }
}

/// A function build never goes back, and once it is over its outcome
/// stands.
pub proof fn lemma_build_only_advances(
    plan: BuildPlan,
    phase: BuildPhase,
    build: BuildProgressView,
    event: EngineEvent,
)
    ensures
        ({
            let t = build_transition(plan, phase, build, event);
            &&& phase.rank() <= t.phase.rank()
            &&& phase.is_over() ==> t.phase == phase
        }),
{
}

/// The decision logic of one function build.
pub struct FunctionBuild {
    pub plan: BuildPlan,
    pub phase: BuildPhase,
    pub build: BuildProgress,
    /// The events sent so far.
    pub sent: Ghost<Seq<ChunkView>>,
}

impl FunctionBuild {
    /// The stream is well formed: while the build is under way it holds no
    /// terminal event, and once the build is over it holds exactly one, as
    /// its last element.
    pub open spec fn wf(&self) -> bool {
        if self.phase.is_over() {
            ends_with_single_terminal(self.sent@)
        } else {
            no_terminal(self.sent@)
        }
    }

    /// Whether the build is over.
    pub fn is_over(&self) -> (b: bool)
        ensures
            b == self.phase.is_over(),
    {
        match self.phase {
            BuildPhase::Ready => true,
            BuildPhase::Failed => true,
            _ => false,
        }
    }

    fn fail(&mut self, err: CodeRunnerError) -> (step: Step)
        ensures
            final(self).plan == old(self).plan,
            final(self).build == old(self).build,
            final(self).sent == old(self).sent,
            final(self).phase == BuildPhase::Failed,
            step@ == build_fails(old(self).plan, old(self).build@, err@).step,
    {
        self.phase = BuildPhase::Failed;
        let status = FunctionStatus::Error(err.duplicate());
        Step {
            events: one_event(CodeRunnerChunk::Error(err)),
            action: Action::SetFunctionStatus { name: self.plan.fn_name.clone(), status },
        }
    }

    fn begin_build(&mut self) -> (step: Step)
        ensures
            final(self).plan == old(self).plan,
            final(self).build == old(self).build,
            final(self).sent == old(self).sent,
            final(self).phase == BuildPhase::Building,
            step@ == build_starts(old(self).plan, old(self).build@).step,
    {
        self.phase = BuildPhase::Building;
        Step {
            events: two_events(
                info(self.plan.context_message.clone()),
                info(building_image(self.plan.build.tag.as_str())),
            ),
            action: Action::BuildImage(self.plan.build.duplicate()),
        }
    }

    fn decide(&mut self, event: EngineEvent) -> (step: Step)
        ensures
            final(self).plan == old(self).plan,
            final(self).sent == old(self).sent,
            ({
                let t = build_transition(old(self).plan, old(self).phase, old(self).build@, event);
                &&& final(self).phase == t.phase
                &&& final(self).build@ == t.build
                &&& step@ == t.step
            }),
    {
        let phase = self.phase;
        match (phase, event) {
            (BuildPhase::Ready, _) => Step { events: no_events(), action: Action::Stop },
            (BuildPhase::Failed, _) => Step { events: no_events(), action: Action::Stop },
            (BuildPhase::Created, EngineEvent::Begin) => {
                self.phase = BuildPhase::CheckingImage;
                Step {
                    events: one_event(info(checking_image(self.plan.base_image.as_str()))),
                    action: Action::InspectImage { image: self.plan.base_image.clone() },
                }
            },
            (BuildPhase::CheckingImage, EngineEvent::ImageInspected(r)) => {
                match exists_image(r) {
                    Ok(true) => self.begin_build(),
                    Ok(false) => {
                        self.phase = BuildPhase::PullingImage;
                        Step {
                            events: one_event(info(pulling_image(self.plan.base_image.as_str()))),
                            action: Action::PullImage { image: self.plan.base_image.clone() },
                        }
                    },
                    Err(err) => self.fail(
                        CodeRunnerError::Docker {
                            message: concat2(
                                "Error while checking/pulling base image: ",
                                err.text.as_str(),
                            ),
                        },
                    ),
                }
            },
            (BuildPhase::PullingImage, EngineEvent::PullProgress(frame)) => {
                Step { events: process_pull_frame(&frame), action: Action::NextFrame }
            },
            (BuildPhase::PullingImage, EngineEvent::PullFinished(r)) => {
                match r {
                    Ok(_) => self.begin_build(),
                    Err(err) => self.fail(
                        CodeRunnerError::Docker {
                            message: concat2(
                                "Error while checking/pulling base image: ",
                                err.text.as_str(),
                            ),
                        },
                    ),
                }
            },
            (BuildPhase::Building, EngineEvent::BuildProgress(item)) => {
                let events = self.build.absorb(&item);
                Step { events, action: Action::NextFrame }
            },
            (BuildPhase::Building, EngineEvent::BuildFinished) => {
                match &self.build.image_id {
                    Some(id) => {
                        let message = built_image(self.plan.build.tag.as_str(), id.as_str());
                        let status = FunctionStatus::Ready {
                            tag: self.plan.build.tag.clone(),
                            id: id.clone(),
                        };
                        self.phase = BuildPhase::Ready;
                        Step {
                            events: two_events(
                                info(message),
                                CodeRunnerChunk::Result {
                                    stdout: String::new(),
                                    stderr: String::new(),
                                    exit_code: Some(0),
                                    timeout: false,
                                },
                            ),
                            action: Action::SetFunctionStatus {
                                name: self.plan.fn_name.clone(),
                                status,
                            },
                        }
                    },
                    None => {
                        let err = CodeRunnerError::BuildFailed {
                            message: build_failed(self.plan.build.tag.as_str()),
                            logs: self.build.build_logs.clone(),
                        };
                        self.fail(err)
                    },
                }
            },
            _ => self.fail(
                CodeRunnerError::Docker { message: "Unexpected engine event".to_owned() },
            ),
        }
    }

    /// Advances the build to its next call on the engine: takes what
    /// happened since the last step, and returns the events to send and the
    /// next action. The last step sends the terminal event of the stream
    /// and carries the function's new status: `Ready` with the image's tag
    /// and id, or the failure.
    pub fn step(&mut self, event: EngineEvent) -> (step: Step)
        requires
            old(self).wf(),
        ensures
            final(self).wf(),
            final(self).plan == old(self).plan,
            final(self).sent@ == old(self).sent@ + step@.events,
            ({
                let t = build_transition(old(self).plan, old(self).phase, old(self).build@, event);
                &&& final(self).phase == t.phase
                &&& final(self).build@ == t.build
                &&& step@ == t.step
            }),
            step@.action.is_final() <==> final(self).phase.is_over(),
    {
        let step = self.decide(event);
        proof {
            lemma_build_transition_shape(old(self).plan, old(self).phase, old(self).build@, event);
            let before = old(self).sent@;
            let events = step@.events;
            if old(self).phase.is_over() {
                assert(before + events =~= before);
            } else if self.phase.is_over() {
                lemma_complete_after_append(before, events);
            } else {
                lemma_no_terminal_append(before, events);
            }
            self.sent = Ghost(before + events);
        }
        step
    }
}

/// Where the invocation of a function stands.
#[derive(Debug, Clone, Copy, PartialEq, Eq, Structural)]
pub enum RunPhase {
    Created,
    CheckingImage,
    CreatingContainer,
    Attaching,
    Starting,
    WritingInput,
    Waiting,
    /// The wait is over; the output is being collected.
    Collecting { timeout: bool, exit_code: Option<i64> },
    Done,
}

/// What the invocation of a function was set up with.
#[derive(Debug, Clone, PartialEq, Eq)]
pub struct InvocationPlan {
    pub run_id: String,
    pub fn_name: String,
    pub image_tag: String,
    /// Shell command that runs the program.
    pub command: String,
    /// Payload for the function's standard input.
    pub input: String,
    pub timeout: u32,
    pub mem_limit_mb: u32,
    pub cpu_limit_millis: u32,
}

/// The outcome of one step of a function invocation.
pub struct RunTransition {
    pub phase: RunPhase,
    pub step: StepView,
}

/// A step that ends the invocation with the terminal event `last`.
pub open spec fn run_finishes(plan: InvocationPlan, last: ChunkView) -> RunTransition {
    RunTransition {
        phase: RunPhase::Done,
        step: StepView {
            events: seq![last],
            action: ActionView::Cleanup { name: plan.run_id@ },
        },
    }
}

/// A step that ends the invocation on an engine failure.
pub open spec fn run_fails(plan: InvocationPlan, err: DockerError) -> RunTransition {
    run_finishes(plan, ChunkView::Error(ErrorView::Docker { message: err.text@ }))
}

/// The notes about the writing of the payload: one for a failed write, one
/// for a failed shutdown.
pub open spec fn input_notes(write_error: Option<String>, shutdown_error: Option<String>) -> Seq<
    ChunkView,
> {
    (match write_error {
        Some(e) => seq![ChunkView::Info(msg_write_failed(e@))],
        None => Seq::empty(),
    }) + (match shutdown_error {
        Some(e) => seq![ChunkView::Info(msg_flush_failed(e@))],
        None => Seq::empty(),
    })
}

/// The rule of a function invocation: what follows from `event` in `phase`.
pub open spec fn run_transition(plan: InvocationPlan, phase: RunPhase, event: EngineEvent) -> RunTransition {
    match (phase, event) {
        (RunPhase::Done, _) => RunTransition {
            phase: RunPhase::Done,
            step: StepView { events: Seq::empty(), action: ActionView::Stop },
        },
        (RunPhase::Created, EngineEvent::Begin) => RunTransition {
            phase: RunPhase::CheckingImage,
            step: StepView {
                events: Seq::empty(),
                action: ActionView::InspectImage { image: plan.image_tag@ },
            },
        },
        (RunPhase::CheckingImage, EngineEvent::ImageInspected(r)) => match image_presence(
            failure_kind(r),
        ) {
            Some(true) => RunTransition {
                phase: RunPhase::CreatingContainer,
                step: StepView {
                    events: Seq::empty(),
                    action: ActionView::CreateContainer {
                        body: sandbox_profile(
                            plan.run_id@,
                            plan.image_tag@,
                            plan.command@,
                            true,
                            plan.timeout,
                            plan.mem_limit_mb,
                            plan.cpu_limit_millis,
                        ),
                        name: plan.run_id@,
                    },
                },
            },
            Some(false) => run_finishes(
                plan,
                ChunkView::Error(
                    ErrorView::FunctionImageNotFound {
                        message: msg_image_missing(plan.fn_name@),
                        image_tag: plan.image_tag@,
                    },
                ),
            ),
            None => run_fails(plan, r->Err_0),
        },
        (RunPhase::CreatingContainer, EngineEvent::ContainerCreated(r)) => match r {
            Ok(_) => RunTransition {
                phase: RunPhase::Attaching,
                step: StepView {
                    events: Seq::empty(),
                    action: ActionView::AttachContainer {
                        name: plan.run_id@,
                        options: capture_options(true),
                    },
                },
            },
            Err(err) => run_fails(plan, err),
        },
        (RunPhase::Attaching, EngineEvent::ContainerAttached(r)) => match r {
            Ok(_) => RunTransition {
                phase: RunPhase::Starting,
                step: StepView {
                    events: seq![ChunkView::Info(msg_starting_container(plan.command@))],
                    action: ActionView::StartContainer { name: plan.run_id@ },
                },
            },
            Err(err) => run_fails(plan, err),
        },
        (RunPhase::Starting, EngineEvent::ContainerStarted(r)) => match r {
            Ok(_) => RunTransition {
                phase: RunPhase::WritingInput,
                step: StepView {
                    events: seq![ChunkView::Info(msg_writing_input())],
                    action: ActionView::WriteInput { payload: plan.input@ },
                },
            },
            Err(err) => run_fails(plan, err),
        },
        (
            RunPhase::WritingInput,
            EngineEvent::InputWritten { write_error, shutdown_error },
        ) => RunTransition {
            phase: RunPhase::Waiting,
            step: StepView {
                events: input_notes(write_error, shutdown_error),
                action: ActionView::WaitContainer {
                    name: plan.run_id@,
                    timeout_secs: plan.timeout as u64,
                },
            },
        },
        (RunPhase::Waiting, EngineEvent::WaitFinished(outcome)) => RunTransition {
            phase: RunPhase::Collecting {
                timeout: exit_status(outcome).0,
                exit_code: exit_status(outcome).1,
            },
            step: StepView { events: Seq::empty(), action: ActionView::JoinOutput },
        },
        (
            RunPhase::Collecting { timeout, exit_code },
            EngineEvent::OutputCollected { stdout, stderr },
        ) => run_finishes(
            plan,
            ChunkView::Result { stdout: stdout@, stderr: stderr@, exit_code, timeout },
        ),
        _ => run_finishes(
            plan,
            ChunkView::Error(ErrorView::Docker { message: msg_unexpected_event() }),
        ),
    }
}

/// A step out of a running phase either ends the invocation with one
/// terminal event and the cleanup, or sends no terminal event at all; a step
/// out of `Done` sends nothing.
pub proof fn lemma_run_transition_shape(plan: InvocationPlan, phase: RunPhase, event: EngineEvent)
    ensures
        ({
            let t = run_transition(plan, phase, event);
            &&& phase is Done ==> t.phase is Done && t.step.events.len() == 0 && t.step.action is Stop
            &&& phase !is Done && t.phase is Done ==> ends_with_single_terminal(t.step.events)
                && t.step.action == (ActionView::Cleanup { name: plan.run_id@ })
            &&& t.phase !is Done ==> no_terminal(t.step.events) && !t.step.action.is_final()
        }),
{
    let t = run_transition(plan, phase, event);
    if phase !is Done && t.phase is Done {
        assert(t.step.events.len() == 1);
        assert(t.step.events.drop_last() =~= Seq::<ChunkView>::empty());
    }
}

impl RunPhase {
    /// How far a phase is along the invocation.
    pub open spec fn rank(self) -> nat {
        match self {
            RunPhase::Created => 0,
            RunPhase::CheckingImage => 1,
            RunPhase::CreatingContainer => 2,
            RunPhase::Attaching => 3,
            RunPhase::Starting => 4,
            RunPhase::WritingInput => 5,
            RunPhase::Waiting => 6,
            RunPhase::Collecting { .. } => 7,
            RunPhase::Done => 8,
        }
    }
}

/// A function invocation never goes back: each step moves to a later phase,
/// until it is done. The payload is written before the wait begins.
pub proof fn lemma_invocation_only_advances(plan: InvocationPlan, phase: RunPhase, event: EngineEvent)
    ensures
        ({
            let t = run_transition(plan, phase, event);
            &&& phase !is Done ==> phase.rank() < t.phase.rank()
            &&& phase is Done ==> t.phase is Done
            &&& t.step.action is WaitContainer ==> phase is WritingInput
            &&& t.step.action is WriteInput ==> phase is Starting
        }),
{
}

/// Every container that a function invocation creates has the sandbox
/// profile of the run, with standard input open for the payload: no
/// network, a read-only root filesystem, the size-limited tmpfs on `/tmp`,
/// the memory cap, no capabilities, at most 50 processes, no new
/// privileges, and private IPC and cgroup namespaces.
pub proof fn lemma_invocation_container_is_sandboxed(
    plan: InvocationPlan,
    phase: RunPhase,
    event: EngineEvent,
)
    ensures
        run_transition(plan, phase, event).step.action matches ActionView::CreateContainer {
            body,
            name,
        } ==> {
            &&& name == plan.run_id@
            &&& body == sandbox_profile(
                plan.run_id@,
                plan.image_tag@,
                plan.command@,
                true,
                plan.timeout,
                plan.mem_limit_mb,
                plan.cpu_limit_millis,
            )
            &&& body.network_disabled
            &&& body.readonly_rootfs
            &&& body.tmpfs == seq![("/tmp"@, "rw,noexec,nosuid,nodev,size=100m"@)]
            &&& body.memory == plan.mem_limit_mb * 1048576
            &&& body.cap_drop.contains("ALL"@)
            &&& body.pids_limit == 50
            &&& body.security_opt.contains("no-new-privileges"@)
            &&& body.ipc_mode == "private"@
            &&& body.cgroupns_mode == crate::sandbox::HostConfigCgroupnsModeEnum::Private
        },
{
    crate::sandbox::lemma_sandbox_is_isolated(
        plan.run_id@,
        plan.image_tag@,
        plan.command@,
        true,
        plan.timeout,
        plan.mem_limit_mb,
        plan.cpu_limit_millis,
    );
}

/// The decision logic of one function invocation.
pub struct FunctionRun {
    pub plan: InvocationPlan,
    pub phase: RunPhase,
    /// The events sent so far.
    pub sent: Ghost<Seq<ChunkView>>,
}

impl FunctionRun {
    /// The stream is well formed: while the invocation is under way it holds
    /// no terminal event, and once it is done it holds exactly one, as its
    /// last element.
    pub open spec fn wf(&self) -> bool {
        if self.phase is Done {
            ends_with_single_terminal(self.sent@)
        } else {
            no_terminal(self.sent@)
        }
    }

    /// Whether the invocation is over.
    pub fn is_done(&self) -> (b: bool)
        ensures
            b == (self.phase is Done),
    {
        match self.phase {
            RunPhase::Done => true,
            _ => false,
        }
    }

    fn finish(&mut self, last: CodeRunnerChunk) -> (step: Step)
        requires
            last@.is_terminal(),
        ensures
            final(self).plan == old(self).plan,
            final(self).sent == old(self).sent,
            final(self).phase == RunPhase::Done,
            step@ == run_finishes(old(self).plan, last@).step,
    {
        self.phase = RunPhase::Done;
        Step { events: one_event(last), action: Action::Cleanup { name: self.plan.run_id.clone() } }
    }

    fn fail(&mut self, err: DockerError) -> (step: Step)
        ensures
            final(self).plan == old(self).plan,
            final(self).sent == old(self).sent,
            final(self).phase == RunPhase::Done,
            step@ == run_fails(old(self).plan, err).step,
    {
        self.finish(CodeRunnerChunk::Error(CodeRunnerError::Docker { message: err.text }))
    }

    fn decide(&mut self, event: EngineEvent) -> (step: Step)
        ensures
            final(self).plan == old(self).plan,
            final(self).sent == old(self).sent,
            ({
                let t = run_transition(old(self).plan, old(self).phase, event);
                &&& final(self).phase == t.phase
                &&& step@ == t.step
            }),
    {
        let phase = self.phase;
        match (phase, event) {
            (RunPhase::Done, _) => Step { events: no_events(), action: Action::Stop },
            (RunPhase::Created, EngineEvent::Begin) => {
                self.phase = RunPhase::CheckingImage;
                Step {
                    events: no_events(),
                    action: Action::InspectImage { image: self.plan.image_tag.clone() },
                }
            },
            (RunPhase::CheckingImage, EngineEvent::ImageInspected(r)) => {
                match exists_image(r) {
                    Ok(true) => {
                        let (body, options) = setup_container(
                            self.plan.run_id.as_str(),
                            self.plan.image_tag.as_str(),
                            self.plan.command.as_str(),
                            true,
                            self.plan.timeout,
                            self.plan.mem_limit_mb,
                            self.plan.cpu_limit_millis,
                        );
                        self.phase = RunPhase::CreatingContainer;
                        Step { events: no_events(), action: Action::CreateContainer { body, options } }
                    },
                    Ok(false) => {
                        let err = CodeRunnerError::FunctionImageNotFound {
                            message: image_missing(self.plan.fn_name.as_str()),
                            image_tag: self.plan.image_tag.clone(),
                        };
                        self.finish(CodeRunnerChunk::Error(err))
                    },
                    Err(err) => self.fail(err),
                }
            },
            (RunPhase::CreatingContainer, EngineEvent::ContainerCreated(r)) => {
                match r {
                    Ok(_) => {
                        self.phase = RunPhase::Attaching;
                        Step {
                            events: no_events(),
                            action: Action::AttachContainer {
                                name: self.plan.run_id.clone(),
                                options: AttachContainerOptions {
                                    stream: true,
                                    stdin: true,
                                    stdout: true,
                                    stderr: true,
                                    logs: true,
                                },
                            },
                        }
                    },
                    Err(err) => self.fail(err),
                }
            },
            (RunPhase::Attaching, EngineEvent::ContainerAttached(r)) => {
                match r {
                    Ok(_) => {
                        self.phase = RunPhase::Starting;
                        Step {
                            events: one_event(info(starting_container(self.plan.command.as_str()))),
                            action: Action::StartContainer { name: self.plan.run_id.clone() },
                        }
                    },
                    Err(err) => self.fail(err),
                }
            },
            (RunPhase::Starting, EngineEvent::ContainerStarted(r)) => {
                match r {
                    Ok(_) => {
                        self.phase = RunPhase::WritingInput;
                        Step {
                            events: one_event(info("Writing input to container".to_owned())),
                            action: Action::WriteInput { payload: self.plan.input.clone() },
                        }
                    },
                    Err(err) => self.fail(err),
                }
            },
            (RunPhase::WritingInput, EngineEvent::InputWritten { write_error, shutdown_error }) => {
                let mut events: Vec<CodeRunnerChunk> = Vec::new();
                match &write_error {
                    Some(e) => {
                        events.push(info(concat2("Failed to write input: ", e.as_str())));
                    },
                    None => {},
                }
                match &shutdown_error {
                    Some(e) => {
                        events.push(info(concat2("Failed to flush input: ", e.as_str())));
                    },
                    None => {},
                }
                assert(chunk_views(events@) =~= input_notes(write_error, shutdown_error));
                self.phase = RunPhase::Waiting;
                Step {
                    events,
                    action: Action::WaitContainer {
                        name: self.plan.run_id.clone(),
                        timeout_secs: self.plan.timeout as u64,
                    },
                }
            },
            (RunPhase::Waiting, EngineEvent::WaitFinished(outcome)) => {
                let (timeout, exit_code) = process_exit_status(&outcome);
                self.phase = RunPhase::Collecting { timeout, exit_code };
                Step { events: no_events(), action: Action::JoinOutput }
            },
            (
                RunPhase::Collecting { timeout, exit_code },
                EngineEvent::OutputCollected { stdout, stderr },
            ) => { self.finish(CodeRunnerChunk::Result { stdout, stderr, exit_code, timeout }) },
            _ => self.finish(
                CodeRunnerChunk::Error(
                    CodeRunnerError::Docker { message: "Unexpected engine event".to_owned() },
                ),
            ),
        }
    }

    /// Advances the invocation to its next call on the engine: takes what
    /// happened since the last step, and returns the events to send and the
    /// next action.
    pub fn step(&mut self, event: EngineEvent) -> (step: Step)
        requires
            old(self).wf(),
        ensures
            final(self).wf(),
            final(self).plan == old(self).plan,
            final(self).sent@ == old(self).sent@ + step@.events,
            ({
                let t = run_transition(old(self).plan, old(self).phase, event);
                &&& final(self).phase == t.phase
                &&& step@ == t.step
            }),
            step@.action.is_final() <==> final(self).phase is Done,
    {
        let step = self.decide(event);
        proof {
            lemma_run_transition_shape(old(self).plan, old(self).phase, event);
            let before = old(self).sent@;
            let events = step@.events;
            if old(self).phase is Done {
                assert(before + events =~= before);
            } else if self.phase is Done {
                lemma_complete_after_append(before, events);
            } else {
                lemma_no_terminal_append(before, events);
            }
            self.sent = Ghost(before + events);
        }
        step
    }
}

/// Builds and runs stored functions.
pub struct FunctionExecutor {}

impl FunctionExecutor {
    /// The tag of the function's image.
    pub fn fn_tag(name: &str) -> (tag: String)
        ensures
            tag@ == function_tag(name@),
    {
        concat3("code-runner-fn-", name, ":latest")
    }

    /// Sets up the build of the function's image from the rendered
    /// `dockerfile`, the language's main program and the function's code.
    pub fn build_fn(
        fn_name: &str,
        fn_info: FunctionDetail,
        lang_data: LanguageData,
        dockerfile: String,
        main_code: String,
        version: &str,
    ) -> (m: FunctionBuild)
        ensures
            m.wf(),
            m.phase == BuildPhase::Created,
            m.sent@ == Seq::<ChunkView>::empty(),
            m.build@ == build_progress_of(Seq::empty()),
            m.plan.fn_name@ == fn_name@,
            m.plan.base_image@ == lang_data.image@,
            m.plan.context_message@ == msg_function_context(lang_data.main_file@, lang_data.fn_file@),
            m.plan.build@ == function_build(
                fn_name@,
                version@,
                fn_info.version,
                dockerfile@,
                lang_data.main_file@,
                main_code@,
                lang_data.fn_file@,
                fn_info.code@,
            ),
    {
        let mut files: Vec<ContextFile> = Vec::new();
        files.push(
            ContextFile { path: "Dockerfile".to_owned(), content: dockerfile.as_str().as_bytes_vec() },
        );
        files.push(
            ContextFile {
                path: lang_data.main_file.clone(),
                content: main_code.as_str().as_bytes_vec(),
            },
        );
        files.push(
            ContextFile {
                path: lang_data.fn_file.clone(),
                content: fn_info.code.as_str().as_bytes_vec(),
            },
        );
        assert(context_view(files@) =~= function_context(
            dockerfile@,
            lang_data.main_file@,
            main_code@,
            lang_data.fn_file@,
            fn_info.code@,
        ));
        let mut message = "Creating build context:".to_owned();
        message.append(" ");
        message.append(debug_text("Dockerfile").as_str());
        message.append(" ");
        message.append(debug_text(lang_data.main_file.as_str()).as_str());
        message.append(" ");
        message.append(debug_text(lang_data.fn_file.as_str()).as_str());

        let mut labels: Vec<(String, String)> = Vec::new();
        labels.push((APP_LABEL.to_owned(), concat2("v", version)));
        labels.push((FN_LABEL.to_owned(), fn_name.to_owned()));
        assert(pair_texts(labels@) =~= seq![(APP_LABEL@, "v"@ + version@), (FN_LABEL@, fn_name@)]);
        let build_id = concat3(fn_name, "-v", u64_to_decimal(fn_info.version as u64).as_str());
        let mut build_args: Vec<(String, String)> = Vec::new();
        build_args.push((BUILD_ID_ARG.to_owned(), build_id));
        assert(pair_texts(build_args@) =~= seq![
            (BUILD_ID_ARG@, function_build_id(fn_name@, fn_info.version)),
        ]);
        let build = BuildRequest { tag: FunctionExecutor::fn_tag(fn_name), labels, build_args, files };
        FunctionBuild {
            plan: BuildPlan {
                fn_name: fn_name.to_owned(),
                base_image: lang_data.image,
                context_message: message,
                build,
            },
            phase: BuildPhase::Created,
            build: BuildProgress::new(),
            sent: Ghost(Seq::empty()),
        }
    }

    /// Sets up one invocation of the function under `run_id`.
    pub fn run_function(
        run_id: &str,
        fn_name: &str,
        input: RunFunctionInput,
        lang_data: LanguageData,
    ) -> (m: FunctionRun)
        ensures
            m.wf(),
            m.phase == RunPhase::Created,
            m.sent@ == Seq::<ChunkView>::empty(),
            m.plan.run_id@ == run_id@,
            m.plan.fn_name@ == fn_name@,
            m.plan.image_tag@ == function_tag(fn_name@),
            m.plan.command@ == lang_data.command@,
            m.plan.input@ == input.input@,
            m.plan.timeout == input.timeout,
            m.plan.mem_limit_mb == input.mem_limit_mb,
            m.plan.cpu_limit_millis == input.cpu_limit_millis,
    {
        FunctionRun {
            plan: InvocationPlan {
                run_id: run_id.to_owned(),
                fn_name: fn_name.to_owned(),
                image_tag: FunctionExecutor::fn_tag(fn_name),
                command: lang_data.command,
                input: input.input,
                timeout: input.timeout,
                mem_limit_mb: input.mem_limit_mb,
                cpu_limit_millis: input.cpu_limit_millis,
            },
            phase: RunPhase::Created,
            sent: Ghost(Seq::empty()),
        }
    }
}

/// Once a function invocation is done, its stream holds exactly one terminal
/// event, and that event is the last.
pub proof fn lemma_finished_invocation_has_one_terminal(m: FunctionRun)
    requires
        m.wf(),
        m.phase is Done,
    ensures
        crate::pipeline::terminal_count(m.sent@) == 1,
        m.sent@.last().is_terminal(),
{
    crate::pipeline::lemma_complete_stream_has_one_terminal(m.sent@);
}

/// Once a function build is over, its stream holds exactly one terminal
/// event, and that event is the last; before that it holds none.
pub proof fn lemma_build_stream_terminal(m: FunctionBuild)
    requires
        m.wf(),
    ensures
        m.phase.is_over() ==> crate::pipeline::terminal_count(m.sent@) == 1
            && m.sent@.last().is_terminal(),
        !m.phase.is_over() ==> crate::pipeline::terminal_count(m.sent@) == 0,
{
    if m.phase.is_over() {
        crate::pipeline::lemma_complete_stream_has_one_terminal(m.sent@);
    } else {
        crate::pipeline::lemma_no_terminal_counts_zero(m.sent@);
    }
}

} // verus!
