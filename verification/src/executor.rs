//! The pipeline of a one-off execution.
//!
//! `DockerExecutor` decides, step by step, what to ask of the container
//! engine and what to tell the client: ensure the base image, build the
//! image of the run from its build context, create the sandboxed container,
//! attach, start, wait within the time limit, collect the output and report
//! the result. Every failure ends the stream with one terminal event, and
//! the last action of every run is the cleanup of its container.

use vstd::prelude::*;
use vstd::string::*;
use vstd::utf8::encode_utf8;
use crate::constants::{APP_LABEL, BUILD_ID_ARG, EXEC_LABEL};
use crate::engine::{
    build_item_chunks, build_progress_after, build_progress_of, exists_image, exit_status,
    failure_kind, image_presence, process_exit_status, process_pull_frame, pull_frame_chunks,
    BuildProgress, BuildProgressView, DockerError,
};
use crate::messages::{
    build_failed, building_image, built_image, checking_image, create_failed,
    msg_attach_failed, msg_build_failed, msg_building_image, msg_built_image, msg_check_failed,
    msg_checking_image, msg_create_failed, msg_pull_failed, msg_pulling_image,
    msg_start_failed, msg_starting_container, msg_unexpected_event, pulling_image, start_failed,
    starting_container,
};
use crate::models::{
    files_of, ChunkView, CodeRunnerChunk, CodeRunnerError, CodeRunnerFile, CodeRunnerInput,
    ErrorView, LanguageData,
};
use crate::pipeline::{
    context_view, docker_failure, info, lemma_complete_after_append, lemma_no_terminal_append,
    no_events, no_terminal, one_event, two_events, ends_with_single_terminal, Action, ActionView,
    AttachContainerOptions, BuildRequest, BuildView, ContextFile, EngineEvent, Step, StepView,
};
use crate::sandbox::{sandbox_profile, setup_container};
use crate::text::{concat2, concat3, copy_bytes, pair_texts};

verus! {

/// Where a one-off execution stands.
#[derive(Debug, Clone, Copy, PartialEq, Eq, Structural)]
pub enum ExecPhase {
    Created,
    CheckingImage,
    PullingImage,
    Building,
    CreatingContainer,
    Attaching,
    Starting,
    Waiting,
    /// The wait is over; the output is being collected.
    Collecting { timeout: bool, exit_code: Option<i64> },
    Done,
}

/// What a one-off execution was set up with.
#[derive(Debug, Clone, PartialEq, Eq)]
pub struct RunPlan {
    pub run_id: String,
    /// Tag of the base image.
    pub image: String,
    /// Shell command that runs the program.
    pub command: String,
    /// The status line that lists the build context.
    pub context_message: String,
    /// The build of the run's image.
    pub build: BuildRequest,
    pub timeout: u32,
    pub mem_limit_mb: u32,
    pub cpu_limit_millis: u32,
}

/// The attached files as they stand in the build context, under `files/`.
pub open spec fn attached_context(files: Seq<CodeRunnerFile>) -> Seq<(Seq<char>, Seq<u8>)> {
    files.map_values(|f: CodeRunnerFile| ("files/"@ + f.path@, f.content@))
}

/// The build context of a one-off execution, in order: the Dockerfile, the
/// main file with the user's code, then the attached files.
pub open spec fn one_off_context(
    dockerfile: Seq<char>,
    main_file: Seq<char>,
    code: Seq<char>,
    files: Seq<CodeRunnerFile>,
) -> Seq<(Seq<char>, Seq<u8>)> {
    seq![("Dockerfile"@, encode_utf8(dockerfile)), (main_file, encode_utf8(code))]
        + attached_context(files)
}

/// The paths of the attached files, each after a comma.
pub open spec fn listed_files(files: Seq<CodeRunnerFile>) -> Seq<char>
    decreases files.len(),
{
    if files.len() == 0 {
        Seq::empty()
    } else {
        listed_files(files.drop_last()) + ", files/"@ + files.last().path@
    }
}

/// The status line that lists the build context of a one-off execution.
pub open spec fn msg_one_off_context(main_file: Seq<char>, files: Seq<CodeRunnerFile>) -> Seq<char> {
    "Creating build context: Dockerfile, "@ + main_file + "..."@ + listed_files(files)
}

/// The image build of a one-off execution: tagged with the run id, labelled
/// with the service version and the run id, with the run id as build id.
pub open spec fn one_off_build(
    run_id: Seq<char>,
    version: Seq<char>,
    dockerfile: Seq<char>,
    main_file: Seq<char>,
    code: Seq<char>,
    files: Seq<CodeRunnerFile>,
) -> BuildView {
    BuildView {
        tag: run_id,
        labels: seq![(APP_LABEL@, "v"@ + version), (EXEC_LABEL@, run_id)],
        build_args: seq![(BUILD_ID_ARG@, run_id)],
        files: one_off_context(dockerfile, main_file, code, files),
    }
}

/// The streams that a one-off execution attaches to.
pub open spec fn capture_options(stdin: bool) -> AttachContainerOptions {
    AttachContainerOptions { stream: true, stdin, stdout: true, stderr: true, logs: true }
}

/// The outcome of one step: the next phase, the build progress, the events
/// and the next action.
pub struct Transition {
    pub phase: ExecPhase,
    pub build: BuildProgressView,
    pub step: StepView,
}

/// A step that ends the run with the terminal event `last`.
pub open spec fn finish_with(plan: RunPlan, build: BuildProgressView, last: ChunkView) -> Transition {
    Transition {
        phase: ExecPhase::Done,
        build,
        step: StepView {
            events: seq![last],
            action: ActionView::Cleanup { name: plan.run_id@ },
        },
    }
}

/// A step that ends the run on an engine failure.
pub open spec fn fail_with(
    plan: RunPlan,
    build: BuildProgressView,
    prefix: Seq<char>,
    err: DockerError,
) -> Transition {
    finish_with(plan, build, ChunkView::Error(ErrorView::Docker { message: prefix + err.text@ }))
}

/// The step that starts the build once the base image is there.
pub open spec fn start_build(plan: RunPlan, build: BuildProgressView) -> Transition {
    Transition {
        phase: ExecPhase::Building,
        build,
        step: StepView {
            events: seq![
                ChunkView::Info(plan.context_message@),
                ChunkView::Info(msg_building_image(plan.run_id@)),
            ],
            action: ActionView::BuildImage(plan.build@),
        },
    }
}

/// The rule of the pipeline: what follows from `event` in `phase`.
pub open spec fn one_off_transition(
    plan: RunPlan,
    phase: ExecPhase,
    build: BuildProgressView,
    event: EngineEvent,
) -> Transition {
    match (phase, event) {
        (ExecPhase::Done, _) => Transition {
            phase: ExecPhase::Done,
            build,
            step: StepView { events: Seq::empty(), action: ActionView::Stop },
        },
        (ExecPhase::Created, EngineEvent::Begin) => Transition {
            phase: ExecPhase::CheckingImage,
            build,
            step: StepView {
                events: seq![ChunkView::Info(msg_checking_image(plan.image@))],
                action: ActionView::InspectImage { image: plan.image@ },
            },
        },
        (ExecPhase::CheckingImage, EngineEvent::ImageInspected(r)) => match image_presence(
            failure_kind(r),
        ) {
            Some(true) => start_build(plan, build),
            Some(false) => Transition {
                phase: ExecPhase::PullingImage,
                build,
                step: StepView {
                    events: seq![ChunkView::Info(msg_pulling_image(plan.image@))],
                    action: ActionView::PullImage { image: plan.image@ },
                },
            },
            None => fail_with(plan, build, msg_check_failed(), r->Err_0),
        },
        (ExecPhase::PullingImage, EngineEvent::PullProgress(frame)) => Transition {
            phase: ExecPhase::PullingImage,
            build,
            step: StepView { events: pull_frame_chunks(frame), action: ActionView::NextFrame },
        },
        (ExecPhase::PullingImage, EngineEvent::PullFinished(r)) => match r {
            Ok(_) => start_build(plan, build),
            Err(err) => fail_with(plan, build, msg_pull_failed(), err),
        },
        (ExecPhase::Building, EngineEvent::BuildProgress(item)) => Transition {
            phase: ExecPhase::Building,
            build: build_progress_after(build, item),
            step: StepView { events: build_item_chunks(item), action: ActionView::NextFrame },
        },
        (ExecPhase::Building, EngineEvent::BuildFinished) => match build.image_id {
            Some(id) => Transition {
                phase: ExecPhase::CreatingContainer,
                build,
                step: StepView {
                    events: seq![ChunkView::Info(msg_built_image(plan.run_id@, id))],
                    action: ActionView::CreateContainer {
                        body: sandbox_profile(
                            plan.run_id@,
                            plan.run_id@,
                            plan.command@,
                            false,
                            plan.timeout,
                            plan.mem_limit_mb,
                            plan.cpu_limit_millis,
                        ),
                        name: plan.run_id@,
                    },
                },
            },
            None => finish_with(
                plan,
                build,
                ChunkView::BuildError {
                    message: msg_build_failed(plan.run_id@),
                    build_logs: build.build_logs,
                },
            ),
        },
        (ExecPhase::CreatingContainer, EngineEvent::ContainerCreated(r)) => match r {
            Ok(_) => Transition {
                phase: ExecPhase::Attaching,
                build,
                step: StepView {
                    events: Seq::empty(),
                    action: ActionView::AttachContainer {
                        name: plan.run_id@,
                        options: capture_options(false),
                    },
                },
            },
            Err(err) => fail_with(plan, build, msg_create_failed(plan.run_id@), err),
        },
        (ExecPhase::Attaching, EngineEvent::ContainerAttached(r)) => match r {
            Ok(_) => Transition {
                phase: ExecPhase::Starting,
                build,
                step: StepView {
                    events: seq![ChunkView::Info(msg_starting_container(plan.command@))],
                    action: ActionView::StartContainer { name: plan.run_id@ },
                },
            },
            Err(err) => fail_with(plan, build, msg_attach_failed(), err),
        },
        (ExecPhase::Starting, EngineEvent::ContainerStarted(r)) => match r {
            Ok(_) => Transition {
                phase: ExecPhase::Waiting,
                build,
                step: StepView {
                    events: Seq::empty(),
                    action: ActionView::WaitContainer {
                        name: plan.run_id@,
                        timeout_secs: plan.timeout as u64,
                    },
                },
            },
            Err(err) => fail_with(plan, build, msg_start_failed(plan.run_id@), err),
        },
        (ExecPhase::Waiting, EngineEvent::WaitFinished(outcome)) => Transition {
            phase: ExecPhase::Collecting {
                timeout: exit_status(outcome).0,
                exit_code: exit_status(outcome).1,
            },
            build,
            step: StepView { events: Seq::empty(), action: ActionView::JoinOutput },
        },
        (
            ExecPhase::Collecting { timeout, exit_code },
            EngineEvent::OutputCollected { stdout, stderr },
        ) => finish_with(
            plan,
            build,
            ChunkView::Result { stdout: stdout@, stderr: stderr@, exit_code, timeout },
        ),
        _ => finish_with(
            plan,
            build,
            ChunkView::Error(ErrorView::Docker { message: msg_unexpected_event() }),
        ),
    }
}

/// The events of a pull frame are never terminal.
pub proof fn lemma_pull_chunks_not_terminal(frame: crate::engine::PullFrame)
    ensures
        no_terminal(pull_frame_chunks(frame)),
{
}

/// The events of a build item are never terminal.
pub proof fn lemma_build_chunks_not_terminal(item: Result<crate::engine::BuildFrame, DockerError>)
    ensures
        no_terminal(build_item_chunks(item)),
{
}

/// A step out of a running phase either ends the run with one terminal
/// event and the cleanup, or sends no terminal event at all; a step out of
/// `Done` sends nothing.
pub proof fn lemma_transition_shape(
    plan: RunPlan,
    phase: ExecPhase,
    build: BuildProgressView,
    event: EngineEvent,
)
    ensures
        ({
            let t = one_off_transition(plan, phase, build, event);
            &&& phase is Done ==> t.phase is Done && t.step.events.len() == 0 && t.step.action is Stop
            &&& phase !is Done && t.phase is Done ==> ends_with_single_terminal(t.step.events)
                && t.step.action == (ActionView::Cleanup { name: plan.run_id@ })
            &&& t.phase !is Done ==> no_terminal(t.step.events) && !t.step.action.is_final()
        }),
{
    let t = one_off_transition(plan, phase, build, event);
    if phase !is Done && t.phase is Done {
        assert(t.step.events.len() == 1);
        assert(t.step.events.drop_last() =~= Seq::<ChunkView>::empty());
    }
    match event {
        EngineEvent::PullProgress(frame) => {
            lemma_pull_chunks_not_terminal(frame);
        },
        EngineEvent::BuildProgress(item) => {
            lemma_build_chunks_not_terminal(item);
        },
        _ => {},
    }
}

impl ExecPhase {
    /// How far a phase is along the pipeline.
    pub open spec fn rank(self) -> nat {
        match self {
            ExecPhase::Created => 0,
            ExecPhase::CheckingImage => 1,
            ExecPhase::PullingImage => 2,
            ExecPhase::Building => 3,
            ExecPhase::CreatingContainer => 4,
            ExecPhase::Attaching => 5,
            ExecPhase::Starting => 6,
            ExecPhase::Waiting => 7,
            ExecPhase::Collecting { .. } => 8,
            ExecPhase::Done => 9,
        }
    }
}

/// A one-off execution never goes back: each step stays in its phase, which
/// only the streams of pull and build frames do, or moves to a later one.
pub proof fn lemma_execution_only_advances(
    plan: RunPlan,
    phase: ExecPhase,
    build: BuildProgressView,
    event: EngineEvent,
)
    ensures
        ({
            let t = one_off_transition(plan, phase, build, event);
            &&& phase.rank() <= t.phase.rank()
            &&& phase.rank() == t.phase.rank() ==> phase is PullingImage || phase is Building
                || phase is Done
        }),
{
}

/// Every container that a one-off execution creates has the sandbox profile
/// of the run, with standard input closed: no network, a read-only root
/// filesystem, the size-limited tmpfs on `/tmp`, the memory cap, no
/// capabilities, at most 50 processes, no new privileges, and private IPC
/// and cgroup namespaces.
pub proof fn lemma_created_container_is_sandboxed(
    plan: RunPlan,
    phase: ExecPhase,
    build: BuildProgressView,
    event: EngineEvent,
)
    ensures
        one_off_transition(plan, phase, build, event).step.action matches ActionView::CreateContainer {
            body,
            name,
        } ==> {
            &&& name == plan.run_id@
            &&& body == sandbox_profile(
                plan.run_id@,
                plan.run_id@,
                plan.command@,
                false,
                plan.timeout,
                plan.mem_limit_mb,
                plan.cpu_limit_millis,
            )
            &&& body.network_disabled
            &&& body.readonly_rootfs
            &&& body.tmpfs == seq![("/tmp"@, "rw,noexec,nosuid,nodev,size=100m"@)]
            &&& body.memory == plan.mem_limit_mb * 1048576
            &&& body.cap_drop.contains("ALL"@)
            &&& body.pids_limit == 50
            &&& body.security_opt.contains("no-new-privileges"@)
            &&& body.ipc_mode == "private"@
            &&& body.cgroupns_mode == crate::sandbox::HostConfigCgroupnsModeEnum::Private
        },
{
    crate::sandbox::lemma_sandbox_is_isolated(
        plan.run_id@,
        plan.run_id@,
        plan.command@,
        false,
        plan.timeout,
        plan.mem_limit_mb,
        plan.cpu_limit_millis,
    );
}

/// The decision logic of one one-off execution.
pub struct DockerExecutor {
    pub plan: RunPlan,
    pub phase: ExecPhase,
    pub build: BuildProgress,
    /// The events sent so far.
    pub sent: Ghost<Seq<ChunkView>>,
}

impl DockerExecutor {
    /// The stream is well formed: while the run is under way it holds no
    /// terminal event, and once the run is done it holds exactly one, as its
    /// last element.
    pub open spec fn wf(&self) -> bool {
        if self.phase is Done {
            ends_with_single_terminal(self.sent@)
        } else {
            no_terminal(self.sent@)
        }
    }

    /// Sets up the execution of `input` under `run_id`, with the rendered
    /// `dockerfile` and the configuration of the request's language.
    pub fn new(
        run_id: String,
        version: &str,
        input: CodeRunnerInput,
        dockerfile: String,
        lang_data: LanguageData,
    ) -> (m: DockerExecutor)
        ensures
            m.wf(),
            m.phase == ExecPhase::Created,
            m.sent@ == Seq::<ChunkView>::empty(),
            m.build@ == build_progress_of(Seq::empty()),
            m.plan.run_id@ == run_id@,
            m.plan.image@ == lang_data.image@,
            m.plan.command@ == lang_data.command@,
            m.plan.timeout == input.timeout,
            m.plan.mem_limit_mb == input.mem_limit_mb,
            m.plan.cpu_limit_millis == input.cpu_limit_millis,
            m.plan.context_message@ == msg_one_off_context(
                lang_data.main_file@,
                files_of(input.files),
            ),
            m.plan.build@ == one_off_build(
                run_id@,
                version@,
                dockerfile@,
                lang_data.main_file@,
                input.code@,
                files_of(input.files),
            ),
    {
        let mut files: Vec<ContextFile> = Vec::new();
        files.push(
            ContextFile { path: "Dockerfile".to_owned(), content: dockerfile.as_str().as_bytes_vec() },
        );
        files.push(
            ContextFile {
                path: lang_data.main_file.clone(),
                content: input.code.as_str().as_bytes_vec(),
            },
        );
        let ghost head = context_view(files@);
        assert(head =~= seq![
            ("Dockerfile"@, encode_utf8(dockerfile@)),
            (lang_data.main_file@, encode_utf8(input.code@)),
        ]);
        let mut message = concat3("Creating build context: Dockerfile, ", lang_data.main_file.as_str(), "...");
        match &input.files {
            Some(list) => {
                let mut i: usize = 0;
                assert(list@.take(0) =~= Seq::<CodeRunnerFile>::empty());
                while i < list.len()
                    invariant
                        i <= list.len(),
                        context_view(files@) == head + attached_context(list@.take(i as int)),
                        message@ == msg_one_off_context(lang_data.main_file@, list@.take(i as int)),
                    decreases list.len() - i,
                {
                    let ghost before = list@.take(i as int);
                    let ghost next = list@.take(i + 1);
                    let ghost files_before = context_view(files@);
                    let path = concat2("files/", list[i].path.as_str());
                    message.append(", ");
                    message.append(path.as_str());
                    files.push(ContextFile { path, content: copy_bytes(&list[i].content) });
                    proof {
                        assert(context_view(files@) =~= files_before.push(
                            ("files/"@ + list@[i as int].path@, list@[i as int].content@),
                        ));
                        assert(attached_context(next) =~= attached_context(before).push(
                            ("files/"@ + list@[i as int].path@, list@[i as int].content@),
                        ));
                        assert(next.drop_last() =~= before);
                        assert(next.last() == list@[i as int]);
                        assert(listed_files(next) =~= listed_files(before) + ", "@ + ("files/"@
                            + list@[i as int].path@)) by {
                            reveal_strlit(", files/");
                            reveal_strlit(", ");
                            reveal_strlit("files/");
                            assert(", files/"@ =~= ", "@ + "files/"@);
                        }
                        assert(message@ =~= msg_one_off_context(lang_data.main_file@, next));
                        assert(context_view(files@) =~= head + attached_context(next));
                    }
                    i += 1;
                }
                assert(list@.take(list.len() as int) =~= list@);
            },
            None => {
                assert(context_view(files@) =~= head + attached_context(Seq::empty()));
                assert(message@ =~= msg_one_off_context(lang_data.main_file@, Seq::empty()));
            },
        }
        let mut labels: Vec<(String, String)> = Vec::new();
        labels.push((APP_LABEL.to_owned(), concat2("v", version)));
        labels.push((EXEC_LABEL.to_owned(), run_id.clone()));
        assert(pair_texts(labels@) =~= seq![(APP_LABEL@, "v"@ + version@), (EXEC_LABEL@, run_id@)]);
        let mut build_args: Vec<(String, String)> = Vec::new();
        build_args.push((BUILD_ID_ARG.to_owned(), run_id.clone()));
        assert(pair_texts(build_args@) =~= seq![(BUILD_ID_ARG@, run_id@)]);
        let build = BuildRequest { tag: run_id.clone(), labels, build_args, files };
        DockerExecutor {
            plan: RunPlan {
                run_id,
                image: lang_data.image,
                command: lang_data.command,
                context_message: message,
                build,
                timeout: input.timeout,
                mem_limit_mb: input.mem_limit_mb,
                cpu_limit_millis: input.cpu_limit_millis,
            },
            phase: ExecPhase::Created,
            build: BuildProgress::new(),
            sent: Ghost(Seq::empty()),
        }
    }

    /// Whether the run is over.
    pub fn is_done(&self) -> (b: bool)
        ensures
            b == (self.phase is Done),
    {
        match self.phase {
            ExecPhase::Done => true,
            _ => false,
        }
    }

    fn finish(&mut self, last: CodeRunnerChunk) -> (step: Step)
        requires
            last@.is_terminal(),
        ensures
            final(self).plan == old(self).plan,
            final(self).build == old(self).build,
            final(self).sent == old(self).sent,
            final(self).phase == ExecPhase::Done,
            step@ == finish_with(old(self).plan, old(self).build@, last@).step,
    {
        self.phase = ExecPhase::Done;
        Step { events: one_event(last), action: Action::Cleanup { name: self.plan.run_id.clone() } }
    }

    fn begin_build(&mut self) -> (step: Step)
        ensures
            final(self).plan == old(self).plan,
            final(self).build == old(self).build,
            final(self).sent == old(self).sent,
            final(self).phase == ExecPhase::Building,
            step@ == start_build(old(self).plan, old(self).build@).step,
    {
        self.phase = ExecPhase::Building;
        Step {
            events: two_events(
                info(self.plan.context_message.clone()),
                info(building_image(self.plan.run_id.as_str())),
            ),
            action: Action::BuildImage(self.plan.build.duplicate()),
        }
    }

    fn decide(&mut self, event: EngineEvent) -> (step: Step)
        ensures
            final(self).plan == old(self).plan,
            final(self).sent == old(self).sent,
            ({
                let t = one_off_transition(old(self).plan, old(self).phase, old(self).build@, event);
                &&& final(self).phase == t.phase
                &&& final(self).build@ == t.build
                &&& step@ == t.step
            }),
    {
        let phase = self.phase;
        match (phase, event) {
            (ExecPhase::Done, _) => Step { events: no_events(), action: Action::Stop },
            (ExecPhase::Created, EngineEvent::Begin) => {
                self.phase = ExecPhase::CheckingImage;
                Step {
                    events: one_event(info(checking_image(self.plan.image.as_str()))),
                    action: Action::InspectImage { image: self.plan.image.clone() },
                }
            },
            (ExecPhase::CheckingImage, EngineEvent::ImageInspected(r)) => {
                match exists_image(r) {
                    Ok(true) => self.begin_build(),
                    Ok(false) => {
                        self.phase = ExecPhase::PullingImage;
                        Step {
                            events: one_event(info(pulling_image(self.plan.image.as_str()))),
                            action: Action::PullImage { image: self.plan.image.clone() },
                        }
                    },
                    Err(err) => self.finish(
                        docker_failure("Unexpected error when checking image: ", &err),
                    ),
                }
            },
            (ExecPhase::PullingImage, EngineEvent::PullProgress(frame)) => {
                Step { events: process_pull_frame(&frame), action: Action::NextFrame }
            },
            (ExecPhase::PullingImage, EngineEvent::PullFinished(r)) => {
                match r {
                    Ok(_) => self.begin_build(),
                    Err(err) => self.finish(docker_failure("Error pulling image: ", &err)),
                }
            },
            (ExecPhase::Building, EngineEvent::BuildProgress(item)) => {
                let events = self.build.absorb(&item);
                Step { events, action: Action::NextFrame }
            },
            (ExecPhase::Building, EngineEvent::BuildFinished) => {
                match &self.build.image_id {
                    Some(id) => {
                        let message = built_image(self.plan.run_id.as_str(), id.as_str());
                        let (body, options) = setup_container(
                            self.plan.run_id.as_str(),
                            self.plan.run_id.as_str(),
                            self.plan.command.as_str(),
                            false,
                            self.plan.timeout,
                            self.plan.mem_limit_mb,
                            self.plan.cpu_limit_millis,
                        );
                        self.phase = ExecPhase::CreatingContainer;
                        Step {
                            events: one_event(info(message)),
                            action: Action::CreateContainer { body, options },
                        }
                    },
                    None => {
                        let last = CodeRunnerChunk::BuildError {
                            message: build_failed(self.plan.run_id.as_str()),
                            build_logs: self.build.build_logs.clone(),
                        };
                        self.finish(last)
                    },
                }
            },
            (ExecPhase::CreatingContainer, EngineEvent::ContainerCreated(r)) => {
                match r {
                    Ok(_) => {
                        self.phase = ExecPhase::Attaching;
                        Step {
                            events: no_events(),
                            action: Action::AttachContainer {
                                name: self.plan.run_id.clone(),
                                options: AttachContainerOptions {
                                    stream: true,
                                    stdin: false,
                                    stdout: true,
                                    stderr: true,
                                    logs: true,
                                },
                            },
                        }
                    },
                    Err(err) => {
                        let prefix = create_failed(self.plan.run_id.as_str());
                        self.finish(docker_failure(prefix.as_str(), &err))
                    },
                }
            },
            (ExecPhase::Attaching, EngineEvent::ContainerAttached(r)) => {
                match r {
                    Ok(_) => {
                        self.phase = ExecPhase::Starting;
                        Step {
                            events: one_event(info(starting_container(self.plan.command.as_str()))),
                            action: Action::StartContainer { name: self.plan.run_id.clone() },
                        }
                    },
                    Err(err) => self.finish(docker_failure("Failed to attach to container: ", &err)),
                }
            },
            (ExecPhase::Starting, EngineEvent::ContainerStarted(r)) => {
                match r {
                    Ok(_) => {
                        self.phase = ExecPhase::Waiting;
                        Step {
                            events: no_events(),
                            action: Action::WaitContainer {
                                name: self.plan.run_id.clone(),
                                timeout_secs: self.plan.timeout as u64,
                            },
                        }
                    },
                    Err(err) => {
                        let prefix = start_failed(self.plan.run_id.as_str());
                        self.finish(docker_failure(prefix.as_str(), &err))
                    },
                }
            },
            (ExecPhase::Waiting, EngineEvent::WaitFinished(outcome)) => {
                let (timeout, exit_code) = process_exit_status(&outcome);
                self.phase = ExecPhase::Collecting { timeout, exit_code };
                Step { events: no_events(), action: Action::JoinOutput }
            },
            (
                ExecPhase::Collecting { timeout, exit_code },
                EngineEvent::OutputCollected { stdout, stderr },
            ) => { self.finish(CodeRunnerChunk::Result { stdout, stderr, exit_code, timeout }) },
            _ => self.finish(
                CodeRunnerChunk::Error(
                    CodeRunnerError::Docker { message: "Unexpected engine event".to_owned() },
                ),
            ),
        }
    }

    /// Runs the pipeline up to its next call on the engine: takes what
    /// happened since the last step, and returns the events to send and the
    /// next action.
    pub fn run(&mut self, event: EngineEvent) -> (step: Step)
        requires
            old(self).wf(),
        ensures
            final(self).wf(),
            final(self).plan == old(self).plan,
            final(self).sent@ == old(self).sent@ + step@.events,
            ({
                let t = one_off_transition(old(self).plan, old(self).phase, old(self).build@, event);
                &&& final(self).phase == t.phase
                &&& final(self).build@ == t.build
                &&& step@ == t.step
            }),
            step@.action.is_final() <==> final(self).phase is Done,
    {
        let step = self.decide(event);
        proof {
            lemma_transition_shape(old(self).plan, old(self).phase, old(self).build@, event);
            let before = old(self).sent@;
            let events = step@.events;
            if old(self).phase is Done {
                assert(before + events =~= before);
            } else if self.phase is Done {
                lemma_complete_after_append(before, events);
            } else {
                lemma_no_terminal_append(before, events);
            }
            self.sent = Ghost(before + events);
        }
        step
    }
}

/// Once a one-off execution is done, its stream holds exactly one terminal
/// event, and that event is the last.
pub proof fn lemma_finished_run_has_one_terminal(m: DockerExecutor)
    requires
        m.wf(),
        m.phase is Done,
    ensures
        crate::pipeline::terminal_count(m.sent@) == 1,
        m.sent@.last().is_terminal(),
{
    crate::pipeline::lemma_complete_stream_has_one_terminal(m.sent@);
}

} // verus!
