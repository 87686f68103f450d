use tinirun::engine::{BuildFrame, DockerError, DockerErrorKind, PullFrame, WaitOutcome};
use tinirun::executor::{DockerExecutor, ExecPhase};
use tinirun::models::{
    CodeRunnerChunk, CodeRunnerError, CodeRunnerFile, CodeRunnerInput, CodeRunnerLanguage,
    LanguageData,
};
use tinirun::pipeline::{
    Action, AttachContainerOptions, BuildRequest, ContextFile, EngineEvent, Step,
};
use tinirun::sandbox::setup_container;

const RUN_ID: &str = "code-runner-6f2c1a9e-3b7d-4c55-9d10-0a1b2c3d4e5f";

fn python() -> LanguageData {
    LanguageData {
        image: "python:3.13-slim".to_string(),
        command: "python main.py".to_string(),
        template: "python".to_string(),
        main_file: "main.py".to_string(),
        fn_file: "function.py".to_string(),
    }
}

fn request(code: &str, timeout: u32) -> CodeRunnerInput {
    CodeRunnerInput {
        code: code.to_string(),
        lang: CodeRunnerLanguage::Python,
        dependencies: None,
        files: None,
        timeout,
        mem_limit_mb: 256,
        cpu_limit_millis: 1000,
    }
}

fn machine(input: CodeRunnerInput) -> DockerExecutor {
    DockerExecutor::new(
        RUN_ID.to_string(),
        "0.1.0",
        input,
        "FROM python:3.13-slim\n".to_string(),
        python(),
    )
}

fn info(s: &str) -> CodeRunnerChunk {
    CodeRunnerChunk::Info(s.to_string())
}

fn failure(text: &str) -> DockerError {
    DockerError {
        kind: DockerErrorKind::Other,
        text: text.to_string(),
    }
}

fn not_found() -> DockerError {
    DockerError {
        kind: DockerErrorKind::ResponseServerError { status_code: 404 },
        text: "No such image".to_string(),
    }
}

fn docker_error(message: &str) -> CodeRunnerChunk {
    CodeRunnerChunk::Error(CodeRunnerError::Docker {
        message: message.to_string(),
    })
}

fn cleanup() -> Action {
    Action::Cleanup {
        name: RUN_ID.to_string(),
    }
}

fn expected_build(files: Vec<ContextFile>) -> BuildRequest {
    BuildRequest {
        tag: RUN_ID.to_string(),
        labels: vec![
            ("tinirun".to_string(), "v0.1.0".to_string()),
            ("tinirun-exec".to_string(), RUN_ID.to_string()),
        ],
        build_args: vec![("TINIRUN_BUILD_ID".to_string(), RUN_ID.to_string())],
        files,
    }
}

fn base_context(code: &str) -> Vec<ContextFile> {
    vec![
        ContextFile {
            path: "Dockerfile".to_string(),
            content: b"FROM python:3.13-slim\n".to_vec(),
        },
        ContextFile {
            path: "main.py".to_string(),
            content: code.as_bytes().to_vec(),
        },
    ]
}

/// Drives a machine up to the state in which the container waits.
fn run_until_waiting(m: &mut DockerExecutor) {
    m.run(EngineEvent::Begin);
    m.run(EngineEvent::ImageInspected(Ok(())));
    m.run(EngineEvent::BuildProgress(Ok(BuildFrame {
        aux_id: Some("sha256:feed".to_string()),
        stream: None,
        error_message: None,
    })));
    m.run(EngineEvent::BuildFinished);
    m.run(EngineEvent::ContainerCreated(Ok(())));
    m.run(EngineEvent::ContainerAttached(Ok(())));
    m.run(EngineEvent::ContainerStarted(Ok(())));
    assert_eq!(m.phase, ExecPhase::Waiting);
}

#[test]
fn python_print_runs_to_a_result() {
    let mut m = machine(request("print(1+1)", 30));
    assert_eq!(m.phase, ExecPhase::Created);
    assert!(!m.is_done());

    let step = m.run(EngineEvent::Begin);
    assert_eq!(
        step,
        Step {
            events: vec![info("Checking base image 'python:3.13-slim'...")],
            action: Action::InspectImage {
                image: "python:3.13-slim".to_string()
            },
        }
    );

    let step = m.run(EngineEvent::ImageInspected(Ok(())));
    assert_eq!(
        step,
        Step {
            events: vec![
                info("Creating build context: Dockerfile, main.py..."),
                info(&format!("Building image '{RUN_ID}'...")),
            ],
            action: Action::BuildImage(expected_build(base_context("print(1+1)"))),
        }
    );

    let step = m.run(EngineEvent::BuildProgress(Ok(BuildFrame {
        aux_id: None,
        stream: Some("Step 1/5 : FROM python:3.13-slim".to_string()),
        error_message: None,
    })));
    assert_eq!(
        step,
        Step {
            events: vec![CodeRunnerChunk::Debug(
                "Step 1/5 : FROM python:3.13-slim".to_string()
            )],
            action: Action::NextFrame,
        }
    );
    let step = m.run(EngineEvent::BuildProgress(Ok(BuildFrame {
        aux_id: Some("sha256:feed".to_string()),
        stream: None,
        error_message: None,
    })));
    assert_eq!(
        step,
        Step {
            events: vec![],
            action: Action::NextFrame
        }
    );

    let step = m.run(EngineEvent::BuildFinished);
    let (body, options) = setup_container(RUN_ID, RUN_ID, "python main.py", false, 30, 256, 1000);
    assert_eq!(
        step,
        Step {
            events: vec![info(&format!(
                "Built image '{RUN_ID}' with ID sha256:feed"
            ))],
            action: Action::CreateContainer { body, options },
        }
    );

    let step = m.run(EngineEvent::ContainerCreated(Ok(())));
    assert_eq!(
        step,
        Step {
            events: vec![],
            action: Action::AttachContainer {
                name: RUN_ID.to_string(),
                options: AttachContainerOptions {
                    stream: true,
                    stdin: false,
                    stdout: true,
                    stderr: true,
                    logs: true,
                },
            },
        }
    );

    let step = m.run(EngineEvent::ContainerAttached(Ok(())));
    assert_eq!(
        step,
        Step {
            events: vec![info("Starting container with 'python main.py'...")],
            action: Action::StartContainer {
                name: RUN_ID.to_string()
            },
        }
    );

    let step = m.run(EngineEvent::ContainerStarted(Ok(())));
    assert_eq!(
        step,
        Step {
            events: vec![],
            action: Action::WaitContainer {
                name: RUN_ID.to_string(),
                timeout_secs: 30
            },
        }
    );

    let step = m.run(EngineEvent::WaitFinished(WaitOutcome::Exited {
        status_code: 0,
    }));
    assert_eq!(
        step,
        Step {
            events: vec![],
            action: Action::JoinOutput
        }
    );
    assert_eq!(
        m.phase,
        ExecPhase::Collecting {
            timeout: false,
            exit_code: Some(0)
        }
    );

    let step = m.run(EngineEvent::OutputCollected {
        stdout: "2\n".to_string(),
        stderr: String::new(),
    });
    assert_eq!(
        step,
        Step {
            events: vec![CodeRunnerChunk::Result {
                stdout: "2\n".to_string(),
                stderr: String::new(),
                exit_code: Some(0),
                timeout: false,
            }],
            action: cleanup(),
        }
    );
    assert!(m.is_done());
    assert_eq!(m.phase, ExecPhase::Done);
}

#[test]
fn sleeping_program_times_out() {
    let mut m = machine(request("import time;time.sleep(999)", 5));
    run_until_waiting(&mut m);
    let step = m.run(EngineEvent::WaitFinished(WaitOutcome::Elapsed));
    assert_eq!(step.action, Action::JoinOutput);
    assert_eq!(step.events, vec![]);
    let step = m.run(EngineEvent::OutputCollected {
        stdout: String::new(),
        stderr: String::new(),
    });
    assert_eq!(
        step.events,
        vec![CodeRunnerChunk::Result {
            stdout: String::new(),
            stderr: String::new(),
            exit_code: None,
            timeout: true,
        }]
    );
    assert_eq!(step.action, cleanup());
}

#[test]
fn wait_budget_is_the_request_timeout() {
    let mut m = machine(request("x", 5));
    m.run(EngineEvent::Begin);
    m.run(EngineEvent::ImageInspected(Ok(())));
    m.run(EngineEvent::BuildProgress(Ok(BuildFrame {
        aux_id: Some("id".to_string()),
        stream: None,
        error_message: None,
    })));
    m.run(EngineEvent::BuildFinished);
    m.run(EngineEvent::ContainerCreated(Ok(())));
    m.run(EngineEvent::ContainerAttached(Ok(())));
    let step = m.run(EngineEvent::ContainerStarted(Ok(())));
    assert_eq!(
        step.action,
        Action::WaitContainer {
            name: RUN_ID.to_string(),
            timeout_secs: 5
        }
    );
}

#[test]
fn failed_build_ends_with_build_error() {
    let mut m = DockerExecutor::new(
        RUN_ID.to_string(),
        "0.1.0",
        request("fn main(){ let x: u32 = -1; }", 30),
        "FROM rust\n".to_string(),
        python(),
    );
    m.run(EngineEvent::Begin);
    m.run(EngineEvent::ImageInspected(Ok(())));
    m.run(EngineEvent::BuildProgress(Ok(BuildFrame {
        aux_id: None,
        stream: Some("error[E0600]: cannot apply unary operator `-` to type `u32`\n".to_string()),
        error_message: None,
    })));
    m.run(EngineEvent::BuildProgress(Ok(BuildFrame {
        aux_id: None,
        stream: None,
        error_message: Some("The command returned a non-zero code: 101".to_string()),
    })));
    let step = m.run(EngineEvent::BuildFinished);
    assert_eq!(step.action, cleanup());
    assert_eq!(step.events.len(), 1);
    match &step.events[0] {
        CodeRunnerChunk::BuildError {
            message,
            build_logs,
        } => {
            assert_eq!(message, &format!("Failed to build image '{RUN_ID}'"));
            assert!(build_logs.contains("error[E0600]"));
            assert_eq!(
                build_logs,
                "error[E0600]: cannot apply unary operator `-` to type `u32`\n\nError during build: The command returned a non-zero code: 101"
            );
        }
        other => panic!("expected a build error, got {other:?}"),
    }
    assert!(m.is_done());
}

#[test]
fn absent_base_image_is_pulled_first() {
    let mut m = machine(request("print(1)", 30));
    m.run(EngineEvent::Begin);
    let step = m.run(EngineEvent::ImageInspected(Err(not_found())));
    assert_eq!(
        step,
        Step {
            events: vec![info("Pulling base image 'python:3.13-slim'...")],
            action: Action::PullImage {
                image: "python:3.13-slim".to_string()
            },
        }
    );
    let step = m.run(EngineEvent::PullProgress(PullFrame {
        status: Some("Downloading".to_string()),
        current: Some(10),
        total: Some(100),
        error_detail: None,
    }));
    assert_eq!(
        step,
        Step {
            events: vec![CodeRunnerChunk::Debug(
                "Pulling image: Downloading 10/100".to_string()
            )],
            action: Action::NextFrame,
        }
    );
    let step = m.run(EngineEvent::PullFinished(Ok(())));
    assert_eq!(step.events.len(), 2);
    assert!(matches!(step.action, Action::BuildImage(_)));
    assert_eq!(m.phase, ExecPhase::Building);
}

#[test]
fn engine_failures_end_the_stream_with_an_error() {
    // Inspecting the image fails.
    let mut m = machine(request("x", 30));
    m.run(EngineEvent::Begin);
    let step = m.run(EngineEvent::ImageInspected(Err(failure("connection refused"))));
    assert_eq!(
        step,
        Step {
            events: vec![docker_error(
                "Unexpected error when checking image: connection refused"
            )],
            action: cleanup(),
        }
    );

    // The pull breaks.
    let mut m = machine(request("x", 30));
    m.run(EngineEvent::Begin);
    m.run(EngineEvent::ImageInspected(Err(not_found())));
    let step = m.run(EngineEvent::PullFinished(Err(failure("timeout"))));
    assert_eq!(
        step,
        Step {
            events: vec![docker_error("Error pulling image: timeout")],
            action: cleanup(),
        }
    );

    // Creating the container fails.
    let mut m = machine(request("x", 30));
    m.run(EngineEvent::Begin);
    m.run(EngineEvent::ImageInspected(Ok(())));
    m.run(EngineEvent::BuildProgress(Ok(BuildFrame {
        aux_id: Some("id".to_string()),
        stream: None,
        error_message: None,
    })));
    m.run(EngineEvent::BuildFinished);
    let step = m.run(EngineEvent::ContainerCreated(Err(failure("conflict"))));
    assert_eq!(
        step,
        Step {
            events: vec![docker_error(&format!(
                "Failed to create container '{RUN_ID}': conflict"
            ))],
            action: cleanup(),
        }
    );

    // Attaching fails.
    let mut m = machine(request("x", 30));
    m.run(EngineEvent::Begin);
    m.run(EngineEvent::ImageInspected(Ok(())));
    m.run(EngineEvent::BuildProgress(Ok(BuildFrame {
        aux_id: Some("id".to_string()),
        stream: None,
        error_message: None,
    })));
    m.run(EngineEvent::BuildFinished);
    m.run(EngineEvent::ContainerCreated(Ok(())));
    let step = m.run(EngineEvent::ContainerAttached(Err(failure("gone"))));
    assert_eq!(
        step,
        Step {
            events: vec![docker_error("Failed to attach to container: gone")],
            action: cleanup(),
        }
    );

    // Starting fails.
    let mut m = machine(request("x", 30));
    m.run(EngineEvent::Begin);
    m.run(EngineEvent::ImageInspected(Ok(())));
    m.run(EngineEvent::BuildProgress(Ok(BuildFrame {
        aux_id: Some("id".to_string()),
        stream: None,
        error_message: None,
    })));
    m.run(EngineEvent::BuildFinished);
    m.run(EngineEvent::ContainerCreated(Ok(())));
    m.run(EngineEvent::ContainerAttached(Ok(())));
    let step = m.run(EngineEvent::ContainerStarted(Err(failure("oci runtime"))));
    assert_eq!(
        step,
        Step {
            events: vec![docker_error(&format!(
                "Failed to start container '{RUN_ID}': oci runtime"
            ))],
            action: cleanup(),
        }
    );
}

#[test]
fn attached_files_are_placed_under_files() {
    let mut input = request("print(open('files/data/in.txt').read())", 30);
    input.files = Some(vec![
        CodeRunnerFile {
            path: "data/in.txt".to_string(),
            content: b"hello".to_vec(),
        },
        CodeRunnerFile {
            path: "b.bin".to_string(),
            content: vec![0, 1, 2],
        },
    ]);
    let code = input.code.clone();
    let mut m = machine(input);
    m.run(EngineEvent::Begin);
    let step = m.run(EngineEvent::ImageInspected(Ok(())));
    let mut files = base_context(&code);
    files.push(ContextFile {
        path: "files/data/in.txt".to_string(),
        content: b"hello".to_vec(),
    });
    files.push(ContextFile {
        path: "files/b.bin".to_string(),
        content: vec![0, 1, 2],
    });
    assert_eq!(
        step.events[0],
        info("Creating build context: Dockerfile, main.py..., files/data/in.txt, files/b.bin")
    );
    assert_eq!(step.action, Action::BuildImage(expected_build(files)));
    match step.action {
        Action::BuildImage(build) => {
            assert_eq!(build.files[2].size(), 5);
            assert_eq!(build.files[3].size(), 3);
        }
        _ => unreachable!(),
    }
}

#[test]
fn wait_error_with_code_is_the_exit_code() {
    let mut m = machine(request("x", 30));
    run_until_waiting(&mut m);
    m.run(EngineEvent::WaitFinished(WaitOutcome::Failed(DockerError {
        kind: DockerErrorKind::ContainerWaitError { code: 124 },
        text: "Docker container wait error".to_string(),
    })));
    let step = m.run(EngineEvent::OutputCollected {
        stdout: "partial\n".to_string(),
        stderr: "Terminated\n".to_string(),
    });
    assert_eq!(
        step.events,
        vec![CodeRunnerChunk::Result {
            stdout: "partial\n".to_string(),
            stderr: "Terminated\n".to_string(),
            exit_code: Some(124),
            timeout: false,
        }]
    );
}

#[test]
fn unexpected_event_ends_the_run() {
    let mut m = machine(request("x", 30));
    let step = m.run(EngineEvent::BuildFinished);
    assert_eq!(
        step,
        Step {
            events: vec![docker_error("Unexpected engine event")],
            action: cleanup(),
        }
    );
    assert!(m.is_done());
}

#[test]
fn finished_run_sends_nothing_more() {
    let mut m = machine(request("x", 30));
    m.run(EngineEvent::Begin);
    m.run(EngineEvent::ImageInspected(Err(failure("down"))));
    assert!(m.is_done());
    for event in [
        EngineEvent::Begin,
        EngineEvent::BuildFinished,
        EngineEvent::WaitFinished(WaitOutcome::Elapsed),
    ] {
        let step = m.run(event);
        assert_eq!(
            step,
            Step {
                events: vec![],
                action: Action::Stop
            }
        );
    }
}

#[test]
fn every_complete_stream_has_exactly_one_terminal_event_and_it_is_last() {
    let endings: Vec<Vec<EngineEvent>> = vec![
        vec![
            EngineEvent::Begin,
            EngineEvent::ImageInspected(Err(failure("x"))),
        ],
        vec![
            EngineEvent::Begin,
            EngineEvent::ImageInspected(Ok(())),
            EngineEvent::BuildProgress(Err(failure("frame"))),
            EngineEvent::BuildFinished,
        ],
        vec![
            EngineEvent::Begin,
            EngineEvent::ImageInspected(Err(not_found())),
            EngineEvent::PullProgress(PullFrame {
                status: None,
                current: Some(1),
                total: Some(2),
                error_detail: Some("e".to_string()),
            }),
            EngineEvent::PullFinished(Ok(())),
            EngineEvent::BuildProgress(Ok(BuildFrame {
                aux_id: Some("id".to_string()),
                stream: Some("s".to_string()),
                error_message: None,
            })),
            EngineEvent::BuildFinished,
            EngineEvent::ContainerCreated(Ok(())),
            EngineEvent::ContainerAttached(Ok(())),
            EngineEvent::ContainerStarted(Ok(())),
            EngineEvent::WaitFinished(WaitOutcome::Closed),
            EngineEvent::OutputCollected {
                stdout: String::new(),
                stderr: String::new(),
            },
        ],
    ];
    for events in endings {
        let mut m = machine(request("x", 30));
        let mut stream: Vec<CodeRunnerChunk> = Vec::new();
        let mut last_action = Action::Stop;
        for event in events {
            let step = m.run(event);
            stream.extend(step.events);
            last_action = step.action;
        }
        assert!(m.is_done());
        assert_eq!(last_action, cleanup());
        let terminals = stream.iter().filter(|c| c.is_terminal()).count();
        assert_eq!(terminals, 1);
        assert!(stream.last().unwrap().is_terminal());
    }
}
