use tinirun::engine::{BuildFrame, DockerError, DockerErrorKind, PullFrame, WaitOutcome};
use tinirun::functions::{BuildPhase, FunctionBuild, FunctionExecutor, FunctionRun, RunPhase};
use tinirun::models::{
    CodeRunnerChunk, CodeRunnerError, CodeRunnerLanguage, LanguageData, RunFunctionInput,
};
use tinirun::pipeline::{
    Action, AttachContainerOptions, BuildRequest, ContextFile, EngineEvent, Step,
};
use tinirun::sandbox::setup_container;
use tinirun::store::{FunctionDetail, FunctionStatus, Timestamp};

const RUN: &str = "code-runner-00000000-0000-4000-8000-000000000000";

fn node() -> LanguageData {
    LanguageData {
        image: "node:22-alpine".to_string(),
        command: "node main.js".to_string(),
        template: "javascript".to_string(),
        main_file: "main.js".to_string(),
        fn_file: "function.js".to_string(),
    }
}

fn record(version: u32) -> FunctionDetail {
    FunctionDetail {
        code: "export function run(x) { return x }".to_string(),
        lang: CodeRunnerLanguage::JavaScript,
        description: None,
        dependencies: None,
        status: FunctionStatus::Building,
        created_at: Timestamp { secs: 1, nanos: 0 },
        updated_at: Timestamp { secs: 2, nanos: 0 },
        version,
    }
}

fn build_machine() -> FunctionBuild {
    FunctionExecutor::build_fn(
        "foo",
        record(3),
        node(),
        "FROM node:22-alpine\n".to_string(),
        "import { run } from './function.js'".to_string(),
        "1.2.0",
    )
}

fn run_machine() -> FunctionRun {
    FunctionExecutor::run_function(
        RUN,
        "foo",
        RunFunctionInput {
            input: "{\"n\": 1}".to_string(),
            timeout: 10,
            mem_limit_mb: 128,
            cpu_limit_millis: 500,
        },
        node(),
    )
}

fn info(s: &str) -> CodeRunnerChunk {
    CodeRunnerChunk::Info(s.to_string())
}

fn failure(text: &str) -> DockerError {
    DockerError {
        kind: DockerErrorKind::Other,
        text: text.to_string(),
    }
}

fn not_found() -> DockerError {
    DockerError {
        kind: DockerErrorKind::ResponseServerError { status_code: 404 },
        text: "No such image".to_string(),
    }
}

#[test]
fn function_tag_is_latest() {
    assert_eq!(FunctionExecutor::fn_tag("foo"), "code-runner-fn-foo:latest");
    assert_eq!(FunctionExecutor::fn_tag(""), "code-runner-fn-:latest");
}

#[test]
fn function_build_succeeds_with_ready_status() {
    let mut m = build_machine();
    assert_eq!(m.phase, BuildPhase::Created);
    let step = m.step(EngineEvent::Begin);
    assert_eq!(
        step,
        Step {
            events: vec![info("Checking base image 'node:22-alpine'...")],
            action: Action::InspectImage {
                image: "node:22-alpine".to_string()
            },
        }
    );
    let step = m.step(EngineEvent::ImageInspected(Ok(())));
    assert_eq!(
        step,
        Step {
            events: vec![
                info("Creating build context: \"Dockerfile\" \"main.js\" \"function.js\""),
                info("Building image 'code-runner-fn-foo:latest'..."),
            ],
            action: Action::BuildImage(BuildRequest {
                tag: "code-runner-fn-foo:latest".to_string(),
                labels: vec![
                    ("tinirun".to_string(), "v1.2.0".to_string()),
                    ("tinirun-fn".to_string(), "foo".to_string()),
                ],
                build_args: vec![("TINIRUN_BUILD_ID".to_string(), "foo-v3".to_string())],
                files: vec![
                    ContextFile {
                        path: "Dockerfile".to_string(),
                        content: b"FROM node:22-alpine\n".to_vec(),
                    },
                    ContextFile {
                        path: "main.js".to_string(),
                        content: b"import { run } from './function.js'".to_vec(),
                    },
                    ContextFile {
                        path: "function.js".to_string(),
                        content: b"export function run(x) { return x }".to_vec(),
                    },
                ],
            }),
        }
    );
    let step = m.step(EngineEvent::BuildProgress(Ok(BuildFrame {
        aux_id: Some("sha256:X".to_string()),
        stream: Some("done".to_string()),
        error_message: None,
    })));
    assert_eq!(
        step,
        Step {
            events: vec![CodeRunnerChunk::Debug("done".to_string())],
            action: Action::NextFrame,
        }
    );
    assert!(!m.is_over());
    let step = m.step(EngineEvent::BuildFinished);
    assert_eq!(
        step,
        Step {
            events: vec![
                info("Built image 'code-runner-fn-foo:latest' with ID sha256:X"),
                CodeRunnerChunk::Result {
                    stdout: String::new(),
                    stderr: String::new(),
                    exit_code: Some(0),
                    timeout: false,
                },
            ],
            action: Action::SetFunctionStatus {
                name: "foo".to_string(),
                status: FunctionStatus::Ready {
                    tag: "code-runner-fn-foo:latest".to_string(),
                    id: "sha256:X".to_string(),
                },
            },
        }
    );
    assert_eq!(m.phase, BuildPhase::Ready);
    assert!(m.is_over());
    assert_eq!(
        m.step(EngineEvent::Begin),
        Step {
            events: vec![],
            action: Action::Stop
        }
    );
}

#[test]
fn function_build_failure_becomes_error_status() {
    let mut m = build_machine();
    m.step(EngineEvent::Begin);
    m.step(EngineEvent::ImageInspected(Ok(())));
    m.step(EngineEvent::BuildProgress(Ok(BuildFrame {
        aux_id: None,
        stream: Some("npm ERR!".to_string()),
        error_message: None,
    })));
    let step = m.step(EngineEvent::BuildFinished);
    let err = CodeRunnerError::BuildFailed {
        message: "Failed to build image 'code-runner-fn-foo:latest'".to_string(),
        logs: "npm ERR!".to_string(),
    };
    assert_eq!(
        step,
        Step {
            events: vec![CodeRunnerChunk::Error(err.clone())],
            action: Action::SetFunctionStatus {
                name: "foo".to_string(),
                status: FunctionStatus::Error(err),
            },
        }
    );
    assert_eq!(m.phase, BuildPhase::Failed);
}

#[test]
fn function_build_pulls_absent_base_image() {
    let mut m = build_machine();
    m.step(EngineEvent::Begin);
    let step = m.step(EngineEvent::ImageInspected(Err(not_found())));
    assert_eq!(
        step,
        Step {
            events: vec![info("Pulling base image 'node:22-alpine'...")],
            action: Action::PullImage {
                image: "node:22-alpine".to_string()
            },
        }
    );
    let step = m.step(EngineEvent::PullProgress(PullFrame {
        status: Some("Pull complete".to_string()),
        current: None,
        total: None,
        error_detail: None,
    }));
    assert_eq!(
        step,
        Step {
            events: vec![],
            action: Action::NextFrame
        }
    );
    let step = m.step(EngineEvent::PullFinished(Err(failure("network down"))));
    let err = CodeRunnerError::Docker {
        message: "Error while checking/pulling base image: network down".to_string(),
    };
    assert_eq!(
        step,
        Step {
            events: vec![CodeRunnerChunk::Error(err.clone())],
            action: Action::SetFunctionStatus {
                name: "foo".to_string(),
                status: FunctionStatus::Error(err),
            },
        }
    );
}

#[test]
fn function_build_fails_when_image_check_fails() {
    let mut m = build_machine();
    m.step(EngineEvent::Begin);
    let step = m.step(EngineEvent::ImageInspected(Err(failure("socket"))));
    let err = CodeRunnerError::Docker {
        message: "Error while checking/pulling base image: socket".to_string(),
    };
    assert_eq!(step.events, vec![CodeRunnerChunk::Error(err)]);
    assert!(m.is_over());
}

#[test]
fn function_run_writes_input_before_waiting() {
    let mut m = run_machine();
    assert_eq!(m.phase, RunPhase::Created);
    let step = m.step(EngineEvent::Begin);
    assert_eq!(
        step,
        Step {
            events: vec![],
            action: Action::InspectImage {
                image: "code-runner-fn-foo:latest".to_string()
            },
        }
    );
    let step = m.step(EngineEvent::ImageInspected(Ok(())));
    let (body, options) = setup_container(
        RUN,
        "code-runner-fn-foo:latest",
        "node main.js",
        true,
        10,
        128,
        500,
    );
    assert!(body.open_stdin);
    assert_eq!(
        step,
        Step {
            events: vec![],
            action: Action::CreateContainer { body, options },
        }
    );
    let step = m.step(EngineEvent::ContainerCreated(Ok(())));
    assert_eq!(
        step,
        Step {
            events: vec![],
            action: Action::AttachContainer {
                name: RUN.to_string(),
                options: AttachContainerOptions {
                    stream: true,
                    stdin: true,
                    stdout: true,
                    stderr: true,
                    logs: true,
                },
            },
        }
    );
    let step = m.step(EngineEvent::ContainerAttached(Ok(())));
    assert_eq!(
        step,
        Step {
            events: vec![info("Starting container with 'node main.js'...")],
            action: Action::StartContainer {
                name: RUN.to_string()
            },
        }
    );
    let step = m.step(EngineEvent::ContainerStarted(Ok(())));
    assert_eq!(
        step,
        Step {
            events: vec![info("Writing input to container")],
            action: Action::WriteInput {
                payload: "{\"n\": 1}".to_string()
            },
        }
    );
    let step = m.step(EngineEvent::InputWritten {
        write_error: None,
        shutdown_error: None,
    });
    assert_eq!(
        step,
        Step {
            events: vec![],
            action: Action::WaitContainer {
                name: RUN.to_string(),
                timeout_secs: 10
            },
        }
    );
    let step = m.step(EngineEvent::WaitFinished(WaitOutcome::Exited {
        status_code: 3,
    }));
    assert_eq!(step.action, Action::JoinOutput);
    let step = m.step(EngineEvent::OutputCollected {
        stdout: "out\n".to_string(),
        stderr: "err\n".to_string(),
    });
    assert_eq!(
        step,
        Step {
            events: vec![CodeRunnerChunk::Result {
                stdout: "out\n".to_string(),
                stderr: "err\n".to_string(),
                exit_code: Some(3),
                timeout: false,
            }],
            action: Action::Cleanup {
                name: RUN.to_string()
            },
        }
    );
    assert!(m.is_done());
}

#[test]
fn function_run_notes_input_failures_and_goes_on() {
    let mut m = run_machine();
    m.step(EngineEvent::Begin);
    m.step(EngineEvent::ImageInspected(Ok(())));
    m.step(EngineEvent::ContainerCreated(Ok(())));
    m.step(EngineEvent::ContainerAttached(Ok(())));
    m.step(EngineEvent::ContainerStarted(Ok(())));
    let step = m.step(EngineEvent::InputWritten {
        write_error: Some("broken pipe".to_string()),
        shutdown_error: Some("not connected".to_string()),
    });
    assert_eq!(
        step.events,
        vec![
            info("Failed to write input: broken pipe"),
            info("Failed to flush input: not connected"),
        ]
    );
    assert!(matches!(step.action, Action::WaitContainer { .. }));
    assert_eq!(m.phase, RunPhase::Waiting);

    let mut m = run_machine();
    m.step(EngineEvent::Begin);
    m.step(EngineEvent::ImageInspected(Ok(())));
    m.step(EngineEvent::ContainerCreated(Ok(())));
    m.step(EngineEvent::ContainerAttached(Ok(())));
    m.step(EngineEvent::ContainerStarted(Ok(())));
    let step = m.step(EngineEvent::InputWritten {
        write_error: None,
        shutdown_error: Some("closed".to_string()),
    });
    assert_eq!(step.events, vec![info("Failed to flush input: closed")]);
}

#[test]
fn function_run_without_image_reports_image_not_found() {
    let mut m = run_machine();
    m.step(EngineEvent::Begin);
    let step = m.step(EngineEvent::ImageInspected(Err(not_found())));
    assert_eq!(
        step,
        Step {
            events: vec![CodeRunnerChunk::Error(
                CodeRunnerError::FunctionImageNotFound {
                    message: "Image missing for 'foo'. Please rebuild the function.".to_string(),
                    image_tag: "code-runner-fn-foo:latest".to_string(),
                }
            )],
            action: Action::Cleanup {
                name: RUN.to_string()
            },
        }
    );
    assert!(m.is_done());
    assert_eq!(
        m.step(EngineEvent::Begin),
        Step {
            events: vec![],
            action: Action::Stop
        }
    );
}

#[test]
fn function_run_engine_failures_carry_the_engine_text() {
    let mut m = run_machine();
    m.step(EngineEvent::Begin);
    let step = m.step(EngineEvent::ImageInspected(Err(failure("daemon unreachable"))));
    assert_eq!(
        step.events,
        vec![CodeRunnerChunk::Error(CodeRunnerError::Docker {
            message: "daemon unreachable".to_string()
        })]
    );

    let mut m = run_machine();
    m.step(EngineEvent::Begin);
    m.step(EngineEvent::ImageInspected(Ok(())));
    let step = m.step(EngineEvent::ContainerCreated(Err(failure("name in use"))));
    assert_eq!(
        step.events,
        vec![CodeRunnerChunk::Error(CodeRunnerError::Docker {
            message: "name in use".to_string()
        })]
    );

    let mut m = run_machine();
    m.step(EngineEvent::Begin);
    m.step(EngineEvent::ImageInspected(Ok(())));
    m.step(EngineEvent::ContainerCreated(Ok(())));
    m.step(EngineEvent::ContainerAttached(Ok(())));
    let step = m.step(EngineEvent::ContainerStarted(Err(failure("cannot start"))));
    assert_eq!(
        step,
        Step {
            events: vec![CodeRunnerChunk::Error(CodeRunnerError::Docker {
                message: "cannot start".to_string()
            })],
            action: Action::Cleanup {
                name: RUN.to_string()
            },
        }
    );
}

#[test]
fn function_run_times_out() {
    let mut m = run_machine();
    m.step(EngineEvent::Begin);
    m.step(EngineEvent::ImageInspected(Ok(())));
    m.step(EngineEvent::ContainerCreated(Ok(())));
    m.step(EngineEvent::ContainerAttached(Ok(())));
    m.step(EngineEvent::ContainerStarted(Ok(())));
    m.step(EngineEvent::InputWritten {
        write_error: None,
        shutdown_error: None,
    });
    m.step(EngineEvent::WaitFinished(WaitOutcome::Elapsed));
    let step = m.step(EngineEvent::OutputCollected {
        stdout: String::new(),
        stderr: String::new(),
    });
    assert_eq!(
        step.events,
        vec![CodeRunnerChunk::Result {
            stdout: String::new(),
            stderr: String::new(),
            exit_code: None,
            timeout: true,
        }]
    );
}

#[test]
fn function_build_context_message_quotes_paths() {
    let mut lang = node();
    lang.main_file = "my \"main\".js".to_string();
    let mut m = FunctionExecutor::build_fn(
        "bar",
        record(0),
        lang,
        String::new(),
        String::new(),
        "0.0.1",
    );
    m.step(EngineEvent::Begin);
    let step = m.step(EngineEvent::ImageInspected(Ok(())));
    assert_eq!(
        step.events[0],
        info("Creating build context: \"Dockerfile\" \"my \\\"main\\\".js\" \"function.js\"")
    );
    match step.action {
        Action::BuildImage(b) => {
            assert_eq!(
                b.build_args,
                vec![("TINIRUN_BUILD_ID".to_string(), "bar-v0".to_string())]
            );
        }
        _ => unreachable!(),
    }
}

#[test]
fn every_build_stream_has_exactly_one_terminal_event_and_it_is_last() {
    let runs: Vec<Vec<EngineEvent>> = vec![
        vec![
            EngineEvent::Begin,
            EngineEvent::ImageInspected(Ok(())),
            EngineEvent::BuildProgress(Ok(BuildFrame {
                aux_id: Some("id".to_string()),
                stream: Some("ok".to_string()),
                error_message: None,
            })),
            EngineEvent::BuildFinished,
        ],
        vec![
            EngineEvent::Begin,
            EngineEvent::ImageInspected(Ok(())),
            EngineEvent::BuildFinished,
        ],
        vec![
            EngineEvent::Begin,
            EngineEvent::ImageInspected(Err(failure("down"))),
        ],
        vec![EngineEvent::BuildFinished],
    ];
    for events in runs {
        let mut m = build_machine();
        let mut stream: Vec<CodeRunnerChunk> = Vec::new();
        for event in events {
            stream.extend(m.step(event).events);
        }
        assert!(m.is_over());
        assert_eq!(stream.iter().filter(|c| c.is_terminal()).count(), 1);
        assert!(stream.last().unwrap().is_terminal());
    }
}
