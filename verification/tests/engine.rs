use tinirun::engine::{
    attach_task, exists_image, output_budget_secs, process_build_stream, process_exit_status,
    process_pull_frame, process_pull_stream, BuildFrame, BuildProgress, DockerError,
    DockerErrorKind, LogOutput, OutputCapture, PullFrame, WaitOutcome, MAX_OUTPUT_BYTES,
};
use tinirun::models::CodeRunnerChunk;

fn server_error(status_code: u16, text: &str) -> DockerError {
    DockerError {
        kind: DockerErrorKind::ResponseServerError { status_code },
        text: text.to_string(),
    }
}

fn other_error(text: &str) -> DockerError {
    DockerError {
        kind: DockerErrorKind::Other,
        text: text.to_string(),
    }
}

#[test]
fn image_exists_on_success_and_is_absent_on_not_found() {
    assert_eq!(exists_image(Ok(())), Ok(true));
    assert_eq!(exists_image(Err(server_error(404, "no such image"))), Ok(false));
    assert_eq!(
        exists_image(Err(server_error(500, "boom"))),
        Err(server_error(500, "boom"))
    );
    assert_eq!(
        exists_image(Err(other_error("connection refused"))),
        Err(other_error("connection refused"))
    );
    let wait = DockerError {
        kind: DockerErrorKind::ContainerWaitError { code: 404 },
        text: "wait".to_string(),
    };
    assert_eq!(exists_image(Err(wait.clone())), Err(wait));
}

#[test]
fn pull_frame_with_progress_becomes_debug_line() {
    let frame = PullFrame {
        status: Some("Downloading".to_string()),
        current: Some(512),
        total: Some(2048),
        error_detail: None,
    };
    assert_eq!(
        process_pull_frame(&frame),
        vec![CodeRunnerChunk::Debug(
            "Pulling image: Downloading 512/2048".to_string()
        )]
    );
}

#[test]
fn pull_frame_without_both_counts_is_silent() {
    let frame = PullFrame {
        status: Some("Waiting".to_string()),
        current: Some(1),
        total: None,
        error_detail: None,
    };
    assert_eq!(process_pull_frame(&frame), vec![]);
    let frame = PullFrame {
        status: None,
        current: None,
        total: Some(5),
        error_detail: None,
    };
    assert_eq!(process_pull_frame(&frame), vec![]);
}

#[test]
fn pull_frame_error_becomes_info_line_after_progress() {
    let frame = PullFrame {
        status: None,
        current: Some(-1),
        total: Some(0),
        error_detail: Some("ErrorDetail { code: Some(1), message: None }".to_string()),
    };
    assert_eq!(
        process_pull_frame(&frame),
        vec![
            CodeRunnerChunk::Debug("Pulling image:  -1/0".to_string()),
            CodeRunnerChunk::Info(
                "Error while pulling image: ErrorDetail { code: Some(1), message: None }"
                    .to_string()
            ),
        ]
    );
}

#[test]
fn pull_stream_fails_only_on_transport_failure() {
    let ok_frame = PullFrame {
        status: Some("Extracting".to_string()),
        current: Some(1),
        total: Some(2),
        error_detail: None,
    };
    let error_frame = PullFrame {
        status: None,
        current: None,
        total: None,
        error_detail: Some("denied".to_string()),
    };
    let (result, events) = process_pull_stream(&vec![Ok(ok_frame.clone()), Ok(error_frame.clone())]);
    assert_eq!(result, Ok(()));
    assert_eq!(
        events,
        vec![
            CodeRunnerChunk::Debug("Pulling image: Extracting 1/2".to_string()),
            CodeRunnerChunk::Info("Error while pulling image: denied".to_string()),
        ]
    );
    let (result, events) = process_pull_stream(&vec![
        Ok(ok_frame.clone()),
        Err(other_error("connection reset")),
        Ok(ok_frame),
    ]);
    assert_eq!(result, Err(other_error("connection reset")));
    assert_eq!(
        events,
        vec![CodeRunnerChunk::Debug(
            "Pulling image: Extracting 1/2".to_string()
        )]
    );
    let (result, events) = process_pull_stream(&vec![]);
    assert_eq!(result, Ok(()));
    assert_eq!(events, vec![]);
}

#[test]
fn build_stream_collects_logs_and_image_id() {
    let items = vec![
        Ok(BuildFrame {
            aux_id: None,
            stream: Some("Step 1/3 : FROM python\n".to_string()),
            error_message: None,
        }),
        Ok(BuildFrame {
            aux_id: Some("sha256:abc".to_string()),
            stream: None,
            error_message: None,
        }),
        Ok(BuildFrame {
            aux_id: None,
            stream: Some("Successfully built\n".to_string()),
            error_message: None,
        }),
    ];
    let (progress, events) = process_build_stream(&items);
    assert_eq!(progress.image_id, Some("sha256:abc".to_string()));
    assert_eq!(
        progress.build_logs,
        "Step 1/3 : FROM python\nSuccessfully built\n"
    );
    assert_eq!(
        events,
        vec![
            CodeRunnerChunk::Debug("Step 1/3 : FROM python\n".to_string()),
            CodeRunnerChunk::Debug("Successfully built\n".to_string()),
        ]
    );
}

#[test]
fn build_stream_without_aux_frame_has_no_image_id() {
    let items = vec![
        Ok(BuildFrame {
            aux_id: None,
            stream: Some("compiling".to_string()),
            error_message: Some("error[E0600]: cannot apply unary operator".to_string()),
        }),
        Err(other_error("stream closed")),
    ];
    let (progress, events) = process_build_stream(&items);
    assert_eq!(progress.image_id, None);
    assert_eq!(
        progress.build_logs,
        "compiling\nError during build: error[E0600]: cannot apply unary operator\nError during build: stream closed"
    );
    assert_eq!(
        events,
        vec![
            CodeRunnerChunk::Debug("compiling".to_string()),
            CodeRunnerChunk::Info(
                "Error during build: error[E0600]: cannot apply unary operator".to_string()
            ),
            CodeRunnerChunk::Info("Error during build: stream closed".to_string()),
        ]
    );
}

#[test]
fn later_aux_frame_replaces_image_id() {
    let mut progress = BuildProgress::new();
    assert_eq!(progress.image_id, None);
    assert_eq!(progress.build_logs, "");
    let first = Ok(BuildFrame {
        aux_id: Some("one".to_string()),
        stream: None,
        error_message: None,
    });
    let second = Ok(BuildFrame {
        aux_id: Some("two".to_string()),
        stream: None,
        error_message: None,
    });
    assert_eq!(progress.absorb(&first), vec![]);
    assert_eq!(progress.image_id, Some("one".to_string()));
    assert_eq!(progress.absorb(&second), vec![]);
    assert_eq!(progress.image_id, Some("two".to_string()));
    let empty = Ok(BuildFrame {
        aux_id: None,
        stream: None,
        error_message: None,
    });
    assert_eq!(progress.absorb(&empty), vec![]);
    assert_eq!(progress.image_id, Some("two".to_string()));
}

#[test]
fn output_frames_are_forwarded_and_accumulated() {
    let mut capture = OutputCapture::new();
    let out = Ok(LogOutput::StdOut {
        message: b"2".to_vec(),
    });
    let err = Ok(LogOutput::StdErr {
        message: b"warning".to_vec(),
    });
    assert_eq!(
        capture.absorb(&out),
        Some(CodeRunnerChunk::Stdout("2".to_string()))
    );
    assert_eq!(
        capture.absorb(&err),
        Some(CodeRunnerChunk::Stderr("warning".to_string()))
    );
    assert_eq!(
        capture.absorb(&Ok(LogOutput::StdIn {
            message: b"x".to_vec()
        })),
        None
    );
    assert_eq!(
        capture.absorb(&Ok(LogOutput::Console {
            message: b"x".to_vec()
        })),
        None
    );
    assert_eq!(
        capture.absorb(&Err(other_error("bad frame"))),
        Some(CodeRunnerChunk::Info(
            "Error while processing output: bad frame".to_string()
        ))
    );
    assert_eq!(capture.finish(), ("2\n".to_string(), "warning\n".to_string()));
}

#[test]
fn output_is_decoded_lossily() {
    let mut capture = OutputCapture::new();
    let frame = Ok(LogOutput::StdOut {
        message: vec![b'a', 0xff, b'b'],
    });
    assert_eq!(
        capture.absorb(&frame),
        Some(CodeRunnerChunk::Stdout("a\u{fffd}b".to_string()))
    );
    let frame = Ok(LogOutput::StdErr {
        message: "grüß".as_bytes().to_vec(),
    });
    assert_eq!(
        capture.absorb(&frame),
        Some(CodeRunnerChunk::Stderr("grüß".to_string()))
    );
    assert_eq!(capture.stdout, "a\u{fffd}b\n");
    assert_eq!(capture.stderr, "grüß\n");
}

#[test]
fn accumulator_is_capped_at_one_mebibyte_but_frames_are_still_forwarded() {
    assert_eq!(MAX_OUTPUT_BYTES, 1024 * 1024);
    let mut capture = OutputCapture::new();
    let big = vec![b'x'; MAX_OUTPUT_BYTES - 4];
    capture.absorb(&Ok(LogOutput::StdOut { message: big }));
    assert_eq!(capture.stdout.len(), MAX_OUTPUT_BYTES - 3);
    assert!(!capture.stdout_full);
    // Three bytes are left: the line is cut to fit, and the frame is
    // forwarded whole.
    let event = capture.absorb(&Ok(LogOutput::StdOut {
        message: b"tail".to_vec(),
    }));
    assert_eq!(event, Some(CodeRunnerChunk::Stdout("tail".to_string())));
    assert_eq!(capture.stdout.len(), MAX_OUTPUT_BYTES);
    assert!(capture.stdout.ends_with("x\ntai"));
    assert!(capture.stdout_full);
    // A full accumulator takes nothing more.
    let event = capture.absorb(&Ok(LogOutput::StdOut {
        message: b"dropped".to_vec(),
    }));
    assert_eq!(event, Some(CodeRunnerChunk::Stdout("dropped".to_string())));
    assert_eq!(capture.stdout.len(), MAX_OUTPUT_BYTES);
    assert!(capture.stdout.ends_with("x\ntai"));
    // The other accumulator is independent.
    capture.absorb(&Ok(LogOutput::StdErr {
        message: b"e".to_vec(),
    }));
    assert_eq!(capture.stderr, "e\n");
    assert!(!capture.stderr_full);
}

#[test]
fn accumulator_is_cut_at_a_character_boundary_and_stays_a_prefix() {
    let mut capture = OutputCapture::new();
    capture.absorb(&Ok(LogOutput::StdErr {
        message: vec![b'y'; MAX_OUTPUT_BYTES - 3],
    }));
    assert_eq!(capture.stderr.len(), MAX_OUTPUT_BYTES - 2);
    // A three-byte character does not fit into the two bytes that are left.
    capture.absorb(&Ok(LogOutput::StdErr {
        message: "\u{20ac}uro".as_bytes().to_vec(),
    }));
    assert_eq!(capture.stderr.len(), MAX_OUTPUT_BYTES - 2);
    assert!(capture.stderr_full);
    // Later frames would fit, but the accumulator stays a prefix of the
    // lines.
    capture.absorb(&Ok(LogOutput::StdErr {
        message: b"a".to_vec(),
    }));
    assert_eq!(capture.stderr.len(), MAX_OUTPUT_BYTES - 2);
    assert!(capture.stderr.ends_with("y\n"));

    // An exact fit leaves the accumulator open but without room.
    let mut capture = OutputCapture::new();
    capture.absorb(&Ok(LogOutput::StdOut {
        message: vec![b'z'; MAX_OUTPUT_BYTES - 1],
    }));
    assert_eq!(capture.stdout.len(), MAX_OUTPUT_BYTES);
    assert!(!capture.stdout_full);
    capture.absorb(&Ok(LogOutput::StdOut {
        message: Vec::new(),
    }));
    assert_eq!(capture.stdout.len(), MAX_OUTPUT_BYTES);
    assert!(capture.stdout_full);
}

#[test]
fn whole_stream_capture_is_capped() {
    let items = vec![
        Ok(LogOutput::StdOut {
            message: vec![b'a'; MAX_OUTPUT_BYTES],
        }),
        Ok(LogOutput::StdOut {
            message: b"more".to_vec(),
        }),
        Ok(LogOutput::StdErr {
            message: "gr\u{fc}\u{df}".as_bytes().to_vec(),
        }),
    ];
    let ((stdout, stderr), events) = attach_task(&items);
    assert_eq!(stdout.len(), MAX_OUTPUT_BYTES);
    assert!(stdout.bytes().all(|b| b == b'a'));
    assert_eq!(stderr, "gr\u{fc}\u{df}\n");
    assert_eq!(events.len(), 3);
    assert_eq!(events[1], CodeRunnerChunk::Stdout("more".to_string()));
}

#[test]
fn exit_status_table() {
    assert_eq!(process_exit_status(&WaitOutcome::Elapsed), (true, None));
    assert_eq!(
        process_exit_status(&WaitOutcome::Exited { status_code: 0 }),
        (false, Some(0))
    );
    assert_eq!(
        process_exit_status(&WaitOutcome::Exited { status_code: 137 }),
        (false, Some(137))
    );
    let wait_error = DockerError {
        kind: DockerErrorKind::ContainerWaitError { code: 124 },
        text: "container wait error".to_string(),
    };
    assert_eq!(
        process_exit_status(&WaitOutcome::Failed(wait_error)),
        (false, Some(124))
    );
    assert_eq!(
        process_exit_status(&WaitOutcome::Failed(other_error("io"))),
        (false, None)
    );
    assert_eq!(
        process_exit_status(&WaitOutcome::Failed(server_error(500, "x"))),
        (false, None)
    );
    assert_eq!(process_exit_status(&WaitOutcome::Closed), (false, None));
}

#[test]
fn output_budget_adds_grace_period() {
    assert_eq!(output_budget_secs(5), 10);
    assert_eq!(output_budget_secs(300), 305);
    assert_eq!(output_budget_secs(u32::MAX), 4_294_967_300);
}

#[test]
fn whole_output_stream_is_captured() {
    let items = vec![
        Ok(LogOutput::StdOut {
            message: b"line 1".to_vec(),
        }),
        Ok(LogOutput::StdErr {
            message: b"oops".to_vec(),
        }),
        Err(other_error("broken frame")),
        Ok(LogOutput::StdIn {
            message: b"ignored".to_vec(),
        }),
        Ok(LogOutput::StdOut {
            message: b"line 2".to_vec(),
        }),
    ];
    let ((stdout, stderr), events) = attach_task(&items);
    assert_eq!(stdout, "line 1\nline 2\n");
    assert_eq!(stderr, "oops\n");
    assert_eq!(
        events,
        vec![
            CodeRunnerChunk::Stdout("line 1".to_string()),
            CodeRunnerChunk::Stderr("oops".to_string()),
            CodeRunnerChunk::Info("Error while processing output: broken frame".to_string()),
            CodeRunnerChunk::Stdout("line 2".to_string()),
        ]
    );
    assert!(events.iter().all(|e| !e.is_terminal()));
    let ((stdout, stderr), events) = attach_task(&vec![]);
    assert_eq!((stdout.as_str(), stderr.as_str()), ("", ""));
    assert_eq!(events, vec![]);
}
