use tinirun::models::{CodeRunnerFile, CodeRunnerInput, CodeRunnerLanguage, RunFunctionInput};
use tinirun::paths::PathError;
use tinirun::validation::ValidationError;

fn request() -> CodeRunnerInput {
    CodeRunnerInput {
        code: "print(1+1)".to_string(),
        lang: CodeRunnerLanguage::Python,
        dependencies: None,
        files: None,
        timeout: 30,
        mem_limit_mb: 256,
        cpu_limit_millis: 1000,
    }
}

fn file(path: &str) -> CodeRunnerFile {
    CodeRunnerFile {
        path: path.to_string(),
        content: Vec::new(),
    }
}

#[test]
fn valid_request_passes() {
    assert_eq!(request().validate(), Ok(()));
    let mut r = request();
    r.timeout = 5;
    r.mem_limit_mb = 1;
    assert_eq!(r.validate(), Ok(()));
    r.timeout = 300;
    r.mem_limit_mb = 2048;
    r.files = Some(vec![file("a.txt"), file("dir/b.txt")]);
    assert_eq!(r.validate(), Ok(()));
}

#[test]
fn timeout_out_of_range_is_refused() {
    let mut r = request();
    r.timeout = 4;
    assert_eq!(r.validate(), Err(vec![ValidationError::Timeout]));
    r.timeout = 301;
    assert_eq!(r.validate(), Err(vec![ValidationError::Timeout]));
    r.timeout = 0;
    assert_eq!(r.validate(), Err(vec![ValidationError::Timeout]));
}

#[test]
fn memory_out_of_range_is_refused() {
    let mut r = request();
    r.mem_limit_mb = 0;
    assert_eq!(r.validate(), Err(vec![ValidationError::MemLimit]));
    r.mem_limit_mb = 2049;
    assert_eq!(r.validate(), Err(vec![ValidationError::MemLimit]));
}

#[test]
fn more_than_fifty_files_are_refused() {
    let mut r = request();
    let mut files = Vec::new();
    for i in 0..50 {
        files.push(file(&format!("f{i}.txt")));
    }
    r.files = Some(files.clone());
    assert_eq!(r.validate(), Ok(()));
    files.push(file("one-too-many.txt"));
    r.files = Some(files);
    assert_eq!(r.validate(), Err(vec![ValidationError::TooManyFiles]));
}

#[test]
fn parent_directory_path_is_refused() {
    let mut r = request();
    r.files = Some(vec![file("../etc/passwd")]);
    assert_eq!(
        r.validate(),
        Err(vec![ValidationError::Path {
            index: 0,
            error: PathError::InvalidPath
        }])
    );
}

#[test]
fn every_broken_rule_is_reported_in_order() {
    let mut r = request();
    r.timeout = 1;
    r.mem_limit_mb = 4096;
    r.files = Some(vec![
        file("ok.txt"),
        file("/abs"),
        file("Dockerfile"),
        file("x/./y"),
    ]);
    assert_eq!(
        r.validate(),
        Err(vec![
            ValidationError::Timeout,
            ValidationError::MemLimit,
            ValidationError::Path {
                index: 1,
                error: PathError::AbsolutePath
            },
            ValidationError::Path {
                index: 2,
                error: PathError::Dockerfile
            },
            ValidationError::Path {
                index: 3,
                error: PathError::InvalidPath
            },
        ])
    );
}

#[test]
fn validation_error_fields_and_codes() {
    assert_eq!(ValidationError::Timeout.field(), "timeout");
    assert_eq!(ValidationError::Timeout.code(), "range");
    assert_eq!(ValidationError::MemLimit.field(), "mem_limit_mb");
    assert_eq!(ValidationError::MemLimit.code(), "range");
    assert_eq!(ValidationError::TooManyFiles.field(), "files");
    assert_eq!(ValidationError::TooManyFiles.code(), "length");
    let e = ValidationError::Path {
        index: 3,
        error: PathError::Dockerfile,
    };
    assert_eq!(e.field(), "path");
    assert_eq!(e.code(), "dockerfile");
}

#[test]
fn function_request_limits_are_checked() {
    let mut r = RunFunctionInput {
        input: "{}".to_string(),
        timeout: 10,
        mem_limit_mb: 128,
        cpu_limit_millis: 500,
    };
    assert_eq!(r.validate(), Ok(()));
    r.timeout = 1000;
    r.mem_limit_mb = 0;
    assert_eq!(
        r.validate(),
        Err(vec![ValidationError::Timeout, ValidationError::MemLimit])
    );
}
