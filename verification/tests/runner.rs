use tinirun::errors::AppError;
use tinirun::executor::ExecPhase;
use tinirun::functions::{BuildPhase, RunPhase};
use tinirun::models::{
    CodeRunnerFile, CodeRunnerInput, CodeRunnerLanguage, LanguageData, RunFunctionInput,
};
use tinirun::pipeline::{Action, EngineEvent};
use tinirun::registry::{load_registry, LanguageAssets, LanguageMap};
use tinirun::runner::{execution_vars, function_vars, DockerRunner};
use tinirun::store::{FunctionDetail, FunctionInfo, FunctionStatus, Timestamp};

const TEMPLATE: &str = "FROM {{ image }}\n{{ set_build_id }}{{ set_user_and_home_dir }}COPY --chown={{ uid_gid }} {{ main_file }} .\n{% if fn_file %}COPY {{ fn_file }} .\n{% endif %}{% if dependencies %}RUN pip install {{ dependencies }}\n{% endif %}";

fn python() -> LanguageData {
    LanguageData {
        image: "python:3.13-slim".to_string(),
        command: "python main.py".to_string(),
        template: "python".to_string(),
        main_file: "main.py".to_string(),
        fn_file: "function.py".to_string(),
    }
}

fn assets(template: &str) -> LanguageAssets {
    LanguageAssets {
        folder_found: true,
        dockerfile: Some(template.as_bytes().to_vec()),
        main_file: Some(b"import function".to_vec()),
        fn_file: Some(b"def run(x): return x".to_vec()),
    }
}

fn runner_with(template: &str) -> DockerRunner {
    let registry = load_registry(&vec![(CodeRunnerLanguage::Python, assets(template))])
        .expect("the template compiles");
    let mut data = LanguageMap::new();
    data.insert(CodeRunnerLanguage::Python, python());
    DockerRunner::new(data, registry, "0.3.1".to_string())
}

fn runner() -> DockerRunner {
    runner_with(TEMPLATE)
}

fn request(deps: Option<Vec<&str>>) -> CodeRunnerInput {
    CodeRunnerInput {
        code: "print(1+1)".to_string(),
        lang: CodeRunnerLanguage::Python,
        dependencies: deps.map(|d| d.into_iter().map(str::to_string).collect()),
        files: None,
        timeout: 30,
        mem_limit_mb: 256,
        cpu_limit_millis: 1000,
    }
}

fn dockerfile_of(action: &Action) -> String {
    match action {
        Action::BuildImage(build) => {
            assert_eq!(build.files[0].path, "Dockerfile");
            String::from_utf8(build.files[0].content.clone()).unwrap()
        }
        other => panic!("expected a build, got {other:?}"),
    }
}

fn assert_run_id(id: &str) {
    assert_eq!(id.len(), 48);
    assert!(id.starts_with("code-runner-"));
    let uuid = &id[12..];
    for (i, c) in uuid.chars().enumerate() {
        if i == 8 || i == 13 || i == 18 || i == 23 {
            assert_eq!(c, '-');
        } else {
            assert!(c.is_ascii_digit() || ('a'..='f').contains(&c), "bad digit {c}");
        }
    }
    assert_eq!(uuid.as_bytes()[14], b'4');
    assert!(matches!(uuid.as_bytes()[19], b'8' | b'9' | b'a' | b'b'));
}

#[test]
fn run_ids_are_fresh_version_4_uuids() {
    let a = DockerRunner::gen_run_id();
    let b = DockerRunner::gen_run_id();
    assert_run_id(&a);
    assert_run_id(&b);
    assert_ne!(a, b);
}

#[test]
fn shell_injection_in_dependencies_is_a_bad_request() {
    let r = runner().execute(request(Some(vec!["pkg; rm -rf /"])));
    match r {
        Err(AppError::BadRequest(msg)) => assert_eq!(
            msg,
            "Invalid dependency name 'pkg; rm -rf /': dependency name contains forbidden character ';' — only alphanumerics and _ - . / : @ ^ ~ > < = [ ] are allowed"
        ),
        _ => panic!("expected a bad request"),
    }
}

#[test]
fn unknown_language_is_a_server_error() {
    let mut input = request(None);
    input.lang = CodeRunnerLanguage::Go;
    match runner().execute(input) {
        Err(e) => assert_eq!(e, AppError::Server("Language data not found".to_string())),
        Ok(_) => panic!("expected a failure"),
    }
    let mut data = LanguageMap::new();
    data.insert(CodeRunnerLanguage::Python, python());
    let r = DockerRunner::new(data, LanguageMap::new(), "1".to_string());
    match r.execute(request(None)) {
        Err(e) => assert_eq!(
            e,
            AppError::Server("Dockerfile template not found".to_string())
        ),
        Ok(_) => panic!("expected a failure"),
    }
}

#[test]
fn dependency_check_comes_before_language_lookup() {
    let mut input = request(Some(vec![""]));
    input.lang = CodeRunnerLanguage::Go;
    match runner().execute(input) {
        Err(AppError::BadRequest(msg)) => assert_eq!(
            msg,
            "Invalid dependency name '': dependency name must not be empty"
        ),
        _ => panic!("expected a bad request"),
    }
}

#[test]
fn execute_renders_the_dockerfile_with_the_request_variables() {
    let mut m = runner()
        .execute(request(Some(vec!["requests", "numpy==2.0"])))
        .ok()
        .expect("the execution is set up");
    assert_eq!(m.phase, ExecPhase::Created);
    assert_run_id(&m.plan.run_id);
    assert_eq!(m.plan.image, "python:3.13-slim");
    assert_eq!(m.plan.command, "python main.py");
    assert_eq!(m.plan.timeout, 30);
    assert_eq!(m.plan.mem_limit_mb, 256);
    assert_eq!(m.plan.cpu_limit_millis, 1000);
    assert_eq!(
        m.plan.build.labels,
        vec![
            ("tinirun".to_string(), "v0.3.1".to_string()),
            ("tinirun-exec".to_string(), m.plan.run_id.clone()),
        ]
    );
    m.run(EngineEvent::Begin);
    let step = m.run(EngineEvent::ImageInspected(Ok(())));
    assert_eq!(
        dockerfile_of(&step.action),
        "FROM python:3.13-slim\n\nARG TINIRUN_BUILD_ID\nENV TINIRUN_BUILD_ID=$TINIRUN_BUILD_ID\n\nRUN mkdir -p /app && chown 1000:1000 /app\nUSER 1000:1000\nRUN mkdir -p /tmp/home\nWORKDIR /app\nCOPY --chown=1000:1000 main.py .\nRUN pip install requests numpy==2.0\n"
    );
}

#[test]
fn execute_without_dependencies_leaves_the_variable_absent() {
    let mut m = runner().execute(request(None)).ok().unwrap();
    m.run(EngineEvent::Begin);
    let step = m.run(EngineEvent::ImageInspected(Ok(())));
    let dockerfile = dockerfile_of(&step.action);
    assert!(!dockerfile.contains("pip install"));
    assert!(!dockerfile.contains("function.py"));
    assert!(dockerfile.ends_with("COPY --chown=1000:1000 main.py .\n"));
}

#[test]
fn rendering_twice_gives_identical_text() {
    let r = runner();
    let render = |r: &DockerRunner| {
        let mut m = r
            .execute(request(Some(vec!["requests"])))
            .ok()
            .unwrap();
        m.run(EngineEvent::Begin);
        dockerfile_of(&m.run(EngineEvent::ImageInspected(Ok(()))).action)
    };
    assert_eq!(render(&r), render(&r));
}

#[test]
fn render_failure_is_a_server_error() {
    // A variable that is not among those of the request fails the rendering.
    let r = runner_with("FROM {{ missing_variable }}");
    match r.execute(request(None)) {
        Err(AppError::Server(msg)) => {
            assert!(msg.starts_with("failed to render Dockerfile: "), "{msg}");
            assert!(msg.len() > "failed to render Dockerfile: ".len());
        }
        Err(e) => panic!("expected a server error, got {e:?}"),
        Ok(_) => panic!("expected a failure"),
    }
}

#[test]
fn attached_files_reach_the_build_context() {
    let mut input = request(None);
    input.files = Some(vec![CodeRunnerFile {
        path: "in/data.csv".to_string(),
        content: b"1,2".to_vec(),
    }]);
    let mut m = runner().execute(input).ok().unwrap();
    m.run(EngineEvent::Begin);
    let step = m.run(EngineEvent::ImageInspected(Ok(())));
    match step.action {
        Action::BuildImage(build) => {
            let paths: Vec<&str> = build.files.iter().map(|f| f.path.as_str()).collect();
            assert_eq!(paths, vec!["Dockerfile", "main.py", "files/in/data.csv"]);
            assert_eq!(build.files[1].content, b"print(1+1)");
            assert_eq!(build.files[2].content, b"1,2");
            assert_eq!(build.tag, m.plan.run_id);
            assert_eq!(
                build.build_args,
                vec![("TINIRUN_BUILD_ID".to_string(), m.plan.run_id.clone())]
            );
        }
        _ => panic!("expected a build"),
    }
}

fn record() -> FunctionDetail {
    FunctionDetail {
        code: "def run(x): return x * 2".to_string(),
        lang: CodeRunnerLanguage::Python,
        description: None,
        dependencies: Some("requests".to_string()),
        status: FunctionStatus::Building,
        created_at: Timestamp { secs: 1, nanos: 0 },
        updated_at: Timestamp { secs: 1, nanos: 0 },
        version: 7,
    }
}

#[test]
fn build_function_renders_with_the_function_file() {
    let mut m = runner().build_function("foo", record()).ok().unwrap();
    assert_eq!(m.phase, BuildPhase::Created);
    assert_eq!(m.plan.fn_name, "foo");
    m.step(EngineEvent::Begin);
    let step = m.step(EngineEvent::ImageInspected(Ok(())));
    let dockerfile = dockerfile_of(&step.action);
    assert!(dockerfile.contains("COPY function.py .\n"));
    assert!(dockerfile.ends_with("RUN pip install requests\n"));
    match step.action {
        Action::BuildImage(build) => {
            assert_eq!(build.tag, "code-runner-fn-foo:latest");
            assert_eq!(
                build.labels,
                vec![
                    ("tinirun".to_string(), "v0.3.1".to_string()),
                    ("tinirun-fn".to_string(), "foo".to_string()),
                ]
            );
            assert_eq!(
                build.build_args,
                vec![("TINIRUN_BUILD_ID".to_string(), "foo-v7".to_string())]
            );
            let paths: Vec<&str> = build.files.iter().map(|f| f.path.as_str()).collect();
            assert_eq!(paths, vec!["Dockerfile", "main.py", "function.py"]);
            assert_eq!(build.files[1].content, b"import function");
            assert_eq!(build.files[2].content, b"def run(x): return x * 2");
        }
        _ => panic!("expected a build"),
    }
}

#[test]
fn build_function_for_unknown_language_fails() {
    let mut info = record();
    info.lang = CodeRunnerLanguage::Rust;
    match runner().build_function("foo", info) {
        Err(e) => assert_eq!(e, AppError::Server("Language data not found".to_string())),
        Ok(_) => panic!("expected a failure"),
    }
}

#[test]
fn build_function_render_failure_is_a_server_error() {
    let r = runner_with("FROM {{ nothing_here }}");
    match r.build_function("foo", record()) {
        Err(AppError::Server(msg)) => {
            assert!(msg.starts_with("Failed to render Dockerfile: "), "{msg}")
        }
        _ => panic!("expected a server error"),
    }
}

#[test]
fn run_function_is_set_up_under_a_fresh_run_id() {
    let info = FunctionInfo {
        lang: CodeRunnerLanguage::Python,
        description: None,
        status: FunctionStatus::Ready {
            tag: "code-runner-fn-foo:latest".to_string(),
            id: "X".to_string(),
        },
        created_at: Timestamp { secs: 1, nanos: 0 },
        updated_at: Timestamp { secs: 1, nanos: 0 },
        version: 1,
    };
    let input = RunFunctionInput {
        input: "payload".to_string(),
        timeout: 12,
        mem_limit_mb: 64,
        cpu_limit_millis: 2000,
    };
    let m = runner()
        .run_function("foo".to_string(), info.clone(), input.clone())
        .ok()
        .unwrap();
    assert_eq!(m.phase, RunPhase::Created);
    assert_run_id(&m.plan.run_id);
    assert_eq!(m.plan.fn_name, "foo");
    assert_eq!(m.plan.image_tag, "code-runner-fn-foo:latest");
    assert_eq!(m.plan.command, "python main.py");
    assert_eq!(m.plan.input, "payload");
    assert_eq!(m.plan.timeout, 12);
    assert_eq!(m.plan.mem_limit_mb, 64);
    assert_eq!(m.plan.cpu_limit_millis, 2000);

    let mut other = info;
    other.lang = CodeRunnerLanguage::Bash;
    match runner().run_function("foo".to_string(), other, input) {
        Err(e) => assert_eq!(e, AppError::Server("Language data not found".to_string())),
        Ok(_) => panic!("expected a failure"),
    }
}

#[test]
fn template_variables_are_listed_in_order() {
    let vars = execution_vars(&python(), &Some(vec!["a".to_string(), "b".to_string()]));
    let names: Vec<&str> = vars.iter().map(|v| v.0.as_str()).collect();
    assert_eq!(
        names,
        vec![
            "image",
            "main_file",
            "dependencies",
            "uid_gid",
            "set_build_id",
            "set_user_and_home_dir"
        ]
    );
    assert_eq!(vars[0].1, Some("python:3.13-slim".to_string()));
    assert_eq!(vars[1].1, Some("main.py".to_string()));
    assert_eq!(vars[2].1, Some("a b".to_string()));
    assert_eq!(vars[3].1, Some("1000:1000".to_string()));
    assert_eq!(
        vars[4].1,
        Some("\nARG TINIRUN_BUILD_ID\nENV TINIRUN_BUILD_ID=$TINIRUN_BUILD_ID\n".to_string())
    );
    assert_eq!(
        vars[5].1,
        Some(
            "\nRUN mkdir -p /app && chown 1000:1000 /app\nUSER 1000:1000\nRUN mkdir -p /tmp/home\nWORKDIR /app\n"
                .to_string()
        )
    );
    let vars = function_vars(&python(), &None);
    let names: Vec<&str> = vars.iter().map(|v| v.0.as_str()).collect();
    assert_eq!(names[2], "fn_file");
    assert_eq!(vars[2].1, Some("function.py".to_string()));
    assert_eq!(vars[3].0, "dependencies");
    assert_eq!(vars[3].1, None);
    assert_eq!(vars.len(), 7);
    let vars = function_vars(&python(), &Some("requests numpy".to_string()));
    assert_eq!(vars[3].1, Some("requests numpy".to_string()));
    let vars = execution_vars(&python(), &None);
    assert_eq!(vars[2].1, None);
    assert_eq!(vars.len(), 6);
}

#[test]
fn language_lookup_returns_configuration_and_templates() {
    let r = runner();
    let (data, templates) = r.get_lang_info(CodeRunnerLanguage::Python).ok().unwrap();
    assert_eq!(data, python());
    assert_eq!(templates.main_file, "import function");
    assert_eq!(templates.fn_file, "def run(x): return x");
    assert!(r.get_lang_info(CodeRunnerLanguage::TypeScript).is_err());
}

#[test]
fn dockerfile_depends_on_language_and_dependencies_only() {
    let r = runner();
    let dockerfile = |input: CodeRunnerInput| {
        let mut m = r.execute(input).ok().unwrap();
        m.run(EngineEvent::Begin);
        dockerfile_of(&m.run(EngineEvent::ImageInspected(Ok(()))).action)
    };
    let first = request(Some(vec!["requests", "numpy"]));
    let mut second = request(Some(vec!["requests", "numpy"]));
    second.code = "print('something else')".to_string();
    second.timeout = 5;
    second.mem_limit_mb = 1;
    second.files = Some(vec![CodeRunnerFile {
        path: "a.txt".to_string(),
        content: b"a".to_vec(),
    }]);
    let a = dockerfile(first);
    let b = dockerfile(second);
    assert_eq!(a, b);
    assert!(a.ends_with("RUN pip install requests numpy\n"));
    let c = dockerfile(request(Some(vec!["requests"])));
    assert_ne!(a, c);
    let none = dockerfile(request(None));
    assert!(!none.contains("pip install"));
}
