//! The runner: what is checked before an execution starts, and how the
//! pipelines are set up.
//!
//! Dependency names are validated, the language is looked up, and the
//! Dockerfile is rendered before anything is asked of the engine. A failure
//! there is an error for the caller; no stream is opened.

use vstd::prelude::*;
use vstd::string::*;
use crate::constants::{SET_BUILD_ID, SET_USER_AND_HOME_DIR, UID_GID};
use crate::errors::{AppError, AppErrorView};
use crate::executor::{msg_one_off_context, one_off_build, DockerExecutor, ExecPhase};
use crate::functions::{
    function_build, function_tag, msg_function_context, BuildPhase, FunctionBuild,
    FunctionExecutor, FunctionRun, RunPhase,
};
use crate::models::{
    files_of, joined_names, names_of, ChunkView, CodeRunnerInput, CodeRunnerLanguage,
    LanguageData, RunFunctionInput,
};
use crate::registry::{LanguageMap, LanguageTemplates};
use crate::template::{rendered, var_texts};
use crate::store::{opt_text, FunctionDetail, FunctionInfo};
use crate::text::{concat2, join};
use crate::validators::{
    deps_error_message, first_invalid_dep, valid_deps, validate_deps_input,
};

verus! {

/// A lower-case hexadecimal digit.
pub open spec fn is_lower_hex(c: char) -> bool {
    ('0' <= c && c <= '9') || ('a' <= c && c <= 'f')
}

/// The hyphenated lower-case form of a version-4 UUID: 36 characters, with
/// hyphens after 8, 12, 16 and 20 digits, the version digit `4` and a
/// variant digit `8`, `9`, `a` or `b`.
pub open spec fn is_uuid_v4_text(s: Seq<char>) -> bool {
    &&& s.len() == 36
    &&& forall|i: int|
        0 <= i < 36 ==> if i == 8 || i == 13 || i == 18 || i == 23 {
            #[trigger] s[i] == '-'
        } else {
            is_lower_hex(s[i])
        }
    &&& s[14] == '4'
    &&& (s[19] == '8' || s[19] == '9' || s[19] == 'a' || s[19] == 'b')
}

/// A run id: `code-runner-` and a version-4 UUID.
pub open spec fn is_run_id(s: Seq<char>) -> bool {
    &&& s.len() == 48
    &&& s.subrange(0, 12) == "code-runner-"@
    &&& is_uuid_v4_text(s.subrange(12, 48))
}

/// A fresh random UUID as text, through `uuid::Uuid::new_v4` and its
/// `Display`. Whatever the random bits, the text has the hyphenated
/// lower-case form of a version-4 UUID.
#[verifier::external_body]
fn new_uuid_v4() -> (s: String)
    ensures
        is_uuid_v4_text(s@),
{
    uuid::Uuid::new_v4().to_string()
}

/// The variables of a Dockerfile template: the base image, the main file,
/// the function file where a function is built, the dependencies joined by
/// spaces or absent, and the fixed fragments.
pub open spec fn dockerfile_vars(
    lang_data: LanguageData,
    with_fn_file: bool,
    dependencies: Option<Seq<char>>,
) -> Seq<(Seq<char>, Option<Seq<char>>)> {
    seq![("image"@, Some(lang_data.image@)), ("main_file"@, Some(lang_data.main_file@))] + (
    if with_fn_file {
        seq![("fn_file"@, Some(lang_data.fn_file@))]
    } else {
        Seq::empty()
    }) + seq![
        ("dependencies"@, dependencies),
        ("uid_gid"@, Some(UID_GID@)),
        ("set_build_id"@, Some(SET_BUILD_ID@)),
        ("set_user_and_home_dir"@, Some(SET_USER_AND_HOME_DIR@)),
    ]
}

/// Lists the variables of a Dockerfile template.
fn template_vars(lang_data: &LanguageData, with_fn_file: bool, dependencies: Option<String>) -> (vars:
    Vec<(String, Option<String>)>)
    ensures
        var_texts(vars@) == dockerfile_vars(*lang_data, with_fn_file, opt_text(dependencies)),
{
    let mut vars: Vec<(String, Option<String>)> = Vec::new();
    vars.push(("image".to_owned(), Some(lang_data.image.clone())));
    vars.push(("main_file".to_owned(), Some(lang_data.main_file.clone())));
    if with_fn_file {
        vars.push(("fn_file".to_owned(), Some(lang_data.fn_file.clone())));
    }
    vars.push(("dependencies".to_owned(), dependencies));
    vars.push(("uid_gid".to_owned(), Some(UID_GID.to_owned())));
    vars.push(("set_build_id".to_owned(), Some(SET_BUILD_ID.to_owned())));
    vars.push(("set_user_and_home_dir".to_owned(), Some(SET_USER_AND_HOME_DIR.to_owned())));
    assert(var_texts(vars@) =~= dockerfile_vars(*lang_data, with_fn_file, opt_text(dependencies)));
    vars
}

/// The variables with which the Dockerfile of a one-off execution is
/// rendered: no function file, and the dependency names joined by spaces.
pub fn execution_vars(lang_data: &LanguageData, dependencies: &Option<Vec<String>>) -> (vars: Vec<
    (String, Option<String>),
>)
    ensures
        var_texts(vars@) == dockerfile_vars(*lang_data, false, joined_names(*dependencies)),
{
    let joined = match dependencies {
        Some(deps) => Some(join(deps, " ")),
        None => None,
    };
    template_vars(lang_data, false, joined)
}

/// The variables with which the Dockerfile of a function is rendered: with
/// the function file, and the dependencies as the record holds them.
pub fn function_vars(lang_data: &LanguageData, dependencies: &Option<String>) -> (vars: Vec<
    (String, Option<String>),
>)
    ensures
        var_texts(vars@) == dockerfile_vars(*lang_data, true, opt_text(*dependencies)),
{
    let held = match dependencies {
        Some(d) => Some(d.clone()),
        None => None,
    };
    template_vars(lang_data, true, held)
}

/// The failure for a Dockerfile that could not be rendered.
pub open spec fn render_failure(prefix: Seq<char>, cause: Seq<char>) -> AppErrorView {
    AppErrorView::Server(prefix + cause)
}

/// Code runner over containers. It holds the language table and the
/// template registry, both read-only after startup, and the version of the
/// service that labels its images.
pub struct DockerRunner {
    pub language_data: LanguageMap<LanguageData>,
    pub templates: LanguageMap<LanguageTemplates>,
    pub version: String,
}

impl DockerRunner {
    /// Both tables hold each language at most once.
    pub open spec fn wf(&self) -> bool {
        self.language_data.wf() && self.templates.wf()
    }

    /// The language has both its configuration and its templates.
    pub open spec fn supports(&self, lang: CodeRunnerLanguage) -> bool {
        self.language_data.view().dom().contains(lang) && self.templates.view().dom().contains(
            lang,
        )
    }

    /// The failure of a language lookup, if it fails.
    pub open spec fn lookup_failure(&self, lang: CodeRunnerLanguage) -> Option<AppErrorView> {
        if !self.language_data.view().dom().contains(lang) {
            Some(AppErrorView::Server("Language data not found"@))
        } else if !self.templates.view().dom().contains(lang) {
            Some(AppErrorView::Server("Dockerfile template not found"@))
        } else {
            None
        }
    }

    /// A runner over the given language table and template registry.
    pub fn new(
        language_data: LanguageMap<LanguageData>,
        templates: LanguageMap<LanguageTemplates>,
        version: String,
    ) -> (r: Self)
        requires
            language_data.wf(),
            templates.wf(),
        ensures
            r.wf(),
            r.language_data == language_data,
            r.templates == templates,
            r.version == version,
    {
        DockerRunner { language_data, templates, version }
    }

    /// A fresh run id: `code-runner-` and a random version-4 UUID.
    pub fn gen_run_id() -> (id: String)
        ensures
            is_run_id(id@),
    {
        let uuid = new_uuid_v4();
        let id = concat2("code-runner-", uuid.as_str());
        proof {
            reveal_strlit("code-runner-");
            assert(id@.subrange(0, 12) =~= "code-runner-"@);
            assert(id@.subrange(12, 48) =~= uuid@);
        }
        id
    }

    /// The configuration and the templates of a language.
    pub fn get_lang_info(&self, lang: CodeRunnerLanguage) -> (r: Result<
        (LanguageData, &LanguageTemplates),
        AppError,
    >)
        requires
            self.wf(),
        ensures
            match r {
                Ok((data, templates)) => {
                    &&& self.lookup_failure(lang) is None
                    &&& data.image@ == self.language_data.view()[lang].image@
                    &&& data.command@ == self.language_data.view()[lang].command@
                    &&& data.template@ == self.language_data.view()[lang].template@
                    &&& data.main_file@ == self.language_data.view()[lang].main_file@
                    &&& data.fn_file@ == self.language_data.view()[lang].fn_file@
                    &&& *templates == self.templates.view()[lang]
                },
                Err(e) => self.lookup_failure(lang) == Some(e@),
            },
    {
        let lang_data = match self.language_data.get(lang) {
            Some(d) => d.duplicate(),
            None => {
                return Err(AppError::Server("Language data not found".to_owned()));
            },
        };
        let templates = match self.templates.get(lang) {
            Some(t) => t,
            None => {
                return Err(AppError::Server("Dockerfile template not found".to_owned()));
            },
        };
        Ok((lang_data, templates))
    }

    /// Sets up a one-off execution from a rendered Dockerfile, or reports
    /// why the Dockerfile could not be rendered.
    pub fn start_execution(
        run_id: String,
        version: &str,
        input: CodeRunnerInput,
        rendered: Result<String, String>,
        lang_data: LanguageData,
    ) -> (r: Result<DockerExecutor, AppError>)
        ensures
            match rendered {
                Ok(dockerfile) => r matches Ok(m) && Self::executes(
                    m,
                    run_id@,
                    version@,
                    input,
                    dockerfile@,
                    lang_data,
                ),
                Err(cause) => r matches Err(e) && e@ == render_failure(
                    "failed to render Dockerfile: "@,
                    cause@,
                ),
            },
    {
        match rendered {
            Ok(dockerfile) => Ok(DockerExecutor::new(run_id, version, input, dockerfile, lang_data)),
            Err(cause) => Err(
                AppError::Server(concat2("failed to render Dockerfile: ", cause.as_str())),
            ),
        }
    }

    /// `m` is the execution of `input` under `run_id`, about to begin.
    pub open spec fn executes(
        m: DockerExecutor,
        run_id: Seq<char>,
        version: Seq<char>,
        input: CodeRunnerInput,
        dockerfile: Seq<char>,
        lang_data: LanguageData,
    ) -> bool {
        &&& m.wf()
        &&& m.phase == ExecPhase::Created
        &&& m.sent@ == Seq::<ChunkView>::empty()
        &&& m.build@ == crate::engine::build_progress_of(Seq::empty())
        &&& m.plan.run_id@ == run_id
        &&& m.plan.image@ == lang_data.image@
        &&& m.plan.command@ == lang_data.command@
        &&& m.plan.timeout == input.timeout
        &&& m.plan.mem_limit_mb == input.mem_limit_mb
        &&& m.plan.cpu_limit_millis == input.cpu_limit_millis
        &&& m.plan.context_message@ == msg_one_off_context(
            lang_data.main_file@,
            files_of(input.files),
        )
        &&& m.plan.build@ == one_off_build(
            run_id,
            version,
            dockerfile,
            lang_data.main_file@,
            input.code@,
            files_of(input.files),
        )
    }

    /// The failure that is known before the Dockerfile is rendered, if any:
    /// a rejected dependency name, then a language without configuration or
    /// templates.
    pub open spec fn execute_refusal(&self, input: CodeRunnerInput) -> Option<AppErrorView> {
        let deps = names_of(input.dependencies);
        if !valid_deps(deps) {
            Some(AppErrorView::BadRequest(deps_error_message(deps[first_invalid_dep(deps)])))
        } else {
            self.lookup_failure(input.lang)
        }
    }

    /// The Dockerfile of a one-off execution: what the template of the
    /// request's language renders to with the variables of the request;
    /// `None` where the rendering fails. It depends on the language and the
    /// dependencies of the request, and on nothing else of it.
    pub open spec fn execution_dockerfile(&self, input: CodeRunnerInput) -> Option<Seq<char>> {
        rendered(
            self.templates.view()[input.lang].dockerfile.source_text(),
            dockerfile_vars(
                self.language_data.view()[input.lang],
                false,
                joined_names(input.dependencies),
            ),
        )
    }

    /// Checks a one-off execution and sets it up: validates the dependency
    /// names, looks the language up and renders the Dockerfile. It succeeds
    /// exactly when no dependency name is rejected, the language has its
    /// configuration and templates, and the template renders; the execution
    /// is then about to begin under a fresh run id, with the rendered
    /// Dockerfile in its build context. A rejected dependency name is a bad
    /// request; any other failure is a server error.
    pub fn execute(&self, input: CodeRunnerInput) -> (r: Result<DockerExecutor, AppError>)
        requires
            self.wf(),
        ensures
            r is Ok <==> self.execute_refusal(input) is None && self.execution_dockerfile(
                input,
            ) is Some,
            self.execute_refusal(input) matches Some(e) ==> r matches Err(err) && err@ == e,
            r matches Ok(m) ==> {
                &&& is_run_id(m.plan.run_id@)
                &&& Self::executes(
                    m,
                    m.plan.run_id@,
                    self.version@,
                    input,
                    self.execution_dockerfile(input)->0,
                    self.language_data.view()[input.lang],
                )
            },
            r matches Err(err) ==> (self.execute_refusal(input) is None ==> exists|
                cause: Seq<char>,
            |
                err@ == render_failure("failed to render Dockerfile: "@, cause)),
    {
        match &input.dependencies {
            Some(deps) => {
                match validate_deps_input(deps.as_slice()) {
                    Ok(()) => {},
                    Err(msg) => {
                        return Err(AppError::BadRequest(msg));
                    },
                }
            },
            None => {},
        }
        let (lang_data, templates) = match self.get_lang_info(input.lang) {
            Ok(found) => found,
            Err(e) => {
                return Err(e);
            },
        };
        let vars = execution_vars(&lang_data, &input.dependencies);
        let rendered = templates.dockerfile.render(&vars);
        proof {
            let stored = self.language_data.view()[input.lang];
            assert(dockerfile_vars(lang_data, false, joined_names(input.dependencies))
                =~= dockerfile_vars(stored, false, joined_names(input.dependencies)));
        }
        let run_id = Self::gen_run_id();
        let r = Self::start_execution(run_id, self.version.as_str(), input, rendered, lang_data);
        proof {
            if r is Ok {
                let m = r->Ok_0;
                let dockerfile = rendered->Ok_0@;
                let stored = self.language_data.view()[input.lang];
                assert(Self::executes(m, m.plan.run_id@, self.version@, input, dockerfile, stored));
            } else {
                assert(r->Err_0@ == render_failure(
                    "failed to render Dockerfile: "@,
                    rendered->Err_0@,
                ));
            }
        }
        r
    }

    /// Two requests for the same language and with the same dependency names
    /// get the same Dockerfile, whatever their code, files and limits; so
    /// rendering again gives the same text.
    pub proof fn lemma_dockerfile_is_determined(&self, a: CodeRunnerInput, b: CodeRunnerInput)
        requires
            a.lang == b.lang,
            joined_names(a.dependencies) == joined_names(b.dependencies),
        ensures
            self.execution_dockerfile(a) == self.execution_dockerfile(b),
    {
    }

    /// `m` is the build of the function `name`, about to begin.
    pub open spec fn builds(
        m: FunctionBuild,
        name: Seq<char>,
        version: Seq<char>,
        info: FunctionDetail,
        dockerfile: Seq<char>,
        main_code: Seq<char>,
        lang_data: LanguageData,
    ) -> bool {
        &&& m.wf()
        &&& m.phase == BuildPhase::Created
        &&& m.sent@ == Seq::<ChunkView>::empty()
        &&& m.build@ == crate::engine::build_progress_of(Seq::empty())
        &&& m.plan.fn_name@ == name
        &&& m.plan.base_image@ == lang_data.image@
        &&& m.plan.context_message@ == msg_function_context(
            lang_data.main_file@,
            lang_data.fn_file@,
        )
        &&& m.plan.build@ == function_build(
            name,
            version,
            info.version,
            dockerfile,
            lang_data.main_file@,
            main_code,
            lang_data.fn_file@,
            info.code@,
        )
    }

    /// Sets up the build of a function from a rendered Dockerfile, or reports
    /// why the Dockerfile could not be rendered.
    pub fn start_build(
        name: &str,
        version: &str,
        info: FunctionDetail,
        rendered: Result<String, String>,
        main_code: String,
        lang_data: LanguageData,
    ) -> (r: Result<FunctionBuild, AppError>)
        ensures
            match rendered {
                Ok(dockerfile) => r matches Ok(m) && Self::builds(
                    m,
                    name@,
                    version@,
                    info,
                    dockerfile@,
                    main_code@,
                    lang_data,
                ),
                Err(cause) => r matches Err(e) && e@ == render_failure(
                    "Failed to render Dockerfile: "@,
                    cause@,
                ),
            },
    {
        match rendered {
            Ok(dockerfile) => Ok(
                FunctionExecutor::build_fn(name, info, lang_data, dockerfile, main_code, version),
            ),
            Err(cause) => Err(
                AppError::Server(concat2("Failed to render Dockerfile: ", cause.as_str())),
            ),
        }
    }

    /// The Dockerfile of a function: what the template of the function's
    /// language renders to with the variables of the function, the function
    /// file among them; `None` where the rendering fails.
    pub open spec fn function_dockerfile(&self, info: FunctionDetail) -> Option<Seq<char>> {
        rendered(
            self.templates.view()[info.lang].dockerfile.source_text(),
            dockerfile_vars(
                self.language_data.view()[info.lang],
                true,
                opt_text(info.dependencies),
            ),
        )
    }

    /// Checks the build of a function's image and sets it up: looks the
    /// language up and renders the Dockerfile with the function file among
    /// its variables. It succeeds exactly when the language has its
    /// configuration and templates and the template renders; the build is
    /// then about to begin, with the rendered Dockerfile in its context.
    pub fn build_function(&self, name: &str, info: FunctionDetail) -> (r: Result<
        FunctionBuild,
        AppError,
    >)
        requires
            self.wf(),
        ensures
            r is Ok <==> self.lookup_failure(info.lang) is None && self.function_dockerfile(
                info,
            ) is Some,
            self.lookup_failure(info.lang) matches Some(e) ==> r matches Err(err) && err@ == e,
            r matches Ok(m) ==> Self::builds(
                m,
                name@,
                self.version@,
                info,
                self.function_dockerfile(info)->0,
                self.templates.view()[info.lang].main_file@,
                self.language_data.view()[info.lang],
            ),
            r matches Err(err) ==> (self.lookup_failure(info.lang) is None ==> exists|
                cause: Seq<char>,
            |
                err@ == render_failure("Failed to render Dockerfile: "@, cause)),
    {
        let (lang_data, templates) = match self.get_lang_info(info.lang) {
            Ok(found) => found,
            Err(e) => {
                return Err(e);
            },
        };
        let vars = function_vars(&lang_data, &info.dependencies);
        let rendered = templates.dockerfile.render(&vars);
        proof {
            let stored = self.language_data.view()[info.lang];
            assert(dockerfile_vars(lang_data, true, opt_text(info.dependencies))
                =~= dockerfile_vars(stored, true, opt_text(info.dependencies)));
        }
        let main_code = templates.main_file.clone();
        let r = Self::start_build(
            name,
            self.version.as_str(),
            info,
            rendered,
            main_code,
            lang_data,
        );
        proof {
            if r is Ok {
                assert(Self::builds(
                    r->Ok_0,
                    name@,
                    self.version@,
                    info,
                    rendered->Ok_0@,
                    self.templates.view()[info.lang].main_file@,
                    self.language_data.view()[info.lang],
                ));
            } else {
                assert(r->Err_0@ == render_failure(
                    "Failed to render Dockerfile: "@,
                    rendered->Err_0@,
                ));
            }
        }
        r
    }

    /// Two records of the same language and with the same dependencies get
    /// the same Dockerfile, whatever their code and version.
    pub proof fn lemma_function_dockerfile_is_determined(&self, a: FunctionDetail, b: FunctionDetail)
        requires
            a.lang == b.lang,
            opt_text(a.dependencies) == opt_text(b.dependencies),
        ensures
            self.function_dockerfile(a) == self.function_dockerfile(b),
    {
    }

    /// Checks an invocation of a function and sets it up under a fresh run
    /// id.
    pub fn run_function(&self, name: String, fn_info: FunctionInfo, input: RunFunctionInput) -> (r:
        Result<FunctionRun, AppError>)
        requires
            self.wf(),
        ensures
            match r {
                Ok(m) => {
                    &&& self.lookup_failure(fn_info.lang) is None
                    &&& m.wf()
                    &&& m.phase == RunPhase::Created
                    &&& m.sent@ == Seq::<ChunkView>::empty()
                    &&& is_run_id(m.plan.run_id@)
                    &&& m.plan.fn_name@ == name@
                    &&& m.plan.image_tag@ == function_tag(name@)
                    &&& m.plan.command@ == self.language_data.view()[fn_info.lang].command@
                    &&& m.plan.input@ == input.input@
                    &&& m.plan.timeout == input.timeout
                    &&& m.plan.mem_limit_mb == input.mem_limit_mb
                    &&& m.plan.cpu_limit_millis == input.cpu_limit_millis
                },
                Err(e) => self.lookup_failure(fn_info.lang) == Some(e@),
            },
    {
        let (lang_data, _) = match self.get_lang_info(fn_info.lang) {
            Ok(found) => found,
            Err(e) => {
                return Err(e);
            },
        };
        let run_id = Self::gen_run_id();
        Ok(FunctionExecutor::run_function(run_id.as_str(), name.as_str(), input, lang_data))
    }
}

} // verus!
