//! The values that cross the service boundary: run requests, attached
//! files, function requests, errors, and the events of an output stream.

use vstd::prelude::*;
use vstd::string::*;
use crate::text::{joined, texts};

verus! {

/// Supported languages for the code runner.
#[derive(Debug, Clone, Copy, PartialEq, Eq, Hash, Structural)]
pub enum CodeRunnerLanguage {
    Bash,
    Go,
    JavaScript,
    Python,
    Rust,
    TypeScript,
}

impl Default for CodeRunnerLanguage {
    fn default() -> (lang: Self)
        ensures
            lang == CodeRunnerLanguage::JavaScript,
    {
        CodeRunnerLanguage::JavaScript
    }
}

impl CodeRunnerLanguage {
    /// The lower-case identifier of the language on the wire.
    pub open spec fn spec_name(self) -> Seq<char> {
        match self {
            CodeRunnerLanguage::Bash => "bash"@,
            CodeRunnerLanguage::Go => "go"@,
            CodeRunnerLanguage::JavaScript => "javascript"@,
            CodeRunnerLanguage::Python => "python"@,
            CodeRunnerLanguage::Rust => "rust"@,
            CodeRunnerLanguage::TypeScript => "typescript"@,
        }
    }

    /// The lower-case identifier of the language on the wire.
    pub fn name(&self) -> (s: &'static str)
        ensures
            s@ == self.spec_name(),
    {
        match self {
            CodeRunnerLanguage::Bash => "bash",
            CodeRunnerLanguage::Go => "go",
            CodeRunnerLanguage::JavaScript => "javascript",
            CodeRunnerLanguage::Python => "python",
            CodeRunnerLanguage::Rust => "rust",
            CodeRunnerLanguage::TypeScript => "typescript",
        }
    }

    /// The six supported languages, in declaration order.
    pub fn all() -> (v: Vec<CodeRunnerLanguage>)
        ensures
            v@ == seq![
                CodeRunnerLanguage::Bash,
                CodeRunnerLanguage::Go,
                CodeRunnerLanguage::JavaScript,
                CodeRunnerLanguage::Python,
                CodeRunnerLanguage::Rust,
                CodeRunnerLanguage::TypeScript,
            ],
    {
        let mut v: Vec<CodeRunnerLanguage> = Vec::new();
        v.push(CodeRunnerLanguage::Bash);
        v.push(CodeRunnerLanguage::Go);
        v.push(CodeRunnerLanguage::JavaScript);
        v.push(CodeRunnerLanguage::Python);
        v.push(CodeRunnerLanguage::Rust);
        v.push(CodeRunnerLanguage::TypeScript);
        assert(v@ =~= seq![
            CodeRunnerLanguage::Bash,
            CodeRunnerLanguage::Go,
            CodeRunnerLanguage::JavaScript,
            CodeRunnerLanguage::Python,
            CodeRunnerLanguage::Rust,
            CodeRunnerLanguage::TypeScript,
        ]);
        v
    }
}

/// Static configuration of one language.
#[derive(Debug, Clone, PartialEq, Eq)]
pub struct LanguageData {
    /// Tag of the base image.
    pub image: String,
    /// Shell command that runs the program inside the container.
    pub command: String,
    /// Name of the folder that holds the language's templates.
    pub template: String,
    /// Name of the file that holds the main program.
    pub main_file: String,
    /// Name of the file that holds a function's code.
    pub fn_file: String,
}

impl LanguageData {
    /// A copy of the configuration.
    pub fn duplicate(&self) -> (d: LanguageData)
        ensures
            d.image@ == self.image@,
            d.command@ == self.command@,
            d.template@ == self.template@,
            d.main_file@ == self.main_file@,
            d.fn_file@ == self.fn_file@,
    {
        LanguageData {
            image: self.image.clone(),
            command: self.command.clone(),
            template: self.template.clone(),
            main_file: self.main_file.clone(),
            fn_file: self.fn_file.clone(),
        }
    }
}

/// An auxiliary input file of a run, placed under `files/` in the build
/// context.
#[derive(Debug, Clone, PartialEq, Eq)]
pub struct CodeRunnerFile {
    /// Path of the file relative to the `files` directory, with `/` between
    /// components.
    pub path: String,
    /// Content of the file.
    pub content: Vec<u8>,
}

/// Input of a one-off execution.
#[derive(Debug, Clone, PartialEq, Eq)]
pub struct CodeRunnerInput {
    /// The code to run.
    pub code: String,
    /// Language of the code.
    pub lang: CodeRunnerLanguage,
    /// Dependencies for the code execution.
    pub dependencies: Option<Vec<String>>,
    /// Additional files, available to the code under `./files`.
    pub files: Option<Vec<CodeRunnerFile>>,
    /// Timeout for the code execution in seconds.
    pub timeout: u32,
    /// Memory limit for the code execution in megabytes.
    pub mem_limit_mb: u32,
    /// CPU limit in thousandths of a core.
    pub cpu_limit_millis: u32,
}

/// The attached files of a request, none when the list is absent.
pub open spec fn files_of(files: Option<Vec<CodeRunnerFile>>) -> Seq<CodeRunnerFile> {
    match files {
        Some(f) => f@,
        None => Seq::empty(),
    }
}

/// The dependency names of a request, none when the list is absent.
pub open spec fn names_of(dependencies: Option<Vec<String>>) -> Seq<Seq<char>> {
    match dependencies {
        Some(d) => texts(d@),
        None => Seq::empty(),
    }
}

/// The dependency names of a request joined by spaces, or absent.
pub open spec fn joined_names(dependencies: Option<Vec<String>>) -> Option<Seq<char>> {
    match dependencies {
        Some(d) => Some(joined(texts(d@), " "@)),
        None => None,
    }
}

/// Input of one invocation of a stored function.
#[derive(Debug, Clone, PartialEq, Eq)]
pub struct RunFunctionInput {
    /// Payload written to the function's standard input.
    pub input: String,
    /// Timeout for the invocation in seconds.
    pub timeout: u32,
    /// Memory limit in megabytes.
    pub mem_limit_mb: u32,
    /// CPU limit in thousandths of a core.
    pub cpu_limit_millis: u32,
}

/// Input that creates a function.
#[derive(Debug, Clone, PartialEq, Eq)]
pub struct CreateFunctionInput {
    pub name: String,
    pub language: CodeRunnerLanguage,
}

/// Input that replaces a function's code.
#[derive(Debug, Clone, PartialEq, Eq)]
pub struct UpdateFunctionInput {
    pub code: String,
    pub description: Option<String>,
    pub dependencies: Option<Vec<String>>,
}

/// A failure surfaced by the runner once an execution has started.
#[derive(Debug, Clone, PartialEq, Eq)]
pub enum CodeRunnerError {
    /// An engine transport or protocol failure.
    Docker { message: String },
    /// The build finished without an image id.
    BuildFailed { message: String, logs: String },
    /// A function was invoked while its image is absent.
    FunctionImageNotFound { message: String, image_tag: String },
}

/// Model of a `CodeRunnerError`.
pub enum ErrorView {
    Docker { message: Seq<char> },
    BuildFailed { message: Seq<char>, logs: Seq<char> },
    FunctionImageNotFound { message: Seq<char>, image_tag: Seq<char> },
}

impl View for CodeRunnerError {
    type V = ErrorView;

    open spec fn view(&self) -> ErrorView {
        match self {
            CodeRunnerError::Docker { message } => ErrorView::Docker { message: message@ },
            CodeRunnerError::BuildFailed { message, logs } => ErrorView::BuildFailed {
                message: message@,
                logs: logs@,
            },
            CodeRunnerError::FunctionImageNotFound { message, image_tag } => {
                ErrorView::FunctionImageNotFound { message: message@, image_tag: image_tag@ }
            },
        }
    }
}

impl ErrorView {
    /// The message of the error.
    pub open spec fn message(self) -> Seq<char> {
        match self {
            ErrorView::Docker { message } => message,
            ErrorView::BuildFailed { message, logs } => message,
            ErrorView::FunctionImageNotFound { message, image_tag } => message,
        }
    }
}

impl CodeRunnerError {
    /// The message of the error.
    pub fn message(&self) -> (s: String)
        ensures
            s@ == self@.message(),
    {
        match self {
            CodeRunnerError::Docker { message } => message.clone(),
            CodeRunnerError::BuildFailed { message, logs } => message.clone(),
            CodeRunnerError::FunctionImageNotFound { message, image_tag } => message.clone(),
        }
    }

    /// A copy of the error.
    pub fn duplicate(&self) -> (e: CodeRunnerError)
        ensures
            e@ == self@,
    {
        match self {
            CodeRunnerError::Docker { message } => CodeRunnerError::Docker {
                message: message.clone(),
            },
            CodeRunnerError::BuildFailed { message, logs } => CodeRunnerError::BuildFailed {
                message: message.clone(),
                logs: logs.clone(),
            },
            CodeRunnerError::FunctionImageNotFound { message, image_tag } => {
                CodeRunnerError::FunctionImageNotFound {
                    message: message.clone(),
                    image_tag: image_tag.clone(),
                }
            },
        }
    }
}

/// One element of an output stream.
#[derive(Debug, Clone, PartialEq, Eq)]
pub enum CodeRunnerChunk {
    /// Streamed info log.
    Info(String),
    /// Streamed debug log.
    Debug(String),
    /// Streamed standard output of the container.
    Stdout(String),
    /// Streamed standard error of the container.
    Stderr(String),
    /// A failure before the code could finish; the final chunk of a stream.
    Error(CodeRunnerError),
    /// A failure while the image was built; the final chunk of a stream.
    BuildError { message: String, build_logs: String },
    /// Full result of the execution; the final chunk of a stream.
    Result { stdout: String, stderr: String, exit_code: Option<i64>, timeout: bool },
}

/// Model of a `CodeRunnerChunk`.
pub enum ChunkView {
    Info(Seq<char>),
    Debug(Seq<char>),
    Stdout(Seq<char>),
    Stderr(Seq<char>),
    Error(ErrorView),
    BuildError { message: Seq<char>, build_logs: Seq<char> },
    Result { stdout: Seq<char>, stderr: Seq<char>, exit_code: Option<i64>, timeout: bool },
}

impl View for CodeRunnerChunk {
    type V = ChunkView;

    open spec fn view(&self) -> ChunkView {
        match self {
            CodeRunnerChunk::Info(m) => ChunkView::Info(m@),
            CodeRunnerChunk::Debug(m) => ChunkView::Debug(m@),
            CodeRunnerChunk::Stdout(m) => ChunkView::Stdout(m@),
            CodeRunnerChunk::Stderr(m) => ChunkView::Stderr(m@),
            CodeRunnerChunk::Error(e) => ChunkView::Error(e@),
            CodeRunnerChunk::BuildError { message, build_logs } => ChunkView::BuildError {
                message: message@,
                build_logs: build_logs@,
            },
            CodeRunnerChunk::Result { stdout, stderr, exit_code, timeout } => ChunkView::Result {
                stdout: stdout@,
                stderr: stderr@,
                exit_code: *exit_code,
                timeout: *timeout,
            },
        }
    }
}

impl ChunkView {
    /// A terminal event closes its stream: `result`, `error` or
    /// `build_error`.
    pub open spec fn is_terminal(self) -> bool {
        self is Error || self is BuildError || self is Result
    }

    /// The discriminator of the event on the wire.
    pub open spec fn kind(self) -> Seq<char> {
        match self {
            ChunkView::Info(_) => "info"@,
            ChunkView::Debug(_) => "debug"@,
            ChunkView::Stdout(_) => "stdout"@,
            ChunkView::Stderr(_) => "stderr"@,
            ChunkView::Error(_) => "error"@,
            ChunkView::BuildError { .. } => "build_error"@,
            ChunkView::Result { .. } => "result"@,
        }
    }
}

impl CodeRunnerChunk {
    /// Whether the event closes its stream.
    pub fn is_terminal(&self) -> (b: bool)
        ensures
            b == self@.is_terminal(),
    {
        match self {
            CodeRunnerChunk::Error(_) => true,
            CodeRunnerChunk::BuildError { .. } => true,
            CodeRunnerChunk::Result { .. } => true,
            _ => false,
        }
    }

    /// The discriminator of the event on the wire.
    pub fn kind(&self) -> (s: &'static str)
        ensures
            s@ == self@.kind(),
    {
        match self {
            CodeRunnerChunk::Info(_) => "info",
            CodeRunnerChunk::Debug(_) => "debug",
            CodeRunnerChunk::Stdout(_) => "stdout",
            CodeRunnerChunk::Stderr(_) => "stderr",
            CodeRunnerChunk::Error(_) => "error",
            CodeRunnerChunk::BuildError { .. } => "build_error",
            CodeRunnerChunk::Result { .. } => "result",
        }
    }
}

/// The models of a sequence of events.
pub open spec fn chunk_views(chunks: Seq<CodeRunnerChunk>) -> Seq<ChunkView> {
    chunks.map_values(|c: CodeRunnerChunk| c@)
}

} // verus!
