//! The decisions of the function endpoints: what a new function's record
//! is, when a function may be updated or run, and what a run answers.

use vstd::prelude::*;
use vstd::string::*;
use crate::errors::{AppError, AppErrorView};
use crate::models::{
    chunk_views, joined_names, names_of, ChunkView, CodeRunnerChunk, CreateFunctionInput,
    UpdateFunctionInput,
};
use crate::registry::LanguageTemplates;
use crate::store::{
    opt_text, update_stamp, FunctionDetail, FunctionStatus, StatusView, Timestamp,
};
use crate::text::concat2;
use crate::validators::{
    deps_error_message, first_invalid_dep, valid_deps, validate_deps_input,
};

verus! {

/// Largest number of functions that one listing returns.
pub const FUNCTION_LIST_LIMIT: u32 = 100;

/// What a function run answers.
#[derive(Debug, Clone, PartialEq, Eq)]
pub struct RunFunctionOutput {
    pub stdout: String,
    pub stderr: String,
    pub exit_code: Option<i64>,
    pub timeout: bool,
}

/// Model of the answer of a function run.
pub enum OutcomeView {
    Output { stdout: Seq<char>, stderr: Seq<char>, exit_code: Option<i64>, timeout: bool },
    Failed(AppErrorView),
}

/// Model of a `Result<RunFunctionOutput, AppError>`.
pub open spec fn outcome_view(r: Result<RunFunctionOutput, AppError>) -> OutcomeView {
    match r {
        Ok(o) => OutcomeView::Output {
            stdout: o.stdout@,
            stderr: o.stderr@,
            exit_code: o.exit_code,
            timeout: o.timeout,
        },
        Err(e) => OutcomeView::Failed(e@),
    }
}

/// What an event decides about the answer of a function run: an error event
/// fails it, a result event completes it, any other event decides nothing.
pub open spec fn chunk_outcome(chunk: ChunkView) -> Option<OutcomeView> {
    match chunk {
        ChunkView::Error(e) => Some(OutcomeView::Failed(AppErrorView::ExecutionFailed(e))),
        ChunkView::Result { stdout, stderr, exit_code, timeout } => Some(
            OutcomeView::Output { stdout, stderr, exit_code, timeout },
        ),
        _ => None,
    }
}

/// The answer of a function run whose stream is `chunks` from `from` on: what
/// the first deciding event says, or a server error when the stream ends
/// without one.
pub open spec fn stream_outcome(chunks: Seq<ChunkView>, from: int) -> OutcomeView
    decreases chunks.len() - from,
{
    if from < 0 || from >= chunks.len() {
        OutcomeView::Failed(AppErrorView::Server("No result/error from function"@))
    } else {
        match chunk_outcome(chunks[from]) {
            Some(o) => o,
            None => stream_outcome(chunks, from + 1),
        }
    }
}

/// A function can only be run once it is ready.
pub fn require_ready(status: &FunctionStatus) -> (r: Result<(), AppError>)
    ensures
        status@ is Ready ==> r is Ok,
        !(status@ is Ready) ==> (r matches Err(e) && e@ == AppErrorView::BadRequest(
            "Function not ready"@,
        )),
{
    if status.is_ready() {
        Ok(())
    } else {
        Err(AppError::BadRequest("Function not ready".to_owned()))
    }
}

/// Reads one event of a function run: `None` while the answer is open.
pub fn function_outcome(chunk: &CodeRunnerChunk) -> (r: Option<Result<RunFunctionOutput, AppError>>)
    ensures
        match r {
            Some(o) => chunk_outcome(chunk@) == Some(outcome_view(o)),
            None => chunk_outcome(chunk@) is None,
        },
{
    match chunk {
        CodeRunnerChunk::Error(err) => Some(Err(AppError::ExecutionFailed(err.duplicate()))),
        CodeRunnerChunk::Result { stdout, stderr, exit_code, timeout } => Some(
            Ok(
                RunFunctionOutput {
                    stdout: stdout.clone(),
                    stderr: stderr.clone(),
                    exit_code: *exit_code,
                    timeout: *timeout,
                },
            ),
        ),
        _ => None,
    }
}

/// The answer of a function run from the events of its stream.
pub fn collect_function_output(chunks: &Vec<CodeRunnerChunk>) -> (r: Result<
    RunFunctionOutput,
    AppError,
>)
    ensures
        outcome_view(r) == stream_outcome(chunk_views(chunks@), 0),
{
    let mut i: usize = 0;
    while i < chunks.len()
        invariant
            i <= chunks.len(),
            stream_outcome(chunk_views(chunks@), 0) == stream_outcome(
                chunk_views(chunks@),
                i as int,
            ),
        decreases chunks.len() - i,
    {
        assert(chunk_views(chunks@)[i as int] == chunks@[i as int]@);
        match function_outcome(&chunks[i]) {
            Some(o) => {
                return o;
            },
            None => {},
        }
        i += 1;
    }
    Err(AppError::Server("No result/error from function".to_owned()))
}

/// A record that was looked up, or `NotFound`.
pub fn found<T>(record: Option<T>) -> (r: Result<T, AppError>)
    ensures
        match record {
            Some(v) => r == Ok::<T, AppError>(v),
            None => r matches Err(e) && e@ == AppErrorView::NotFound,
        },
{
    match record {
        Some(v) => Ok(v),
        None => Err(AppError::NotFound),
    }
}

/// The record of a new function: the language's sample function as code,
/// being built, created and updated now. A function that exists already is
/// a bad request; a language without templates is a server error.
pub fn new_function(
    exists: bool,
    templates: Option<&LanguageTemplates>,
    input: &CreateFunctionInput,
    now: Timestamp,
) -> (r: Result<FunctionDetail, AppError>)
    ensures
        exists ==> (r matches Err(e) && e@ == AppErrorView::BadRequest(
            "Function already exists"@,
        )),
        !exists && templates is None ==> (r matches Err(e) && e@ == AppErrorView::Server(
            "Language templates not found"@,
        )),
        !exists && templates is Some ==> (r matches Ok(d) && {
            &&& d.code@ == templates->0.fn_file@
            &&& d.lang == input.language
            &&& d.description is None
            &&& d.dependencies is None
            &&& d.status@ == StatusView::Building
            &&& d.created_at == now
            &&& d.updated_at == now
            &&& d.version == 0
        }),
{
    if exists {
        return Err(AppError::BadRequest("Function already exists".to_owned()));
    }
    match templates {
        Some(t) => Ok(FunctionDetail::created(t.fn_file.clone(), input.language, now)),
        None => Err(AppError::Server("Language templates not found".to_owned())),
    }
}

/// The failure of an update, if it fails: a rejected dependency name, then a
/// function that does not exist.
pub open spec fn update_refusal(current: Option<FunctionDetail>, input: UpdateFunctionInput) -> Option<
    AppErrorView,
> {
    let deps = names_of(input.dependencies);
    if !valid_deps(deps) {
        Some(
            AppErrorView::BadRequest(
                "Invalid dependencies: "@ + deps_error_message(deps[first_invalid_dep(deps)]),
            ),
        )
    } else if current is None {
        Some(AppErrorView::NotFound)
    } else {
        None
    }
}

/// The record of a function after an update with `input` at `now`: the
/// dependency names are validated, the function must exist, and its record
/// takes the new code, description and dependencies, goes to `Building` and
/// to the next version. Its stamp is `now`, or the stamp it had where the
/// clock has gone back.
pub fn updated_function(current: Option<FunctionDetail>, input: UpdateFunctionInput, now: Timestamp) -> (r:
    Result<FunctionDetail, AppError>)
    requires
        current matches Some(c) ==> c.version < u32::MAX,
    ensures
        match update_refusal(current, input) {
            Some(e) => r matches Err(err) && err@ == e,
            None => r matches Ok(d) && {
                &&& d.code == input.code
                &&& d.description == input.description
                &&& opt_text(d.dependencies) == joined_names(input.dependencies)
                &&& d.status@ == StatusView::Building
                &&& d.updated_at == update_stamp(current->0.updated_at, now)
                &&& d.updated_at.at_or_after(current->0.updated_at)
                &&& d.version == current->0.version + 1
                &&& d.lang == current->0.lang
                &&& d.created_at == current->0.created_at
            },
        },
{
    match &input.dependencies {
        Some(deps) => {
            match validate_deps_input(deps.as_slice()) {
                Ok(()) => {},
                Err(msg) => {
                    return Err(
                        AppError::BadRequest(concat2("Invalid dependencies: ", msg.as_str())),
                    );
                },
            }
        },
        None => {},
    }
    match current {
        Some(record) => {
            let mut record = record;
            record.update_at(input, now);
            Ok(record)
        },
        None => Err(AppError::NotFound),
    }
}

} // verus!
