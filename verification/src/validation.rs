//! The rules that a request must meet before the runner takes it: the time
//! limit lies between 5 and 300 seconds, the memory limit between 1 and 2048
//! megabytes, at most 50 files are attached, and every attached file has a
//! valid path.

use vstd::prelude::*;
use vstd::string::*;
use crate::models::{files_of, CodeRunnerFile, CodeRunnerInput, RunFunctionInput};
use crate::paths::{path_verdict, valid_path, validate_path, PathError};

verus! {

/// Shortest time limit of a run, in seconds.
pub const MIN_TIMEOUT: u32 = 5;

/// Longest time limit of a run, in seconds.
pub const MAX_TIMEOUT: u32 = 300;

/// Smallest memory limit of a run, in megabytes.
pub const MIN_MEM_LIMIT_MB: u32 = 1;

/// Largest memory limit of a run, in megabytes.
pub const MAX_MEM_LIMIT_MB: u32 = 2048;

/// Largest number of attached files.
pub const MAX_FILES: usize = 50;

/// One rule that a request breaks.
#[derive(Debug, Clone, Copy, PartialEq, Eq, Structural)]
pub enum ValidationError {
    /// The time limit is out of range.
    Timeout,
    /// The memory limit is out of range.
    MemLimit,
    /// More files are attached than allowed.
    TooManyFiles,
    /// The path of the attached file at `index` is refused.
    Path { index: usize, error: PathError },
}

impl ValidationError {
    /// The field of the request that the rule is about.
    pub open spec fn spec_field(self) -> Seq<char> {
        match self {
            ValidationError::Timeout => "timeout"@,
            ValidationError::MemLimit => "mem_limit_mb"@,
            ValidationError::TooManyFiles => "files"@,
            ValidationError::Path { .. } => "path"@,
        }
    }

    /// Short machine-readable code of the broken rule.
    pub open spec fn spec_code(self) -> Seq<char> {
        match self {
            ValidationError::Timeout => "range"@,
            ValidationError::MemLimit => "range"@,
            ValidationError::TooManyFiles => "length"@,
            ValidationError::Path { index, error } => error.spec_code(),
        }
    }

    /// The field of the request that the rule is about.
    pub fn field(&self) -> (s: &'static str)
        ensures
            s@ == self.spec_field(),
    {
        match self {
            ValidationError::Timeout => "timeout",
            ValidationError::MemLimit => "mem_limit_mb",
            ValidationError::TooManyFiles => "files",
            ValidationError::Path { .. } => "path",
        }
    }

    /// Short machine-readable code of the broken rule.
    pub fn code(&self) -> (s: &'static str)
        ensures
            s@ == self.spec_code(),
    {
        match self {
            ValidationError::Timeout => "range",
            ValidationError::MemLimit => "range",
            ValidationError::TooManyFiles => "length",
            ValidationError::Path { index, error } => error.code(),
        }
    }
}

/// The time limit is allowed.
pub open spec fn valid_timeout(timeout: u32) -> bool {
    5 <= timeout <= 300
}

/// The memory limit is allowed.
pub open spec fn valid_mem_limit(mem_limit_mb: u32) -> bool {
    1 <= mem_limit_mb <= 2048
}

/// Every attached file has a valid path.
pub open spec fn valid_paths(files: Seq<CodeRunnerFile>) -> bool {
    forall|i: int| 0 <= i < files.len() ==> valid_path((#[trigger] files[i]).path@)
}

/// A validated run request: the time limit and the memory limit are in
/// range, at most 50 files are attached, and every file path is relative, is
/// not the Dockerfile and has no `.` or `..` component.
pub open spec fn valid_input(input: CodeRunnerInput) -> bool {
    &&& valid_timeout(input.timeout)
    &&& valid_mem_limit(input.mem_limit_mb)
    &&& files_of(input.files).len() <= 50
    &&& valid_paths(files_of(input.files))
}

/// The broken rules of the limits and of the number of files.
pub open spec fn limit_violations(timeout: u32, mem_limit_mb: u32, n_files: nat) -> Seq<
    ValidationError,
> {
    (if valid_timeout(timeout) {
        Seq::empty()
    } else {
        seq![ValidationError::Timeout]
    }) + (if valid_mem_limit(mem_limit_mb) {
        Seq::empty()
    } else {
        seq![ValidationError::MemLimit]
    }) + (if n_files <= 50 {
        Seq::empty()
    } else {
        seq![ValidationError::TooManyFiles]
    })
}

/// The refused paths among the first `upto` attached files, in order.
pub open spec fn path_violations(files: Seq<CodeRunnerFile>, upto: int) -> Seq<ValidationError>
    decreases upto,
{
    if upto <= 0 {
        Seq::empty()
    } else {
        path_violations(files, upto - 1) + (match path_verdict(files[upto - 1].path@) {
            Ok(_) => Seq::empty(),
            Err(error) => seq![ValidationError::Path { index: (upto - 1) as usize, error }],
        })
    }
}

/// All the rules that a run request breaks: first the limits, then the
/// number of files, then the paths in the order of the files.
pub open spec fn violations(input: CodeRunnerInput) -> Seq<ValidationError> {
    limit_violations(input.timeout, input.mem_limit_mb, files_of(input.files).len())
        + path_violations(files_of(input.files), files_of(input.files).len() as int)
}

/// No path among the first `upto` files is refused exactly when all of them
/// are valid.
pub proof fn lemma_path_violations(files: Seq<CodeRunnerFile>, upto: int)
    requires
        0 <= upto <= files.len(),
    ensures
        path_violations(files, upto).len() == 0 <==> forall|i: int|
            0 <= i < upto ==> valid_path((#[trigger] files[i]).path@),
    decreases upto,
{
    if upto > 0 {
        lemma_path_violations(files, upto - 1);
        if path_violations(files, upto).len() == 0 {
            assert(path_verdict(files[upto - 1].path@) is Ok);
        } else if path_violations(files, upto - 1).len() == 0 {
            assert(!valid_path(files[upto - 1].path@));
        }
    }
}

/// A request breaks no rule exactly when it is valid.
pub proof fn lemma_no_violation_iff_valid(input: CodeRunnerInput)
    ensures
        violations(input).len() == 0 <==> valid_input(input),
{
    let files = files_of(input.files);
    lemma_path_violations(files, files.len() as int);
}

fn check_limits(timeout: u32, mem_limit_mb: u32, n_files: usize) -> (errors: Vec<ValidationError>)
    ensures
        errors@ == limit_violations(timeout, mem_limit_mb, n_files as nat),
{
    let mut errors: Vec<ValidationError> = Vec::new();
    if timeout < MIN_TIMEOUT || timeout > MAX_TIMEOUT {
        errors.push(ValidationError::Timeout);
    }
    if mem_limit_mb < MIN_MEM_LIMIT_MB || mem_limit_mb > MAX_MEM_LIMIT_MB {
        errors.push(ValidationError::MemLimit);
    }
    if n_files > MAX_FILES {
        errors.push(ValidationError::TooManyFiles);
    }
    assert(errors@ =~= limit_violations(timeout, mem_limit_mb, n_files as nat));
    errors
}

impl CodeRunnerInput {
    /// Checks the request against the rules. Succeeds exactly on a valid
    /// request; otherwise returns every broken rule.
    pub fn validate(&self) -> (r: Result<(), Vec<ValidationError>>)
        ensures
            r is Ok <==> valid_input(*self),
            r matches Err(errors) ==> errors@ == violations(*self) && errors@.len() > 0,
    {
        let n_files: usize = match &self.files {
            Some(f) => f.len(),
            None => 0,
        };
        let mut errors = check_limits(self.timeout, self.mem_limit_mb, n_files);
        let ghost limits = errors@;
        match &self.files {
            Some(files) => {
                let mut i: usize = 0;
                assert(errors@ =~= limits + path_violations(files@, 0));
                while i < files.len()
                    invariant
                        i <= files.len(),
                        errors@ == limits + path_violations(files@, i as int),
                    decreases files.len() - i,
                {
                    match validate_path(files[i].path.as_str()) {
                        Ok(()) => {
                            assert(errors@ =~= limits + path_violations(files@, i + 1));
                        },
                        Err(error) => {
                            errors.push(ValidationError::Path { index: i, error });
                            assert(errors@ =~= limits + path_violations(files@, i + 1));
                        },
                    }
                    i += 1;
                }
            },
            None => {
                assert(errors@ =~= limits + path_violations(Seq::empty(), 0));
            },
        }
        proof {
            lemma_no_violation_iff_valid(*self);
        }
        if errors.len() == 0 {
            Ok(())
        } else {
            Err(errors)
        }
    }
}

/// A validated function request: the time limit and the memory limit are in
/// range.
pub open spec fn valid_function_input(input: RunFunctionInput) -> bool {
    valid_timeout(input.timeout) && valid_mem_limit(input.mem_limit_mb)
}

impl RunFunctionInput {
    /// Checks the request against the rules. Succeeds exactly on a valid
    /// request; otherwise returns every broken rule.
    pub fn validate(&self) -> (r: Result<(), Vec<ValidationError>>)
        ensures
            r is Ok <==> valid_function_input(*self),
            r matches Err(errors) ==> errors@ == limit_violations(
                self.timeout,
                self.mem_limit_mb,
                0,
            ) && errors@.len() > 0,
    {
        let errors = check_limits(self.timeout, self.mem_limit_mb, 0);
        if errors.len() == 0 {
            Ok(())
        } else {
            Err(errors)
        }
    }
}

} // verus!
