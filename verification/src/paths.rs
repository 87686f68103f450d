//! The grammar of attached-file paths. A path is a sequence of components
//! separated by `/`; empty components (doubled or trailing separators) do not
//! count. An attached file must be relative, must have no `.` or `..`
//! component and must not replace the `Dockerfile` of the build context.

use vstd::prelude::*;
use vstd::string::*;
use crate::text::{chars_of, same_chars, texts, string_of};

verus! {

/// `done`, followed by `cur` if it is not empty.
pub open spec fn close_component(done: Seq<Seq<char>>, cur: Seq<char>) -> Seq<Seq<char>> {
    if cur.len() > 0 {
        done.push(cur)
    } else {
        done
    }
}

/// Components of `s[i..]`, given the components `done` that were closed
/// before `i` and the characters `cur` of the component that is open at `i`.
pub open spec fn components_from(s: Seq<char>, i: int, cur: Seq<char>, done: Seq<Seq<char>>) -> Seq<
    Seq<char>,
>
    decreases s.len() - i,
{
    if i < 0 || i >= s.len() {
        close_component(done, cur)
    } else if s[i] == '/' {
        components_from(s, i + 1, Seq::empty(), close_component(done, cur))
    } else {
        components_from(s, i + 1, cur.push(s[i]), done)
    }
}

/// The components of a path: the maximal runs of characters other than `/`.
pub open spec fn path_components(s: Seq<char>) -> Seq<Seq<char>> {
    components_from(s, 0, Seq::empty(), Seq::empty())
}

/// A component is not empty and holds no separator.
pub open spec fn is_segment(c: Seq<char>) -> bool {
    c.len() > 0 && forall|i: int| 0 <= i < c.len() ==> c[i] != '/'
}

/// Every component that `components_from` yields is a segment, given that
/// those closed so far are, and that the open one holds no separator.
pub proof fn lemma_components_from(s: Seq<char>, i: int, cur: Seq<char>, done: Seq<Seq<char>>)
    requires
        0 <= i <= s.len(),
        forall|k: int| 0 <= k < cur.len() ==> cur[k] != '/',
        forall|j: int| 0 <= j < done.len() ==> is_segment(#[trigger] done[j]),
    ensures
        forall|j: int|
            0 <= j < components_from(s, i, cur, done).len() ==> is_segment(
                #[trigger] components_from(s, i, cur, done)[j],
            ),
    decreases s.len() - i,
{
    let closed = close_component(done, cur);
    assert forall|j: int| 0 <= j < closed.len() implies is_segment(#[trigger] closed[j]) by {
        if j < done.len() {
            assert(closed[j] == done[j]);
        } else {
            assert(closed[j] == cur);
        }
    }
    if i < s.len() {
        if s[i] == '/' {
            lemma_components_from(s, i + 1, Seq::empty(), closed);
            assert(components_from(s, i, cur, done) == components_from(
                s,
                i + 1,
                Seq::empty(),
                closed,
            ));
        } else {
            let longer = cur.push(s[i]);
            assert forall|k: int| 0 <= k < longer.len() implies longer[k] != '/' by {
                if k < cur.len() {
                    assert(longer[k] == cur[k]);
                }
            }
            lemma_components_from(s, i + 1, longer, done);
            assert(components_from(s, i, cur, done) == components_from(s, i + 1, longer, done));
        }
    } else {
        assert(components_from(s, i, cur, done) == closed);
    }
}

/// The components of a path are its segments: none is empty, and none holds
/// a separator.
pub proof fn lemma_components_are_segments(s: Seq<char>)
    ensures
        forall|j: int|
            0 <= j < path_components(s).len() ==> is_segment(#[trigger] path_components(s)[j]),
{
    lemma_components_from(s, 0, Seq::empty(), Seq::empty());
}

/// A path that starts at the root.
pub open spec fn is_absolute_path(s: Seq<char>) -> bool {
    s.len() > 0 && s[0] == '/'
}

/// The component `.` or `..`.
pub open spec fn is_dot_component(c: Seq<char>) -> bool {
    c == seq!['.'] || c == seq!['.', '.']
}

/// Some component of the path is `.` or `..`.
pub open spec fn has_dot_component(s: Seq<char>) -> bool {
    exists|i: int|
        0 <= i < path_components(s).len() && is_dot_component(#[trigger] path_components(s)[i])
}

/// The path names the `Dockerfile` at the top of the build context.
pub open spec fn is_dockerfile_path(s: Seq<char>) -> bool {
    path_components(s) == seq!["Dockerfile"@]
}

/// Why a path is refused.
#[derive(Debug, Clone, Copy, PartialEq, Eq, Structural)]
pub enum PathError {
    /// The path is absolute.
    AbsolutePath,
    /// The path has a `.` or `..` component.
    InvalidPath,
    /// The path names the Dockerfile.
    Dockerfile,
}

impl PathError {
    /// Short machine-readable code of the error.
    pub open spec fn spec_code(self) -> Seq<char> {
        match self {
            PathError::AbsolutePath => "absolute_path"@,
            PathError::InvalidPath => "invalid_path"@,
            PathError::Dockerfile => "dockerfile"@,
        }
    }

    /// Message of the error.
    pub open spec fn spec_message(self) -> Seq<char> {
        match self {
            PathError::AbsolutePath => "file path must be relative"@,
            PathError::InvalidPath => "file path must not have '.' or '..'"@,
            PathError::Dockerfile => "cannot provide Dockerfile"@,
        }
    }

    /// Short machine-readable code of the error.
    pub fn code(&self) -> (s: &'static str)
        ensures
            s@ == self.spec_code(),
    {
        match self {
            PathError::AbsolutePath => "absolute_path",
            PathError::InvalidPath => "invalid_path",
            PathError::Dockerfile => "dockerfile",
        }
    }

    /// Message of the error.
    pub fn message(&self) -> (s: &'static str)
        ensures
            s@ == self.spec_message(),
    {
        match self {
            PathError::AbsolutePath => "file path must be relative",
            PathError::InvalidPath => "file path must not have '.' or '..'",
            PathError::Dockerfile => "cannot provide Dockerfile",
        }
    }
}

/// What `validate_path` answers for a path.
pub open spec fn path_verdict(s: Seq<char>) -> Result<(), PathError> {
    if is_absolute_path(s) {
        Err(PathError::AbsolutePath)
    } else if has_dot_component(s) {
        Err(PathError::InvalidPath)
    } else if is_dockerfile_path(s) {
        Err(PathError::Dockerfile)
    } else {
        Ok(())
    }
}

/// An attached-file path is valid when it is relative, has no `.` or `..`
/// component and is not the Dockerfile.
pub open spec fn valid_path(s: Seq<char>) -> bool {
    !is_absolute_path(s) && !has_dot_component(s) && !is_dockerfile_path(s)
}

/// Splits a path into its components.
pub fn split_path(path: &str) -> (parts: Vec<String>)
    ensures
        texts(parts@) == path_components(path@),
{
    let chars = chars_of(path);
    let mut parts: Vec<String> = Vec::new();
    let mut start: usize = 0;
    let mut i: usize = 0;
    proof {
        assert(chars@.subrange(0, 0) =~= Seq::<char>::empty());
        assert(texts(parts@) =~= Seq::<Seq<char>>::empty());
    }
    while i < chars.len()
        invariant
            chars@ == path@,
            start <= i <= chars.len(),
            forall|j: int| start <= j < i ==> chars@[j] != '/',
            path_components(path@) == components_from(
                path@,
                i as int,
                chars@.subrange(start as int, i as int),
                texts(parts@),
            ),
        decreases chars.len() - i,
    {
        let ghost cur = chars@.subrange(start as int, i as int);
        let ghost done = texts(parts@);
        if chars[i] == '/' {
            if start < i {
                let part = string_of(&chars, start, i);
                parts.push(part);
                assert(texts(parts@) =~= done.push(cur));
            }
            start = i + 1;
            assert(chars@.subrange(start as int, start as int) =~= Seq::<char>::empty());
        } else {
            assert(chars@.subrange(start as int, i + 1) =~= cur.push(chars@[i as int]));
        }
        i += 1;
    }
    if start < i {
        let ghost cur = chars@.subrange(start as int, i as int);
        let ghost done = texts(parts@);
        let part = string_of(&chars, start, i);
        parts.push(part);
        assert(texts(parts@) =~= done.push(cur));
    }
    parts
}

fn is_dot(part: &str) -> (b: bool)
    ensures
        b == is_dot_component(part@),
{
    let c = chars_of(part);
    let b = (c.len() == 1 && c[0] == '.') || (c.len() == 2 && c[0] == '.' && c[1] == '.');
    proof {
        if b {
            assert(c@ =~= seq!['.'] || c@ =~= seq!['.', '.']);
        } else {
            assert(seq!['.'].len() == 1 && seq!['.'][0] == '.');
            assert(seq!['.', '.'].len() == 2 && seq!['.', '.'][0] == '.' && seq!['.', '.'][1]
                == '.');
        }
    }
    b
}

/// Validates the path of an attached file.
pub fn validate_path(path: &str) -> (r: Result<(), PathError>)
    ensures
        r == path_verdict(path@),
        r is Ok <==> valid_path(path@),
{
    let chars = chars_of(path);
    if chars.len() > 0 && chars[0] == '/' {
        return Err(PathError::AbsolutePath);
    }
    assert(!is_absolute_path(path@));
    let parts = split_path(path);
    let mut i: usize = 0;
    while i < parts.len()
        invariant
            !is_absolute_path(path@),
            i <= parts.len(),
            texts(parts@) == path_components(path@),
            forall|j: int| 0 <= j < i ==> !is_dot_component(#[trigger] path_components(path@)[j]),
        decreases parts.len() - i,
    {
        assert(texts(parts@).len() == parts@.len());
        assert(texts(parts@)[i as int] == parts@[i as int]@);
        if is_dot(parts[i].as_str()) {
            assert(is_dot_component(path_components(path@)[i as int]));
            assert(has_dot_component(path@));
            return Err(PathError::InvalidPath);
        }
        i += 1;
    }
    assert(texts(parts@).len() == parts@.len());
    if parts.len() == 1 {
        assert(texts(parts@)[0] == parts@[0]@);
        let only = chars_of(parts[0].as_str());
        let name = chars_of("Dockerfile");
        if same_chars(&only, &name) {
            assert(path_components(path@) =~= seq!["Dockerfile"@]);
            return Err(PathError::Dockerfile);
        }
        assert(path_components(path@)[0] != "Dockerfile"@);
        assert(seq!["Dockerfile"@][0] == "Dockerfile"@);
    } else {
        assert(seq!["Dockerfile"@].len() == 1);
    }
    Ok(())
}

} // verus!
