//! Checks on user-supplied dependency names before they are interpolated
//! into a shell `RUN` line of a Dockerfile.
//!
//! The allow-list covers what package managers need: alphanumerics and
//! `_ - .` for plain names, `/` for Go module paths, `:` for Go and cargo
//! specifiers, `@` for npm scopes and version pins, `^ ~ > < =` for semver
//! ranges and `[ ]` for Python extras. Shell metacharacters are outside it.

use vstd::prelude::*;
use vstd::string::*;
use crate::text::{chars_of, texts};

verus! {

/// Whether `char::is_alphanumeric` holds of `c`: the Unicode properties
/// Alphabetic or Numeric (general categories Nd, Nl, No).
pub uninterp spec fn char_is_alphanumeric(c: char) -> bool;

/// How `{:?}` renders `c`: between single quotes, escaped as
/// `char::escape_debug` does.
pub uninterp spec fn char_debug(c: char) -> Seq<char>;

/// The ASCII letters and digits.
pub open spec fn is_ascii_alphanumeric(c: char) -> bool {
    ('a' <= c && c <= 'z') || ('A' <= c && c <= 'Z') || ('0' <= c && c <= '9')
}

/// `char::is_alphanumeric` of std. Its result is named by
/// `char_is_alphanumeric`; within ASCII, Unicode counts exactly the letters
/// `a`-`z`, `A`-`Z` and the digits `0`-`9` as alphabetic or numeric.
pub assume_specification[ char::is_alphanumeric ](c: char) -> (b: bool)
    ensures
        b == char_is_alphanumeric(c),
        (c as u32) < 128 ==> b == is_ascii_alphanumeric(c),
;

/// The `Debug` rendering of a character by std's formatter, named by
/// `char_debug`.
#[verifier::external_body]
fn debug_char(c: char) -> (s: String)
    ensures
        s@ == char_debug(c),
{
    format!("{:?}", c)
}

/// The punctuation of the allow-list: `_ - . / : @ ^ ~ > < = [ ]`.
pub open spec fn is_dep_punctuation(c: char) -> bool {
    c == '_' || c == '-' || c == '.' || c == '/' || c == ':' || c == '@' || c == '^' || c == '~'
        || c == '>' || c == '<' || c == '=' || c == '[' || c == ']'
}

/// The allow-list for one character of a dependency name.
pub open spec fn safe_dep_char(c: char) -> bool {
    char_is_alphanumeric(c) || is_dep_punctuation(c)
}

/// Within ASCII, only letters, digits and the punctuation of the
/// allow-list pass: no whitespace, quote, or shell metacharacter such as
/// `;`, `&`, `|`, `` ` `` or `$` does.
pub open spec fn plain_if_ascii(c: char) -> bool {
    (c as u32) < 128 ==> is_ascii_alphanumeric(c) || is_dep_punctuation(c)
}

/// Whether a character is on the allow-list.
pub fn is_safe_dep_char(c: char) -> (b: bool)
    ensures
        b == safe_dep_char(c),
        b ==> plain_if_ascii(c),
{
    c.is_alphanumeric() || c == '_' || c == '-' || c == '.' || c == '/' || c == ':' || c == '@'
        || c == '^' || c == '~' || c == '>' || c == '<' || c == '=' || c == '[' || c == ']'
}

/// Index of the first character at or after `from` that is outside the
/// allow-list; the length of `s` if there is none.
pub open spec fn first_unsafe_from(s: Seq<char>, from: int) -> int
    decreases s.len() - from,
{
    if from < 0 || from >= s.len() {
        s.len() as int
    } else if !safe_dep_char(s[from]) {
        from
    } else {
        first_unsafe_from(s, from + 1)
    }
}

/// Index of the first character of `s` outside the allow-list; the length of
/// `s` if there is none.
pub open spec fn first_unsafe_index(s: Seq<char>) -> int {
    first_unsafe_from(s, 0)
}

/// A dependency name is accepted when it is not empty and every character is
/// on the allow-list.
pub open spec fn valid_dependency_name(s: Seq<char>) -> bool {
    s.len() >= 1 && forall|i: int| 0 <= i < s.len() ==> safe_dep_char(#[trigger] s[i])
}

/// The reason a name is rejected.
pub open spec fn dependency_error_message(s: Seq<char>) -> Seq<char> {
    if s.len() == 0 {
        "dependency name must not be empty"@
    } else {
        "dependency name contains forbidden character "@ + char_debug(s[first_unsafe_index(s)])
            + " — only alphanumerics and _ - . / : @ ^ ~ > < = [ ] are allowed"@
    }
}

/// `first_unsafe_from` finds the first offending character at or after
/// `from`, and none before it.
pub proof fn lemma_first_unsafe_from(s: Seq<char>, from: int)
    requires
        0 <= from <= s.len(),
    ensures
        from <= first_unsafe_from(s, from) <= s.len(),
        first_unsafe_from(s, from) < s.len() ==> !safe_dep_char(s[first_unsafe_from(s, from)]),
        forall|j: int| from <= j < first_unsafe_from(s, from) ==> safe_dep_char(#[trigger] s[j]),
    decreases s.len() - from,
{
    if from < s.len() && safe_dep_char(s[from]) {
        lemma_first_unsafe_from(s, from + 1);
    }
}

/// Validates one dependency name so that it is safe to interpolate into a
/// Dockerfile `RUN` shell command.
pub fn validate_dependency_name(name: &str) -> (r: Result<(), String>)
    ensures
        r is Ok <==> valid_dependency_name(name@),
        r is Err <==> name@.len() == 0 || exists|i: int|
            0 <= i < name@.len() && !safe_dep_char(#[trigger] name@[i]),
        r matches Err(msg) ==> msg@ == dependency_error_message(name@),
        r is Ok ==> forall|i: int| 0 <= i < name@.len() ==> plain_if_ascii(#[trigger] name@[i]),
{
    let chars = chars_of(name);
    if chars.len() == 0 {
        return Err("dependency name must not be empty".to_owned());
    }
    let mut i: usize = 0;
    while i < chars.len()
        invariant
            chars@ == name@,
            i <= chars.len(),
            first_unsafe_index(name@) == first_unsafe_from(name@, i as int),
            forall|j: int| 0 <= j < i ==> safe_dep_char(#[trigger] name@[j]),
            forall|j: int| 0 <= j < i ==> plain_if_ascii(#[trigger] name@[j]),
        decreases chars.len() - i,
    {
        let c = chars[i];
        if !is_safe_dep_char(c) {
            let mut msg = "dependency name contains forbidden character ".to_owned();
            let shown = debug_char(c);
            msg.append(shown.as_str());
            msg.append(" — only alphanumerics and _ - . / : @ ^ ~ > < = [ ] are allowed");
            assert(!safe_dep_char(name@[i as int]));
            return Err(msg);
        }
        i += 1;
    }
    Ok(())
}

/// Index of the first name at or after `from` that is rejected; the length
/// of `deps` if there is none.
pub open spec fn first_invalid_from(deps: Seq<Seq<char>>, from: int) -> int
    decreases deps.len() - from,
{
    if from < 0 || from >= deps.len() {
        deps.len() as int
    } else if !valid_dependency_name(deps[from]) {
        from
    } else {
        first_invalid_from(deps, from + 1)
    }
}

/// Index of the first rejected name; the length of `deps` if all are valid.
pub open spec fn first_invalid_dep(deps: Seq<Seq<char>>) -> int {
    first_invalid_from(deps, 0)
}

/// Every name of the list is accepted.
pub open spec fn valid_deps(deps: Seq<Seq<char>>) -> bool {
    forall|i: int| 0 <= i < deps.len() ==> valid_dependency_name(#[trigger] deps[i])
}

/// The message for a list whose first rejected name is `dep`.
pub open spec fn deps_error_message(dep: Seq<char>) -> Seq<char> {
    "Invalid dependency name '"@ + dep + "': "@ + dependency_error_message(dep)
}

/// `first_invalid_from` finds the first rejected name at or after `from`.
pub proof fn lemma_first_invalid_from(deps: Seq<Seq<char>>, from: int)
    requires
        0 <= from <= deps.len(),
    ensures
        from <= first_invalid_from(deps, from) <= deps.len(),
        first_invalid_from(deps, from) < deps.len() ==> !valid_dependency_name(
            deps[first_invalid_from(deps, from)],
        ),
        forall|j: int|
            from <= j < first_invalid_from(deps, from) ==> valid_dependency_name(
                #[trigger] deps[j],
            ),
    decreases deps.len() - from,
{
    if from < deps.len() && valid_dependency_name(deps[from]) {
        lemma_first_invalid_from(deps, from + 1);
    }
}

/// Validates a list of dependency names, failing on the first that is
/// rejected.
pub fn validate_deps_input(deps: &[String]) -> (r: Result<(), String>)
    ensures
        r is Ok <==> valid_deps(texts(deps@)),
        r matches Err(msg) ==> {
            &&& 0 <= first_invalid_dep(texts(deps@)) < deps@.len()
            &&& msg@ == deps_error_message(texts(deps@)[first_invalid_dep(texts(deps@))])
        },
{
    let ghost all = texts(deps@);
    let mut i: usize = 0;
    while i < deps.len()
        invariant
            all == texts(deps@),
            i <= deps.len(),
            first_invalid_dep(all) == first_invalid_from(all, i as int),
            forall|j: int| 0 <= j < i ==> valid_dependency_name(#[trigger] all[j]),
        decreases deps.len() - i,
    {
        let dep = &deps[i];
        assert(all[i as int] == dep@);
        match validate_dependency_name(dep.as_str()) {
            Ok(()) => {},
            Err(err) => {
                let mut msg = "Invalid dependency name '".to_owned();
                msg.append(dep.as_str());
                msg.append("': ");
                msg.append(err.as_str());
                return Err(msg);
            },
        }
        i += 1;
    }
    Ok(())
}

} // verus!
