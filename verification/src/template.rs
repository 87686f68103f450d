//! Dockerfile templates. A template is text with `{{ variable }}` outputs
//! and `{% if %}` blocks; the library keeps only templates of that plain
//! kind, compiled by the `liquid` crate.
//!
//! Inside an output or a tag a plain template holds nothing but letters,
//! `_`, `.`, `-`, spaces and line breaks, and every tag is one of `if`,
//! `elsif`, `else`, `endif`, `unless` and `endunless`. So a plain template
//! has no number or string literal, no filter, no loop and no assignment.

use vstd::prelude::*;
use vstd::string::*;
use crate::store::opt_text;
use crate::text::{chars_of, same_text, string_of};

verus! {

/// A template parser of the `liquid` crate.
#[verifier::external_type_specification]
#[verifier::external_body]
pub struct ExParser(liquid::Parser);

/// A compiled template of the `liquid` crate.
#[verifier::external_type_specification]
#[verifier::external_body]
pub struct ExTemplate(liquid::Template);

/// A parse or render failure of the `liquid` crate.
#[verifier::external_type_specification]
#[verifier::external_body]
pub struct ExLiquidError(liquid::Error);

/// An ASCII letter.
pub open spec fn is_ascii_letter(c: char) -> bool {
    ('a' <= c && c <= 'z') || ('A' <= c && c <= 'Z')
}

/// A space or a line break.
pub open spec fn is_tag_space(c: char) -> bool {
    c == ' ' || c == '\n' || c == '\r'
}

/// What may stand inside an output or a tag of a plain template.
pub open spec fn is_plain_tag_char(c: char) -> bool {
    is_ascii_letter(c) || is_tag_space(c) || c == '_' || c == '.' || c == '-'
}

/// The tags of a plain template.
pub open spec fn is_plain_tag(word: Seq<char>) -> bool {
    word == "if"@ || word == "elsif"@ || word == "else"@ || word == "endif"@ || word == "unless"@
        || word == "endunless"@
}

/// Where a scan of a template stands.
#[derive(Debug, Clone, Copy, PartialEq, Eq, Structural)]
pub enum Scan {
    /// In the text between outputs and tags.
    Raw,
    /// Inside `{{ }}`.
    Output,
    /// Inside `{% %}`, before the name of the tag.
    TagOpen,
    /// Inside `{% %}`, in the name of the tag, which began at `start`.
    TagName { start: usize },
    /// Inside `{% %}`, after the name of the tag.
    TagRest,
}

/// The characters at `i` and `i + 1` are `a` and `b`.
pub open spec fn pair_at(s: Seq<char>, i: int, a: char, b: char) -> bool {
    0 <= i && i + 1 < s.len() && s[i] == a && s[i + 1] == b
}

/// The rest of a template from `i` on is plain, given that the scan stands
/// at `state` there. The template must end between outputs and tags.
pub open spec fn plain_from(s: Seq<char>, i: int, state: Scan) -> bool
    decreases s.len() - i,
{
    if i < 0 || i >= s.len() {
        state is Raw
    } else {
        match state {
            Scan::Raw => if pair_at(s, i, '{', '{') {
                plain_from(s, i + 2, Scan::Output)
            } else if pair_at(s, i, '{', '%') {
                plain_from(s, i + 2, Scan::TagOpen)
            } else {
                plain_from(s, i + 1, Scan::Raw)
            },
            Scan::Output => if pair_at(s, i, '}', '}') {
                plain_from(s, i + 2, Scan::Raw)
            } else {
                is_plain_tag_char(s[i]) && plain_from(s, i + 1, Scan::Output)
            },
            Scan::TagOpen => if is_ascii_letter(s[i]) {
                i <= usize::MAX && plain_from(s, i + 1, Scan::TagName { start: i as usize })
            } else {
                (is_tag_space(s[i]) || s[i] == '-') && plain_from(s, i + 1, Scan::TagOpen)
            },
            Scan::TagName { start } => if is_ascii_letter(s[i]) {
                plain_from(s, i + 1, Scan::TagName { start })
            } else if !(start <= i && is_plain_tag(s.subrange(start as int, i))) {
                false
            } else if pair_at(s, i, '%', '}') {
                plain_from(s, i + 2, Scan::Raw)
            } else {
                is_tag_space(s[i]) && plain_from(s, i + 1, Scan::TagRest)
            },
            Scan::TagRest => if pair_at(s, i, '%', '}') {
                plain_from(s, i + 2, Scan::Raw)
            } else {
                is_plain_tag_char(s[i]) && plain_from(s, i + 1, Scan::TagRest)
            },
        }
    }
}

/// A plain template: every output holds a variable or a word, every tag is
/// an `if` or `unless` tag over variables and words, and outputs and tags
/// are closed.
pub open spec fn plain_template(s: Seq<char>) -> bool {
    plain_from(s, 0, Scan::Raw)
}

fn is_letter(c: char) -> (b: bool)
    ensures
        b == is_ascii_letter(c),
{
    ('a' <= c && c <= 'z') || ('A' <= c && c <= 'Z')
}

fn is_space(c: char) -> (b: bool)
    ensures
        b == is_tag_space(c),
{
    c == ' ' || c == '\n' || c == '\r'
}

fn is_tag_char(c: char) -> (b: bool)
    ensures
        b == is_plain_tag_char(c),
{
    is_letter(c) || is_space(c) || c == '_' || c == '.' || c == '-'
}

fn is_pair(chars: &Vec<char>, i: usize, a: char, b: char) -> (r: bool)
    requires
        i < chars.len(),
    ensures
        r == pair_at(chars@, i as int, a, b),
{
    chars[i] == a && i + 1 < chars.len() && chars[i + 1] == b
}

fn is_tag_name(chars: &Vec<char>, start: usize, end: usize) -> (b: bool)
    requires
        start <= end <= chars.len(),
    ensures
        b == is_plain_tag(chars@.subrange(start as int, end as int)),
{
    let word = string_of(chars, start, end);
    let w = word.as_str();
    same_text(w, "if") || same_text(w, "elsif") || same_text(w, "else") || same_text(w, "endif")
        || same_text(w, "unless") || same_text(w, "endunless")
}

/// Whether a template is plain.
pub fn is_plain_template(text: &str) -> (b: bool)
    ensures
        b == plain_template(text@),
{
    let chars = chars_of(text);
    let mut state = Scan::Raw;
    let mut i: usize = 0;
    while i < chars.len()
        invariant
            chars@ == text@,
            i <= chars.len(),
            plain_template(text@) == plain_from(text@, i as int, state),
        decreases chars.len() - i,
    {
        let c = chars[i];
        match state {
            Scan::Raw => {
                if is_pair(&chars, i, '{', '{') {
                    state = Scan::Output;
                    i += 2;
                } else if is_pair(&chars, i, '{', '%') {
                    state = Scan::TagOpen;
                    i += 2;
                } else {
                    i += 1;
                }
            },
            Scan::Output => {
                if is_pair(&chars, i, '}', '}') {
                    state = Scan::Raw;
                    i += 2;
                } else if is_tag_char(c) {
                    i += 1;
                } else {
                    return false;
                }
            },
            Scan::TagOpen => {
                if is_letter(c) {
                    state = Scan::TagName { start: i };
                    i += 1;
                } else if is_space(c) || c == '-' {
                    i += 1;
                } else {
                    return false;
                }
            },
            Scan::TagName { start } => {
                if is_letter(c) {
                    i += 1;
                } else if !(start <= i && is_tag_name(&chars, start, i)) {
                    return false;
                } else if is_pair(&chars, i, '%', '}') {
                    state = Scan::Raw;
                    i += 2;
                } else if is_space(c) {
                    state = Scan::TagRest;
                    i += 1;
                } else {
                    return false;
                }
            },
            Scan::TagRest => {
                if is_pair(&chars, i, '%', '}') {
                    state = Scan::Raw;
                    i += 2;
                } else if is_tag_char(c) {
                    i += 1;
                } else {
                    return false;
                }
            },
        }
    }
    match state {
        Scan::Raw => true,
        _ => false,
    }
}

/// Whether the parser of the `liquid` crate, with its standard tags, blocks
/// and filters, takes `text` as a template.
pub uninterp spec fn template_parses(text: Seq<char>) -> bool;

/// What the `liquid` crate renders the plain template `source` to when its
/// globals bind each variable of `vars` to its text, or to nil where it has
/// none; `None` where the rendering fails. A plain template has no filter
/// and no literal, so nothing but its text and the variables goes into the
/// result.
pub uninterp spec fn rendered(
    source: Seq<char>,
    vars: Seq<(Seq<char>, Option<Seq<char>>)>,
) -> Option<Seq<char>>;

/// The texts of a list of template variables.
pub open spec fn var_texts(vars: Seq<(String, Option<String>)>) -> Seq<(Seq<char>, Option<Seq<char>>)> {
    vars.map_values(|v: (String, Option<String>)| (v.0@, opt_text(v.1)))
}

/// The parser with the standard tags, blocks and filters. Only
/// `stdlib_parser` makes one.
pub struct StdlibParser {
    parser: liquid::Parser,
}

/// A compiled plain template with its source. Only `parse_template` makes
/// one, and only from a plain template that the parser takes.
pub struct DockerfileTemplate {
    source: String,
    compiled: liquid::Template,
}

impl DockerfileTemplate {
    /// The text that the template was compiled from.
    pub closed spec fn source_text(&self) -> Seq<char> {
        self.source@
    }

    #[verifier::type_invariant]
    spec fn compiled_from_plain_text(&self) -> bool {
        plain_template(self.source@) && template_parses(self.source@)
    }

    /// The text that the template was compiled from.
    pub fn source(&self) -> (s: &str)
        ensures
            s@ == self.source_text(),
            plain_template(s@),
            template_parses(s@),
    {
        proof {
            use_type_invariant(self);
        }
        self.source.as_str()
    }
}

/// Builds a parser with the standard tags, blocks and filters, through
/// `liquid::ParserBuilder::with_stdlib` and `build`. The build can only fail
/// while it compiles partial templates, and a builder made by `with_stdlib`
/// holds none, so the parser is always there.
#[verifier::external_body]
pub(crate) fn stdlib_parser() -> (r: Result<StdlibParser, liquid::Error>)
    ensures
        r is Ok,
{
    match liquid::ParserBuilder::with_stdlib().build() {
        Ok(parser) => Ok(StdlibParser { parser }),
        Err(err) => Err(err),
    }
}

/// Compiles a plain template through `liquid::Parser::parse`, and keeps
/// the text beside what was compiled. Whether the text is a template is a
/// matter of the text alone, named by `template_parses`. Text that is not
/// plain is left out: the parser cannot read a number outside 64 bits.
#[verifier::external_body]
pub(crate) fn parse_template(parser: &StdlibParser, text: &str) -> (r: Result<
    DockerfileTemplate,
    liquid::Error,
>)
    requires
        plain_template(text@),
    ensures
        r is Ok <==> template_parses(text@),
        r matches Ok(t) ==> t.source_text() == text@,
{
    match parser.parser.parse(text) {
        Ok(compiled) => Ok(DockerfileTemplate { source: text.to_owned(), compiled }),
        Err(err) => Err(err),
    }
}

/// Renders a plain template through `liquid::Template::render`, with the
/// variables turned into the template's globals by `liquid::to_object`: a
/// variable with text is bound to that text, one without is bound to nil.
/// A plain template holds no filter and no literal, so rendering does no
/// arithmetic and reads no clock: the text that comes back, and whether one
/// comes back, is a matter of the template and the variables alone, named
/// by `rendered`. Nothing is said of the words of a failure.
#[verifier::external_body]
pub(crate) fn render_template(template: &DockerfileTemplate, vars: &Vec<(String, Option<String>)>) -> (r:
    Result<String, liquid::Error>)
    requires
        plain_template(template.source_text()),
    ensures
        match r {
            Ok(text) => rendered(template.source_text(), var_texts(vars@)) == Some(text@),
            Err(_) => rendered(template.source_text(), var_texts(vars@)) is None,
        },
{
    let bound: std::collections::BTreeMap<&str, &Option<String>> =
        vars.iter().map(|v| (v.0.as_str(), &v.1)).collect();
    template.compiled.render(&liquid::to_object(&bound)?)
}

/// The words of a `liquid::Error`, through its `Display`.
#[verifier::external_body]
pub(crate) fn liquid_error_text(err: &liquid::Error) -> (s: String) {
    err.to_string()
}

impl DockerfileTemplate {
    /// Renders the template with the given variables. Returns the text that
    /// the template renders to with these variables, or the words of the
    /// failure where it renders to none.
    pub fn render(&self, vars: &Vec<(String, Option<String>)>) -> (r: Result<String, String>)
        ensures
            match r {
                Ok(text) => rendered(self.source_text(), var_texts(vars@)) == Some(text@),
                Err(_) => rendered(self.source_text(), var_texts(vars@)) is None,
            },
    {
        proof {
            use_type_invariant(self);
        }
        match render_template(self, vars) {
            Ok(text) => Ok(text),
            Err(err) => Err(liquid_error_text(&err)),
        }
    }
}

/// The parser with the standard tags, blocks and filters.
pub fn template_parser() -> (r: Result<StdlibParser, String>)
    ensures
        r is Ok,
{
    match stdlib_parser() {
        Ok(parser) => Ok(parser),
        Err(err) => Err(liquid_error_text(&err)),
    }
}

} // verus!
