use crate::errors::ConfigError;
use vstd::prelude::*;

verus! {

/// The pattern of a section header: a name between square brackets.
pub const SECTION_PATTERN: &'static str = r"\[([^\]]+)\]";

/// The pattern of an assignment: a key, an equals sign, and a value that may be blank.
pub const ASSIGNMENT_PATTERN: &'static str = r"\s*([^\s]+)\s*=\s*([^\s]*)\s*";

/// An error of the `regex` crate: a pattern that it does not compile.
#[verifier::external_type_specification]
#[verifier::external_body]
pub struct ExRegexError(regex::Error);

/// Whether `regex::Regex::new` compiles `pattern`.
pub uninterp spec fn regex_accepts(pattern: Seq<char>) -> bool;

/// What `regex::Regex::captures` finds of `pattern` in `haystack`: `None` where
/// the pattern matches nowhere, else the text of each capture group of the
/// leftmost match, group 0 (the whole match) first, `None` for a group that
/// took no part in the match.
pub uninterp spec fn regex_groups(pattern: Seq<char>, haystack: Seq<char>) -> Option<
    Seq<Option<Seq<char>>>,
>;

/// Whether `char::is_whitespace` holds of `c`. std documents it as the
/// Unicode property White_Space and lists no code points, so none are listed
/// here.
pub uninterp spec fn is_whitespace(c: char) -> bool;

/// `s` without its leading whitespace.
pub open spec fn trimmed_start(s: Seq<char>) -> Seq<char>
    decreases s.len(),
{
    if s.len() > 0 && is_whitespace(s.first()) {
        trimmed_start(s.drop_first())
    } else {
        s
    }
}

/// `s` without its trailing whitespace.
pub open spec fn trimmed_end(s: Seq<char>) -> Seq<char>
    decreases s.len(),
{
    if s.len() > 0 && is_whitespace(s.last()) {
        trimmed_end(s.drop_last())
    } else {
        s
    }
}

/// `s` without its leading and trailing whitespace.
pub open spec fn trimmed(s: Seq<char>) -> Seq<char> {
    trimmed_end(trimmed_start(s))
}

/// `str::trim` of std: the slice that is left when leading and trailing
/// whitespace, as `char::is_whitespace` tells it, is removed.
pub assume_specification[ str::trim ](s: &str) -> (r: &str)
    ensures
        r@ == trimmed(s@),
        r@.len() > 0 ==> !is_whitespace(r@.first()) && !is_whitespace(r@.last()),
;

/// Compiles `pattern` with `regex::Regex::new` and searches `haystack` with
/// `regex::Regex::captures`. The contract claims that the crate rejects a
/// pattern or not by the pattern alone, and that what it captures depends on
/// the pattern and the haystack alone; it says nothing of what is captured.
#[verifier::external_body]
fn capture_groups(pattern: &str, haystack: &str) -> (r: Result<
    Option<Vec<Option<String>>>,
    regex::Error,
>)
    ensures
        r is Ok <==> regex_accepts(pattern@),
        r matches Ok(found) ==> found.deep_view() == regex_groups(pattern@, haystack@),
{
    let compiled = regex::Regex::new(pattern)?;
    Ok(
        compiled.captures(haystack).map(
            |found| found.iter().map(|group| group.map(|m| m.as_str().to_owned())).collect(),
        ),
    )
}

/// The shape of one line of a credentials file.
#[derive(Clone, Debug, PartialEq, Eq)]
pub enum LineShape {
    /// A section header, with the name between its brackets.
    Section(String),
    /// An assignment, with its key and its value.
    Assignment(String, Option<String>),
    /// Anything else: such a line is passed over.
    Other,
}

/// A line's shape over plain text.
pub enum LineShapeView {
    Section(Seq<char>),
    Assignment(Seq<char>, Option<Seq<char>>),
    Other,
}

impl DeepView for LineShape {
    type V = LineShapeView;

    open spec fn deep_view(&self) -> LineShapeView {
        match self {
            LineShape::Section(name) => LineShapeView::Section(name@),
            LineShape::Assignment(key, value) => LineShapeView::Assignment(
                key@,
                value.deep_view(),
            ),
            LineShape::Other => LineShapeView::Other,
        }
    }
}

/// The shape that the capture groups of a section header stand for: the first
/// group is the section's name.
pub open spec fn section_shape(groups: Seq<Option<Seq<char>>>) -> LineShapeView {
    if groups.len() > 1 && groups[1] is Some {
        LineShapeView::Section(groups[1]->0)
    } else {
        LineShapeView::Other
    }
}

/// The shape that the capture groups of an assignment stand for: the first
/// group is the key, the second the value.
pub open spec fn assignment_shape(groups: Seq<Option<Seq<char>>>) -> LineShapeView {
    if groups.len() > 1 && groups[1] is Some {
        LineShapeView::Assignment(
            groups[1]->0,
            if groups.len() > 2 {
                groups[2]
            } else {
                None
            },
        )
    } else {
        LineShapeView::Other
    }
}

/// The shape of the line `raw`, or `None` where a pattern of the grammar is
/// not accepted. The line is trimmed, then held against the section pattern,
/// and only where that does not match against the assignment pattern.
pub open spec fn line_shape(raw: Seq<char>) -> Option<LineShapeView> {
    let line = trimmed(raw);
    if !regex_accepts(SECTION_PATTERN@) {
        None
    } else {
        match regex_groups(SECTION_PATTERN@, line) {
            Some(groups) => Some(section_shape(groups)),
            None => if !regex_accepts(ASSIGNMENT_PATTERN@) {
                None
            } else {
                match regex_groups(ASSIGNMENT_PATTERN@, line) {
                    Some(groups) => Some(assignment_shape(groups)),
                    None => Some(LineShapeView::Other),
                }
            },
        }
    }
}

/// Reads a section header off the capture groups of a match of the section pattern.
pub fn section_of(groups: Vec<Option<String>>) -> (r: LineShape)
    ensures
        r.deep_view() == section_shape(groups.deep_view()),
{
    let mut groups = groups;
    if groups.len() > 1 {
        let ghost all = groups.deep_view();
        let name = groups.swap_remove(1);
        assert(name.deep_view() == all[1]);
        match name {
            Some(name) => LineShape::Section(name),
            None => LineShape::Other,
        }
    } else {
        LineShape::Other
    }
}

/// Reads an assignment off the capture groups of a match of the assignment pattern.
pub fn assignment_of(groups: Vec<Option<String>>) -> (r: LineShape)
    ensures
        r.deep_view() == assignment_shape(groups.deep_view()),
{
    let mut groups = groups;
    let ghost all = groups.deep_view();
    let value = if groups.len() > 2 {
        let value = groups.swap_remove(2);
        assert(value.deep_view() == all[2]);
        assert(groups.deep_view()[1] == all[1]);
        value
    } else {
        None
    };
    if groups.len() > 1 {
        let key = groups.swap_remove(1);
        assert(key.deep_view() == all[1]);
        match key {
            Some(key) => LineShape::Assignment(key, value),
            None => LineShape::Other,
        }
    } else {
        LineShape::Other
    }
}

/// Tells the shape of one line of a credentials file.
pub fn classify_line(raw: &str) -> (r: Result<LineShape, ConfigError>)
    ensures
        r is Ok <==> line_shape(raw@) is Some,
        r matches Ok(shape) ==> Some(shape.deep_view()) == line_shape(raw@),
        r matches Err(e) ==> e == ConfigError::LineGrammar,
{
    let line = raw.trim();
    match capture_groups(SECTION_PATTERN, line) {
        Err(_) => Err(ConfigError::LineGrammar),
        Ok(Some(groups)) => Ok(section_of(groups)),
        Ok(None) => match capture_groups(ASSIGNMENT_PATTERN, line) {
            Err(_) => Err(ConfigError::LineGrammar),
            Ok(Some(groups)) => Ok(assignment_of(groups)),
            Ok(None) => Ok(LineShape::Other),
        },
    }
}

} // verus!
