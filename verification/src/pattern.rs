//! Regular expressions that sort the lines of the text into headings and text.
use crate::config::Config;
use crate::text::is_white_space;
use vstd::prelude::*;
use vstd::string::to_string_from_display_ensures;

verus! {

/// A compiled regular expression of the `regex` crate.
#[verifier::external_type_specification]
#[verifier::external_body]
pub struct ExRegex(regex::Regex);

/// The error `regex::Regex::new` gives for a pattern it refuses.
#[verifier::external_type_specification]
#[verifier::external_body]
pub struct ExRegexError(regex::Error);

/// Whether `regex::Regex::new` accepts `pattern` (it refuses patterns with a
/// syntax error and patterns whose program would exceed the default size
/// limit).
pub uninterp spec fn regex_compiles(pattern: Seq<char>) -> bool;

/// Whether the regular expression `pattern` matches somewhere in `haystack`.
pub uninterp spec fn regex_matches(pattern: Seq<char>, haystack: Seq<char>) -> bool;

/// The pattern a compiled expression was built from, as
/// `regex::Regex::as_str` gives it back.
pub uninterp spec fn regex_source(re: regex::Regex) -> Seq<char>;

/// The text (`Display`) of the error `regex::Regex::new` gives for `pattern`.
pub uninterp spec fn regex_error_text(pattern: Seq<char>) -> Seq<char>;

/// Calls `regex::Regex::new`. The contract claims that the call succeeds
/// exactly on the patterns that `regex_compiles` names, that the expression
/// it gives keeps `pattern` as its source (`as_str`), and that the text
/// of the error it gives otherwise is `regex_error_text` of the pattern
/// (the error is built from the pattern alone, so its text is too).
#[verifier::external_body]
fn regex_new(pattern: &str) -> (res: Result<regex::Regex, regex::Error>)
    ensures
        res is Ok <==> regex_compiles(pattern@),
        res matches Ok(r) ==> regex_source(r) == pattern@,
        res matches Err(e) ==> forall|text: String|
            #[trigger] to_string_from_display_ensures::<regex::Error>(&e, text) ==> text@
                == regex_error_text(pattern@),
{
    regex::Regex::new(pattern)
}

/// A compiled regular expression; its view is the pattern it was compiled
/// from.
pub struct LinePattern {
    re: regex::Regex,
}

impl View for LinePattern {
    type V = Seq<char>;

    closed spec fn view(&self) -> Seq<char> {
        regex_source(self.re)
    }
}

/// Calls `regex::Regex::is_match`. The contract claims that the answer is
/// `regex_matches` of the pattern `re` was compiled from and of the
/// haystack: whether the expression matches anywhere in `haystack`. Of the
/// pattern `^\s*$` it claims what the crate documents: `\s` is the Unicode
/// White_Space class and `^`, `$` (without the multi-line flag) are the
/// start and end of the haystack, so it matches exactly the haystacks made
/// of white space only.
#[verifier::external_body]
fn regex_is_match(re: &regex::Regex, haystack: &str) -> (res: bool)
    ensures
        res == regex_matches(regex_source(*re), haystack@),
        regex_source(*re) == "^\\s*$"@ ==> (res <==> forall|i: int|
            0 <= i < haystack@.len() ==> is_white_space(#[trigger] haystack@[i])),
{
    re.is_match(haystack)
}

/// A pattern that the regular expression engine refused, with the text of
/// the engine's error.
#[derive(Debug)]
pub struct PatternError {
    pub pattern: String,
    pub message: String,
}

impl LinePattern {
    /// Compiles `pattern`.
    pub fn new(pattern: &str) -> (res: Result<LinePattern, PatternError>)
        ensures
            res is Ok <==> regex_compiles(pattern@),
            res matches Ok(p) ==> p@ == pattern@,
            res matches Err(e) ==> e.pattern@ == pattern@ && e.message@ == regex_error_text(pattern@),
    {
        match regex_new(pattern) {
            Ok(re) => Ok(LinePattern { re }),
            Err(e) => Err(PatternError { pattern: String::from_str(pattern), message: e.to_string() }),
        }
    }

    /// Whether the expression matches somewhere in `haystack`.
    pub fn is_match(&self, haystack: &str) -> (res: bool)
        ensures
            res == regex_matches(self@, haystack@),
            self@ == "^\\s*$"@ ==> (res <==> forall|i: int|
                0 <= i < haystack@.len() ==> is_white_space(#[trigger] haystack@[i])),
    {
        regex_is_match(&self.re, haystack)
    }
}

/// What a line of the text is.
#[derive(Debug, Clone, Copy, PartialEq, Eq, Structural)]
pub enum LineKind {
    /// Only white space: skipped.
    Blank,
    /// The heading of a chapter.
    Chapter,
    /// The heading of a sub-chapter.
    Subchapter,
    /// Body text.
    Text,
}

/// The kind of a line from what the expressions say of it: blank first,
/// then chapter heading, then sub-chapter heading, else text.
pub open spec fn line_kind_spec(is_blank: bool, is_chapter: bool, is_subchapter: bool) -> LineKind {
    if is_blank {
        LineKind::Blank
    } else if is_chapter {
        LineKind::Chapter
    } else if is_subchapter {
        LineKind::Subchapter
    } else {
        LineKind::Text
    }
}

impl LineKind {
    /// The kind of a line from whether it is blank, whether it matches the
    /// chapter expression, and whether it is a sub-chapter heading.
    pub fn from_matches(is_blank: bool, is_chapter: bool, is_subchapter: bool) -> (res: LineKind)
        ensures
            res == line_kind_spec(is_blank, is_chapter, is_subchapter),
    {
        if is_blank {
            LineKind::Blank
        } else if is_chapter {
            LineKind::Chapter
        } else if is_subchapter {
            LineKind::Subchapter
        } else {
            LineKind::Text
        }
    }
}

/// The pattern of lines that are only white space.
pub open spec fn blank_pattern() -> Seq<char> {
    "^\\s*$"@
}

/// The sub-chapter pattern used when the settings give none (it is
/// compiled but never consulted).
pub open spec fn unused_subchapter_pattern() -> Seq<char> {
    "^\\s+$"@
}

/// The sub-chapter pattern of the settings `conf`.
pub open spec fn subchapter_pattern(conf_subchapter: Seq<char>) -> Seq<char> {
    if conf_subchapter.len() == 0 {
        unused_subchapter_pattern()
    } else {
        conf_subchapter
    }
}

/// The patterns that sort lines.
pub struct LineRulesView {
    pub chapter: Seq<char>,
    pub subchapter: Seq<char>,
    pub blank: Seq<char>,
    pub use_subchapter: bool,
}

/// The kind of the line `line` under the rules `r`.
pub open spec fn classify_spec(r: LineRulesView, line: Seq<char>) -> LineKind {
    line_kind_spec(
        regex_matches(r.blank, line),
        regex_matches(r.chapter, line),
        r.use_subchapter && regex_matches(r.subchapter, line),
    )
}

/// The expressions that sort the lines of a text.
pub struct LineRules {
    chapter: LinePattern,
    subchapter: LinePattern,
    blank: LinePattern,
    use_subchapter: bool,
}

impl View for LineRules {
    type V = LineRulesView;

    closed spec fn view(&self) -> LineRulesView {
        LineRulesView {
            chapter: self.chapter@,
            subchapter: self.subchapter@,
            blank: self.blank@,
            use_subchapter: self.use_subchapter,
        }
    }
}

impl LineRules {
    /// The blank-line expression is always `^\s*$`.
    #[verifier::type_invariant]
    spec fn blank_rule_is_white_space(self) -> bool {
        self.blank@ == "^\\s*$"@
    }

    /// Compiles the chapter pattern, the sub-chapter pattern (a stand-in
    /// when the settings give none) and the blank-line pattern, in that
    /// order; the first that fails is the error.
    pub fn new(conf: &Config) -> (res: Result<LineRules, PatternError>)
        ensures
            res is Ok <==> (regex_compiles(conf.chapter@) && regex_compiles(
                subchapter_pattern(conf.subchapter@),
            ) && regex_compiles(blank_pattern())),
            res matches Ok(r) ==> r@ == (LineRulesView {
                chapter: conf.chapter@,
                subchapter: subchapter_pattern(conf.subchapter@),
                blank: blank_pattern(),
                use_subchapter: conf.subchapter@.len() > 0,
            }),
            res matches Err(e) ==> e.pattern@ == (if !regex_compiles(conf.chapter@) {
                conf.chapter@
            } else if !regex_compiles(subchapter_pattern(conf.subchapter@)) {
                subchapter_pattern(conf.subchapter@)
            } else {
                blank_pattern()
            }),
            res matches Err(e) ==> e.message@ == regex_error_text(e.pattern@),
    {
        let chapter = match LinePattern::new(conf.chapter.as_str()) {
            Ok(p) => p,
            Err(e) => {
                return Err(e);
            },
        };
        let use_subchapter = !conf.subchapter.as_str().is_empty();
        let subchapter = if use_subchapter {
            LinePattern::new(conf.subchapter.as_str())
        } else {
            LinePattern::new("^\\s+$")
        };
        let subchapter = match subchapter {
            Ok(p) => p,
            Err(e) => {
                return Err(e);
            },
        };
        let blank = match LinePattern::new("^\\s*$") {
            Ok(p) => p,
            Err(e) => {
                return Err(e);
            },
        };
        Ok(LineRules { chapter, subchapter, blank, use_subchapter })
    }

    /// The kind of `line`. A line is blank (and skipped) exactly when every
    /// character of it is Unicode white space.
    pub fn classify(&self, line: &str) -> (res: LineKind)
        ensures
            res == classify_spec(self@, line@),
            res == LineKind::Blank <==> forall|i: int|
                0 <= i < line@.len() ==> is_white_space(#[trigger] line@[i]),
    {
        proof {
            use_type_invariant(&*self);
        }
        let is_blank = self.blank.is_match(line);
        let is_chapter = !is_blank && self.chapter.is_match(line);
        let is_subchapter = !is_blank && !is_chapter && self.use_subchapter
            && self.subchapter.is_match(line);
        LineKind::from_matches(is_blank, is_chapter, is_subchapter)
    }

    pub fn uses_subchapters(&self) -> (res: bool)
        ensures
            res == self@.use_subchapter,
    {
        self.use_subchapter
    }
}

} // verus!
