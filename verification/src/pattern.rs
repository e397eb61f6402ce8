use vstd::prelude::*;

verus! {

#[verifier::external_type_specification]
#[verifier::external_body]
pub struct ExRegex(regex::Regex);

/// Whether `regex::Regex::new` accepts the pattern.
pub uninterp spec fn regex_compiles(pattern: Seq<char>) -> bool;

/// What `regex::Regex::is_match` answers for the compiled pattern on the text.
pub uninterp spec fn regex_is_match(pattern: Seq<char>, text: Seq<char>) -> bool;

/// What `regex::Regex::captures` followed by `Captures::name` gives for the
/// compiled pattern, the text and the name of a capture group: `None` when
/// the pattern does not match, `Some(None)` when the group took no part in
/// the match, and otherwise the text the group matched.
pub uninterp spec fn regex_capture_group(pattern: Seq<char>, text: Seq<char>, group: Seq<char>) -> Option<Option<Seq<char>>>;

/// A compiled regular expression together with the pattern it was compiled from.
pub struct Pattern {
    source: String,
    compiled: regex::Regex,
}

impl Pattern {
    /// The pattern this value was compiled from.
    pub closed spec fn source(&self) -> Seq<char> {
        self.source@
    }

    /// Compiles `source` with `regex::Regex::new`.
    ///
    /// Claims: the result is present exactly when the regex crate accepts the
    /// pattern, and then it remembers `source` as its pattern.
    #[verifier::external_body]
    pub fn compile(source: &str) -> (res: Option<Pattern>)
        ensures
            res is Some <==> regex_compiles(source@),
            res matches Some(p) ==> p.source() == source@,
    {
        match regex::Regex::new(source) {
            Ok(compiled) => Some(Pattern { source: source.to_string(), compiled }),
            Err(_) => None,
        }
    }

    /// Tests the text with `regex::Regex::is_match`.
    ///
    /// Claims: the answer is the regex crate's answer for this pattern on this
    /// text (named, not spelled out).
    #[verifier::external_body]
    pub fn is_match(&self, text: &str) -> (res: bool)
        ensures
            res == regex_is_match(self.source(), text@),
    {
        self.compiled.is_match(text)
    }

    /// Looks up a named capture group with `regex::Regex::captures` and
    /// `regex::Captures::name`, copying out the matched text.
    ///
    /// Claims: the result is the regex crate's (named, not spelled out); as
    /// the crate documents, `captures` finds something exactly when
    /// `is_match` answers true.
    #[verifier::external_body]
    pub fn capture_group(&self, text: &str, group: &str) -> (res: Option<Option<String>>)
        ensures
            res is Some <==> regex_is_match(self.source(), text@),
            match (res, regex_capture_group(self.source(), text@, group@)) {
                (None, None) => true,
                (Some(None), Some(None)) => true,
                (Some(Some(found)), Some(Some(expected))) => found@ == expected,
                _ => false,
            },
    {
        match self.compiled.captures(text) {
            None => None,
            Some(caps) => match caps.name(group) {
                None => Some(None),
                Some(m) => Some(Some(m.as_str().to_string())),
            },
        }
    }
}

} // verus!
