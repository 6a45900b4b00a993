//! Swear patterns: regular expressions kept together with their source text.

use vstd::prelude::*;
use vstd::string::*;

use crate::text::{split_whitespace, trim, trimmed, whitespace_words};

verus! {

/// Declares `regex::Regex`, which a `SwearPattern` holds.
#[verifier::external_type_specification]
#[verifier::external_body]
pub struct ExRegex(regex::Regex);

/// Declares `regex::Error`, which `regex::Regex::new` returns on failure.
#[verifier::external_type_specification]
#[verifier::external_body]
pub struct ExRegexError(regex::Error);

/// Whether `regex::Regex::new` accepts a pattern: its syntax is valid and the
/// compiled program stays within the default size limit.
pub uninterp spec fn regex_accepts(pattern: Seq<char>) -> bool;

/// Whether the regex compiled from `pattern` matches somewhere in `haystack`
/// (what `regex::Regex::is_match` answers).
pub uninterp spec fn regex_finds(pattern: Seq<char>, haystack: Seq<char>) -> bool;

/// Calls `regex::Regex::new`. Claimed: it succeeds exactly when the pattern
/// is accepted (`regex_accepts`), which depends on the pattern alone, since
/// the default builder settings are used.
#[verifier::external_body]
fn compile(pattern: &str) -> (r: Result<regex::Regex, regex::Error>)
    ensures
        r is Ok <==> regex_accepts(pattern@),
{
    regex::Regex::new(pattern)
}

/// Calls `regex::Regex::is_match` on the compiled regex of a pattern.
/// Claimed: the answer is `regex_finds` of the pattern's source and the
/// haystack. This rests on the field `regex` having been compiled from the
/// field `source`, which only `SwearPattern::new` and `duplicate` (through
/// `Regex::clone`) build.
#[verifier::external_body]
fn regex_is_match(pattern: &SwearPattern, haystack: &str) -> (b: bool)
    ensures
        b == regex_finds(pattern@, haystack@),
{
    pattern.regex.is_match(haystack)
}

/// `regex_syntax::is_meta_character`: the characters that have a meaning in
/// a regex and must be escaped to stand for themselves.
pub open spec fn is_regex_meta(c: char) -> bool {
    ||| c == '\\' || c == '.' || c == '+' || c == '*' || c == '?' || c == '('
    ||| c == ')' || c == '|' || c == '[' || c == ']' || c == '{' || c == '}'
    ||| c == '^' || c == '$' || c == '#' || c == '&' || c == '-' || c == '~'
}

/// The text with a backslash before each regex meta character, as
/// `regex::escape` writes it.
pub open spec fn escaped(s: Seq<char>) -> Seq<char>
    decreases s.len(),
{
    if s.len() == 0 {
        seq![]
    } else {
        (if is_regex_meta(s[0]) {
            seq!['\\', s[0]]
        } else {
            seq![s[0]]
        }) + escaped(s.drop_first())
    }
}

/// Calls `regex::escape`, which (through `regex_syntax::escape_into`) copies
/// the text character by character, putting a backslash before each meta
/// character.
#[verifier::external_body]
fn escape(s: &str) -> (r: String)
    ensures
        r@ == escaped(s@),
{
    regex::escape(s)
}

/// Calls `Clone::clone` on a `regex::Regex`. Nothing is claimed of the
/// result here; `regex_is_match` relies on the clone matching as the
/// regex it was cloned from does (the clone shares the compiled program).
#[verifier::external_body]
fn clone_regex(r: &regex::Regex) -> regex::Regex {
    r.clone()
}

/// Why a pattern could not be made.
#[derive(Debug, Clone, Copy, PartialEq, Eq, Structural)]
pub enum PatternError {
    /// `regex::Regex::new` refused the pattern.
    Rejected,
}

/// A swear pattern: the source text of a regular expression and the regex
/// compiled from it. Its view is the source text.
pub struct SwearPattern {
    source: String,
    regex: regex::Regex,
}

impl View for SwearPattern {
    type V = Seq<char>;

    closed spec fn view(&self) -> Seq<char> {
        self.source@
    }
}

/// The source texts of a sequence of patterns.
pub open spec fn sources(patterns: Seq<SwearPattern>) -> Seq<Seq<char>> {
    patterns.map_values(|p: SwearPattern| p@)
}

/// The pattern that a literal word becomes: the word with surrounding
/// whitespace trimmed and its meta characters escaped, between the anchors
/// `^` and `$`.
pub open spec fn anchored(word: Seq<char>) -> Seq<char> {
    seq!['^'] + escaped(trimmed(word)) + seq!['$']
}

/// How many of `patterns` match somewhere in `text`.
pub open spec fn match_count(patterns: Seq<Seq<char>>, text: Seq<char>) -> nat
    decreases patterns.len(),
{
    if patterns.len() == 0 {
        0
    } else {
        match_count(patterns.drop_last(), text) + if regex_finds(patterns.last(), text) {
            1nat
        } else {
            0nat
        }
    }
}

/// A text splits into valid patterns when every whitespace-separated word,
/// trimmed, is accepted as a regex.
pub open spec fn all_words_accepted(text: Seq<char>) -> bool {
    forall|i: int|
        0 <= i < whitespace_words(text).len() ==> #[trigger] regex_accepts(
            trimmed(whitespace_words(text)[i]),
        )
}

/// At most one per pattern matches.
pub proof fn lemma_match_count_bound(patterns: Seq<Seq<char>>, text: Seq<char>)
    ensures
        match_count(patterns, text) <= patterns.len(),
    decreases patterns.len(),
{
    if patterns.len() > 0 {
        lemma_match_count_bound(patterns.drop_last(), text);
    }
}

impl SwearPattern {
    /// Compiles `source` into a pattern; fails exactly when the regex crate
    /// refuses it.
    pub fn new(source: String) -> (r: Result<SwearPattern, PatternError>)
        ensures
            r is Ok <==> regex_accepts(source@),
            r matches Ok(p) ==> p@ == source@,
    {
        match compile(source.as_str()) {
            Ok(regex) => Ok(SwearPattern { source, regex }),
            Err(_) => Err(PatternError::Rejected),
        }
    }

    /// The pattern for the literal word: the word, trimmed, with its meta
    /// characters escaped, between `^` and `$`.
    pub fn anchored_word(word: &str) -> (r: Result<SwearPattern, PatternError>)
        ensures
            r is Ok <==> regex_accepts(anchored(word@)),
            r matches Ok(p) ==> p@ == anchored(word@),
    {
        let inner = escape(trim(word));
        let mut source = "^".to_owned();
        source.append(inner.as_str());
        source.append("$");
        proof {
            reveal_strlit("^");
            reveal_strlit("$");
            assert(source@ =~= anchored(word@));
        }
        SwearPattern::new(source)
    }

    /// The source text of the pattern.
    pub fn as_str(&self) -> (s: &str)
        ensures
            s@ == self@,
    {
        self.source.as_str()
    }

    /// A second pattern with the same source, sharing the compiled regex.
    pub fn duplicate(&self) -> (r: SwearPattern)
        ensures
            r@ == self@,
    {
        SwearPattern { source: self.source.clone(), regex: clone_regex(&self.regex) }
    }

    /// Reads a list of patterns from a text: one pattern per
    /// whitespace-separated word (trimmed), in order. Fails with the index of
    /// the first word that is not a valid regex.
    pub fn list_from_text(text: &str) -> (r: Result<Vec<SwearPattern>, usize>)
        ensures
            r is Ok <==> all_words_accepted(text@),
            r matches Ok(v) ==> sources(v@) == whitespace_words(text@).map_values(
                |w: Seq<char>| trimmed(w),
            ),
            r matches Err(i) ==> {
                &&& 0 <= i < whitespace_words(text@).len()
                &&& !regex_accepts(trimmed(whitespace_words(text@)[i as int]))
                &&& forall|j: int|
                    0 <= j < i ==> #[trigger] regex_accepts(
                        trimmed(whitespace_words(text@)[j]),
                    )
            },
    {
        let words = split_whitespace(text);
        let ghost ws = whitespace_words(text@);
        assert(words@.len() == ws.len());
        let mut out: Vec<SwearPattern> = Vec::new();
        let mut i: usize = 0;
        while i < words.len()
            invariant
                i <= words@.len(),
                ws == whitespace_words(text@),
                words@.map_values(|w: String| w@) == ws,
                words@.len() == ws.len(),
                out@.len() == i,
                forall|j: int| 0 <= j < i ==> #[trigger] out@[j]@ == trimmed(ws[j]),
                forall|j: int| 0 <= j < i ==> #[trigger] regex_accepts(trimmed(ws[j])),
            decreases words@.len() - i,
        {
            assert(words@[i as int]@ == ws[i as int]);
            let word = trim(words[i].as_str());
            match SwearPattern::new(word.to_owned()) {
                Ok(p) => {
                    out.push(p);
                },
                Err(_) => {
                    assert(!regex_accepts(trimmed(whitespace_words(text@)[i as int])));
                    assert(!all_words_accepted(text@));
                    return Err(i);
                },
            }
            i = i + 1;
        }
        assert(sources(out@) =~= ws.map_values(|w: Seq<char>| trimmed(w)));
        Ok(out)
    }
}

/// Counts the patterns that match somewhere in `text`.
pub fn count_matches(patterns: &Vec<SwearPattern>, text: &str) -> (n: u64)
    ensures
        n == match_count(sources(patterns@), text@),
{
    let mut n: u64 = 0;
    let mut i: usize = 0;
    while i < patterns.len()
        invariant
            i <= patterns@.len(),
            n == match_count(sources(patterns@).take(i as int), text@),
            n <= i,
        decreases patterns@.len() - i,
    {
        let ghost s = sources(patterns@);
        assert(s.take(i + 1).drop_last() =~= s.take(i as int));
        assert(s.take(i + 1).last() == patterns@[i as int]@);
        if regex_is_match(&patterns[i], text) {
            n = n + 1;
        }
        i = i + 1;
    }
    assert(sources(patterns@).take(patterns@.len() as int) =~= sources(patterns@));
    n
}

} // verus!
