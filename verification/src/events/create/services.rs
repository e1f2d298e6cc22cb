//! The spell checker that counts the mistakes of a text.

use harper_core::linting::{Lint, LintGroup, LintGroupConfig, Linter};
use harper_core::parsers::PlainEnglish;
use harper_core::{Document, FstDictionary, Lrc};
use std::sync::Arc;
use vstd::prelude::*;
use vstd::string::StrSliceExecFns;

verus! {

#[verifier::external_type_specification]
#[verifier::external_body]
pub struct ExLint(Lint);

/// The number of objections that the spell checker has to a text, without
/// the objections that overlap an earlier one: what `Linter::lint` of a
/// `LintGroup` with the default configuration over the curated dictionary
/// returns for the text read as plain English, after
/// `harper_core::remove_overlaps`.
pub uninterp spec fn spec_mistakes(text: Seq<char>) -> nat;

/// Whether `found` is the lower-case letter `wanted` or its capital.
pub open spec fn spec_matches_letter(found: char, wanted: char) -> bool {
    found == wanted || ('A' <= found && found <= 'Z' && found as int + 32 == wanted as int)
}

/// Whether `c` separates words: a space, a tab or a line break.
pub open spec fn spec_is_gap(c: char) -> bool {
    c == ' ' || c == '\t' || c == '\n'
}

/// Whether `word`, written in lower case, stands in `text` at `at` in any
/// capitalization.
pub open spec fn spec_word_at(text: Seq<char>, at: int, word: Seq<char>) -> bool {
    &&& 0 <= at
    &&& at + word.len() <= text.len()
    &&& forall|k: int| 0 <= k < word.len() ==> spec_matches_letter(text[at + k], #[trigger] word[k])
}

/// Where the separators that begin at `from` end.
pub open spec fn spec_gap_end(text: Seq<char>, from: int) -> int
    decreases text.len() - from,
{
    if 0 <= from < text.len() && spec_is_gap(text[from]) {
        spec_gap_end(text, from + 1)
    } else {
        from
    }
}

/// Whether `first`, at least one separator and `second` stand in `text`
/// from `at` on.
pub open spec fn spec_phrase_at(text: Seq<char>, at: int, first: Seq<char>, second: Seq<char>)
    -> bool {
    &&& spec_word_at(text, at, first)
    &&& spec_gap_end(text, at + first.len()) > at + first.len()
    &&& spec_word_at(text, spec_gap_end(text, at + first.len()), second)
}

/// Whether `first`, at least one separator and `second` stand somewhere in
/// `text`.
pub open spec fn spec_has_phrase(text: Seq<char>, first: Seq<char>, second: Seq<char>) -> bool {
    exists|at: int| 0 <= at <= text.len() && #[trigger] spec_phrase_at(text, at, first, second)
}

/// Whether `text` may name one of the places, parties, holidays and
/// products whose capitalization the spell checker looks at.
pub open spec fn spec_names_proper_noun(text: Seq<char>) -> bool {
    ||| spec_has_phrase(text, "south"@, "america"@)
    ||| spec_has_phrase(text, "north"@, "america"@)
    ||| spec_has_phrase(text, "south"@, "korea"@)
    ||| spec_has_phrase(text, "north"@, "korea"@)
    ||| spec_has_phrase(text, "chinese"@, "communist"@)
    ||| spec_has_phrase(text, "united"@, "nations"@)
    ||| spec_has_phrase(text, "united"@, "states"@)
    ||| spec_has_phrase(text, "united"@, "kingdom"@)
    ||| spec_has_phrase(text, "united"@, "airlines"@)
    ||| spec_has_phrase(text, "united"@, "arab"@)
    ||| spec_has_phrase(text, "presidents'"@, "day"@)
    ||| spec_has_phrase(text, "valentines"@, "day"@)
    ||| spec_has_phrase(text, "christmas"@, "day"@)
    ||| spec_has_phrase(text, "easter"@, "day"@)
    ||| spec_has_phrase(text, "flag"@, "day"@)
    ||| spec_has_phrase(text, "independence"@, "day"@)
    ||| spec_has_phrase(text, "mothers'"@, "day"@)
    ||| spec_has_phrase(text, "years"@, "day"@)
    ||| spec_has_phrase(text, "fathers'"@, "day"@)
    ||| spec_has_phrase(text, "columbus"@, "day"@)
    ||| spec_has_phrase(text, "thanksgiving"@, "day"@)
    ||| spec_has_phrase(text, "memorial"@, "day"@)
    ||| spec_has_phrase(text, "may"@, "day"@)
    ||| spec_has_phrase(text, "halloween"@, "day"@)
    ||| spec_has_phrase(text, "tax"@, "day"@)
    ||| spec_has_phrase(text, "parents"@, "day"@)
    ||| spec_has_phrase(text, "veterans"@, "day"@)
    ||| spec_has_phrase(text, "armistice"@, "day"@)
    ||| spec_has_phrase(text, "groundhog"@, "day"@)
    ||| spec_has_phrase(text, "freedom"@, "day"@)
    ||| spec_has_phrase(text, "saints"@, "day"@)
    ||| spec_has_phrase(text, "souls"@, "day"@)
    ||| spec_has_phrase(text, "black"@, "friday"@)
    ||| spec_has_phrase(text, "cyber"@, "monday"@)
    ||| spec_has_phrase(text, "amazon"@, ""@)
    ||| spec_has_phrase(text, "google"@, ""@)
    ||| spec_has_phrase(text, "azure"@, ""@)
    ||| spec_has_phrase(text, "microsoft"@, ""@)
    ||| spec_has_phrase(text, "apple"@, ""@)
    ||| spec_has_phrase(text, "meta"@, ""@)
}

/// Whether the spell checker can take `text`: the text does not begin with
/// a digit and names no proper noun whose capitalization the spell checker
/// looks at. On other texts the spell checker may fail.
pub open spec fn spec_checkable(text: Seq<char>) -> bool {
    &&& text.len() > 0 ==> !('0' <= text[0] && text[0] <= '9')
    &&& !spec_names_proper_noun(text)
}

/// What counting the mistakes of `text` gives: their number, and nothing
/// where the spell checker cannot take the text.
pub open spec fn spec_count_mistakes(text: Seq<char>) -> Option<usize> {
    if spec_checkable(text) {
        Some(spec_mistakes(text) as usize)
    } else {
        None
    }
}

/// Returns the characters of `text`.
pub fn to_chars(text: &str) -> (chars: Vec<char>)
    ensures
        chars@ == text@,
{
    let len: usize = text.unicode_len();
    let mut chars: Vec<char> = Vec::new();
    let mut index: usize = 0;
    while index < len
        invariant
            len == text@.len(),
            index <= len,
            chars@ == text@.subrange(0, index as int),
        decreases len - index,
    {
        chars.push(text.get_char(index));
        index = index + 1;
        assert(chars@ == text@.subrange(0, index as int));
    }
    assert(text@.subrange(0, len as int) == text@);
    chars
}

fn matches_letter(found: char, wanted: char) -> (same: bool)
    ensures
        same == spec_matches_letter(found, wanted),
{
    found == wanted || (found >= 'A' && found <= 'Z' && found as u32 + 32 == wanted as u32)
}

fn word_at(text: &Vec<char>, at: usize, word: &Vec<char>) -> (stands: bool)
    ensures
        stands == spec_word_at(text@, at as int, word@),
{
    if at > text.len() || word.len() > text.len() - at {
        return false;
    }
    let mut k: usize = 0;
    while k < word.len()
        invariant
            k <= word.len(),
            at + word.len() <= text.len(),
            forall|j: int| 0 <= j < k ==> spec_matches_letter(text@[at + j], #[trigger] word@[j]),
        decreases word.len() - k,
    {
        if !matches_letter(text[at + k], word[k]) {
            return false;
        }
        k = k + 1;
    }
    true
}

fn gap_end(text: &Vec<char>, from: usize) -> (end: usize)
    requires
        from <= text.len(),
    ensures
        end == spec_gap_end(text@, from as int),
        from <= end <= text.len(),
    decreases text.len() - from,
{
    if from < text.len() && (text[from] == ' ' || text[from] == '\t' || text[from] == '\n') {
        gap_end(text, from + 1)
    } else {
        from
    }
}

fn has_phrase(text: &Vec<char>, first: &str, second: &str) -> (found: bool)
    ensures
        found == spec_has_phrase(text@, first@, second@),
{
    let first_word = to_chars(first);
    let second_word = to_chars(second);
    let mut at: usize = 0;
    while at < text.len()
        invariant
            at <= text.len(),
            first_word@ == first@,
            second_word@ == second@,
            forall|earlier: int|
                0 <= earlier < at ==> !#[trigger] spec_phrase_at(text@, earlier, first@, second@),
        decreases text.len() - at,
    {
        if word_at(text, at, &first_word) {
            let after: usize = at + first_word.len();
            let end: usize = gap_end(text, after);
            if end > after && word_at(text, end, &second_word) {
                assert(spec_phrase_at(text@, at as int, first@, second@));
                return true;
            }
        }
        at = at + 1;
    }
    assert(!spec_phrase_at(text@, text@.len() as int, first@, second@));
    false
}

fn names_proper_noun(text: &Vec<char>) -> (named: bool)
    ensures
        named == spec_names_proper_noun(text@),
{
    has_phrase(text, "south", "america")
        || has_phrase(text, "north", "america")
        || has_phrase(text, "south", "korea")
        || has_phrase(text, "north", "korea")
        || has_phrase(text, "chinese", "communist")
        || has_phrase(text, "united", "nations")
        || has_phrase(text, "united", "states")
        || has_phrase(text, "united", "kingdom")
        || has_phrase(text, "united", "airlines")
        || has_phrase(text, "united", "arab")
        || has_phrase(text, "presidents'", "day")
        || has_phrase(text, "valentines", "day")
        || has_phrase(text, "christmas", "day")
        || has_phrase(text, "easter", "day")
        || has_phrase(text, "flag", "day")
        || has_phrase(text, "independence", "day")
        || has_phrase(text, "mothers'", "day")
        || has_phrase(text, "years", "day")
        || has_phrase(text, "fathers'", "day")
        || has_phrase(text, "columbus", "day")
        || has_phrase(text, "thanksgiving", "day")
        || has_phrase(text, "memorial", "day")
        || has_phrase(text, "may", "day")
        || has_phrase(text, "halloween", "day")
        || has_phrase(text, "tax", "day")
        || has_phrase(text, "parents", "day")
        || has_phrase(text, "veterans", "day")
        || has_phrase(text, "armistice", "day")
        || has_phrase(text, "groundhog", "day")
        || has_phrase(text, "freedom", "day")
        || has_phrase(text, "saints", "day")
        || has_phrase(text, "souls", "day")
        || has_phrase(text, "black", "friday")
        || has_phrase(text, "cyber", "monday")
        || has_phrase(text, "amazon", "")
        || has_phrase(text, "google", "")
        || has_phrase(text, "azure", "")
        || has_phrase(text, "microsoft", "")
        || has_phrase(text, "apple", "")
        || has_phrase(text, "meta", "")
}

/// Returns whether the spell checker can take `text`.
pub fn is_checkable(text: &str) -> (checkable: bool)
    ensures
        checkable == spec_checkable(text@),
{
    let chars = to_chars(text);
    if chars.len() > 0 && chars[0] >= '0' && chars[0] <= '9' {
        return false;
    }
    !names_proper_noun(&chars)
}

/// A spell checker for plain English text: a `LintGroup` of its
/// linters and the curated dictionary that documents are parsed with.
#[verifier::external_body]
pub struct SpellCheckService {
    lint_group: LintGroup<Arc<FstDictionary>>,
    dict: Arc<FstDictionary>,
}

impl SpellCheckService {
    /// Builds a spell checker: `LintGroup::new` with the default configuration
    /// over `FstDictionary::curated`. Nothing is claimed of it.
    #[verifier::external_body]
    pub fn new() -> (service: SpellCheckService) {
        SpellCheckService {
            lint_group: LintGroup::new(LintGroupConfig::default(), FstDictionary::curated()),
            dict: FstDictionary::curated(),
        }
    }

    /// Returns what the spell checker objects to in `text`, without the
    /// objections that overlap an earlier one: `Document::new_from_vec` on
    /// the characters of the text, read as plain English, `Linter::lint` of
    /// the group, and `harper_core::remove_overlaps`. Their number depends
    /// on the text alone. Texts that begin with a digit or name a proper
    /// noun that the group looks at are left out: on some of them
    /// `Linter::lint` does not return.
    #[verifier::external_body]
    pub fn check(&mut self, text: String) -> (lints: Vec<Lint>)
        requires
            spec_checkable(text@),
        ensures
            lints@.len() == spec_mistakes(text@),
    {
        let source = Lrc::new(text.chars().collect());
        let document = Document::new_from_vec(source, &PlainEnglish, &self.dict);
        let mut lints = self.lint_group.lint(&document);
        harper_core::remove_overlaps(&mut lints);
        lints
    }

    /// Counts the mistakes of `text`, where the spell checker can take the
    /// text; where it cannot, the text is not handed to it and there is no
    /// count.
    pub fn count_mistakes(&mut self, text: &String) -> (mistakes: Option<usize>)
        ensures
            mistakes == spec_count_mistakes(text@),
            mistakes matches Some(count) ==> count == spec_mistakes(text@),
    {
        if is_checkable(text.as_str()) {
            let lints = self.check(text.clone());
            Some(lints.len())
        } else {
            None
        }
    }
}

} // verus!
