use vstd::prelude::*;
use vstd::string::*;

use crate::logic::apps::{entries_view, AppEntry, AppEntryView};
use fuzzy_matcher::skim::SkimMatcherV2;
use fuzzy_matcher::FuzzyMatcher;

verus! {

pub open spec fn is_ascii_upper(c: char) -> bool {
    65 <= (c as u32) && (c as u32) <= 90
}

/// Two characters are equal, or, when case does not count, equal up to
/// ASCII case.
pub open spec fn chars_match(a: char, b: char, case_sensitive: bool) -> bool {
    if case_sensitive {
        a == b
    } else {
        a == b || (is_ascii_upper(a) && (a as u32) + 32 == (b as u32)) || (is_ascii_upper(b) && (
        b as u32) + 32 == (a as u32))
    }
}

/// The characters of `pattern` occur in `choice` in order, each matched to
/// the earliest character that fits.
pub open spec fn occurs_in_order(choice: Seq<char>, pattern: Seq<char>, case_sensitive: bool) -> bool
    decreases choice.len(),
{
    if pattern.len() == 0 {
        true
    } else if choice.len() == 0 {
        false
    } else if chars_match(choice[0], pattern[0], case_sensitive) {
        occurs_in_order(choice.drop_first(), pattern.drop_first(), case_sensitive)
    } else {
        occurs_in_order(choice.drop_first(), pattern, case_sensitive)
    }
}

/// Fuzzy matching with smart case: the case counts only when the pattern
/// holds an upper-case ASCII letter.
pub open spec fn fuzzy_matches(choice: Seq<char>, pattern: Seq<char>) -> bool {
    occurs_in_order(choice, pattern, exists|i: int| 0 <= i < pattern.len() && is_ascii_upper(pattern[i]))
}

/// Relies on fuzzy_matcher's `SkimMatcherV2::fuzzy_match` with its default
/// settings (smart case): it gives a score exactly when the pattern is empty
/// or its characters occur in order in the choice.
#[verifier::external_body]
fn skim_score(choice: &str, pattern: &str) -> (r: Option<i64>)
    ensures
        r.is_some() == fuzzy_matches(choice@, pattern@),
{
    SkimMatcherV2::default().fuzzy_match(choice, pattern)
}

/// The lower-case form of a text, by Unicode's rules.
pub uninterp spec fn lowercase_of(s: Seq<char>) -> Seq<char>;

/// Relies on `str::to_lowercase`: the result depends on the characters alone.
#[verifier::external_body]
fn lowercase(s: &str) -> (r: String)
    ensures
        r@ == lowercase_of(s@),
{
    s.to_lowercase()
}

/// Whether the name of an entry fuzzily matches `input`.
pub fn name_matches(name: &str, input: &str) -> (r: bool)
    ensures
        r == fuzzy_matches(name@, input@),
{
    skim_score(name, input).is_some()
}

/// Whether `s` starts with `prefix`.
pub fn has_prefix(s: &str, prefix: &str) -> (r: bool)
    ensures
        r == prefix@.is_prefix_of(s@),
{
    let n = prefix.unicode_len();
    if n > s.unicode_len() {
        return false;
    }
    let mut i: usize = 0;
    while i < n
        invariant
            n == prefix@.len(),
            n <= s@.len(),
            i <= n,
            forall|k: int| 0 <= k < i ==> prefix@[k] == s@[k],
        decreases n - i,
    {
        if prefix.get_char(i) != s.get_char(i) {
            return false;
        }
        i += 1;
    }
    true
}

/// The entries whose names fuzzily match `input`, in their order.
pub fn filter_by_fuzzy_name(apps: &Vec<AppEntry>, input: &str) -> (r: Vec<AppEntry>)
    ensures
        entries_view(r@) == entries_view(apps@).filter(|e: AppEntryView| fuzzy_matches(e.name, input@)),
{
    let ghost pred = |e: AppEntryView| fuzzy_matches(e.name, input@);
    let mut r: Vec<AppEntry> = Vec::new();
    let mut i: usize = 0;
    while i < apps.len()
        invariant
            i <= apps@.len(),
            pred == (|e: AppEntryView| fuzzy_matches(e.name, input@)),
            entries_view(r@) == entries_view(apps@.subrange(0, i as int)).filter(pred),
        decreases apps@.len() - i,
    {
        let ghost before = apps@.subrange(0, i as int);
        let ghost old_r = r@;
        proof {
            assert(apps@.subrange(0, i + 1) =~= before.push(apps@[i as int]));
            assert(entries_view(before.push(apps@[i as int])) =~= entries_view(before).push(
                apps@[i as int]@,
            ));
            entries_view(before).lemma_filter_push(apps@[i as int]@, pred);
        }
        if name_matches(apps[i].name.as_str(), input) {
            let e = apps[i].clone();
            r.push(e);
            assert(entries_view(r@) =~= entries_view(old_r).push(e@));
        }
        i += 1;
    }
    assert(apps@.subrange(0, apps@.len() as int) =~= apps@);
    r
}

/// An entry's name starts with `lowered_input` once lower-cased.
pub open spec fn lowered_name_starts_with(e: AppEntryView, lowered_input: Seq<char>) -> bool {
    lowered_input.is_prefix_of(lowercase_of(e.name))
}

/// The entries whose lower-cased names start with the lower-cased `input`,
/// in their order.
pub fn filter_by_name_prefix(apps: &Vec<AppEntry>, input: &str) -> (r: Vec<AppEntry>)
    ensures
        entries_view(r@) == entries_view(apps@).filter(
            |e: AppEntryView| lowered_name_starts_with(e, lowercase_of(input@)),
        ),
{
    let lowered_input = lowercase(input);
    let ghost pred = |e: AppEntryView| lowered_name_starts_with(e, lowercase_of(input@));
    let mut r: Vec<AppEntry> = Vec::new();
    let mut i: usize = 0;
    while i < apps.len()
        invariant
            i <= apps@.len(),
            lowered_input@ == lowercase_of(input@),
            pred == (|e: AppEntryView| lowered_name_starts_with(e, lowercase_of(input@))),
            entries_view(r@) == entries_view(apps@.subrange(0, i as int)).filter(pred),
        decreases apps@.len() - i,
    {
        let ghost before = apps@.subrange(0, i as int);
        let ghost old_r = r@;
        proof {
            assert(apps@.subrange(0, i + 1) =~= before.push(apps@[i as int]));
            assert(entries_view(before.push(apps@[i as int])) =~= entries_view(before).push(
                apps@[i as int]@,
            ));
            entries_view(before).lemma_filter_push(apps@[i as int]@, pred);
        }
        let lowered_name = lowercase(apps[i].name.as_str());
        if has_prefix(lowered_name.as_str(), lowered_input.as_str()) {
            let e = apps[i].clone();
            r.push(e);
            assert(entries_view(r@) =~= entries_view(old_r).push(e@));
        }
        i += 1;
    }
    assert(apps@.subrange(0, apps@.len() as int) =~= apps@);
    r
}

} // verus!
