use vstd::prelude::*;
use crate::record::strings_view;

verus! {

/// What `str::to_lowercase` returns for `s`.
pub uninterp spec fn lower_of(s: Seq<char>) -> Seq<char>;

/// `word` occurs in `text` as a contiguous run of characters.
pub open spec fn occurs_in(text: Seq<char>, word: Seq<char>) -> bool {
    exists|i: int| 0 <= i <= text.len() - word.len() && #[trigger] text.subrange(i, i + word.len()) == word
}

/// Relies on `str::to_lowercase`: the result depends on the characters alone.
#[verifier::external_body]
fn lowercase(s: &str) -> (r: String)
    ensures
        r@ == lower_of(s@),
{
    s.to_lowercase()
}

/// Relies on `str::contains` with a `&str` pattern: whether `word` is a
/// substring of `text`.
#[verifier::external_body]
fn contains_word(text: &str, word: &str) -> (r: bool)
    ensures
        r == occurs_in(text@, word@),
{
    text.contains(word)
}

/// The steps that the simulated runner reports for an already lower-cased
/// prompt, chosen by the first keyword that occurs in it.
pub open spec fn planned_steps(p: Seq<char>) -> Seq<Seq<char>> {
    if occurs_in(p, "click"@) {
        seq!["Located element"@, "Clicked successfully"@]
    } else if occurs_in(p, "type"@) || occurs_in(p, "write"@) {
        seq!["Found input field"@, "Typed text"@]
    } else if occurs_in(p, "open"@) {
        seq!["Launched application"@, "Window opened"@]
    } else if occurs_in(p, "search"@) {
        seq!["Opened search"@, "Entered query"@, "Results displayed"@]
    } else {
        seq!["Analyzed screen"@, "Executed action"@]
    }
}

/// The steps for a prompt that is already lower case.
pub fn steps_for_lowered(p: &str) -> (r: Vec<String>)
    ensures
        strings_view(r@) == planned_steps(p@),
{
    let r = if contains_word(p, "click") {
        vec!["Located element".to_string(), "Clicked successfully".to_string()]
    } else if contains_word(p, "type") || contains_word(p, "write") {
        vec!["Found input field".to_string(), "Typed text".to_string()]
    } else if contains_word(p, "open") {
        vec!["Launched application".to_string(), "Window opened".to_string()]
    } else if contains_word(p, "search") {
        vec!["Opened search".to_string(), "Entered query".to_string(), "Results displayed".to_string()]
    } else {
        vec!["Analyzed screen".to_string(), "Executed action".to_string()]
    };
    assert(strings_view(r@) =~= planned_steps(p@));
    r
}

/// The steps that the simulated runner reports for `prompt`, whose keywords
/// are matched without regard to case.
pub fn simulated_steps(prompt: &str) -> (r: Vec<String>)
    ensures
        strings_view(r@) == planned_steps(lower_of(prompt@)),
{
    let lowered = lowercase(prompt);
    steps_for_lowered(lowered.as_str())
}

/// How long the simulated runner works, in milliseconds, for a random
/// `draw`: from 500 up to 1499.
pub fn simulated_delay_ms(draw: u64) -> (r: u64)
    ensures
        r == 500 + draw % 1000,
        500 <= r < 1500,
{
    500 + draw % 1000
}

/// The duration that the simulated runner reports, in milliseconds, for a
/// random `draw`: from 150 up to 449.
pub fn simulated_duration_ms(draw: u64) -> (r: u64)
    ensures
        r == 150 + draw % 300,
        150 <= r < 450,
{
    150 + draw % 300
}

/// Whether a simulated action succeeds for a random `draw`: it fails for
/// five draws in a hundred.
pub fn simulated_success(draw: u64) -> (r: bool)
    ensures
        r == (draw % 100 >= 5),
{
    draw % 100 >= 5
}

} // verus!
