use vstd::prelude::*;

verus! {

/// What a trimmed, lowercased answer must be to count as a yes.
pub open spec fn is_affirmative(s: Seq<char>) -> bool {
    s == "y"@ || s == "yes"@
}

/// What trimming leading and trailing whitespace leaves of a line: a
/// function of the line alone.
pub uninterp spec fn trim_of(s: Seq<char>) -> Seq<char>;

/// What lowercasing makes of a string: a function of the string alone.
pub uninterp spec fn lower_of(s: Seq<char>) -> Seq<char>;

/// Relies on `str::trim`: it removes leading and trailing whitespace and
/// nothing else, and depends on the string alone.
#[verifier::external_body]
fn trim_str(s: &str) -> (r: &str)
    ensures
        r@ == trim_of(s@),
{
    s.trim()
}

/// Relies on `str::to_lowercase`: the result depends on the characters
/// alone.
#[verifier::external_body]
fn lowercase(s: &str) -> (r: String)
    ensures
        r@ == lower_of(s@),
{
    s.to_lowercase()
}

/// Decide a confirmation prompt's answer: the line counts as a yes exactly
/// when, trimmed and lowercased, it reads `y` or `yes`; anything else — an
/// empty line included — is a decline. The caller owns the prompt and the
/// reading of the line; this function owns the decision.
pub fn confirm(answer: &str) -> (r: bool)
    ensures
        r == is_affirmative(lower_of(trim_of(answer@))),
{
    let normalized = lowercase(trim_str(answer));
    let yes_short: String = "y".to_owned();
    let yes_long: String = "yes".to_owned();
    normalized.eq(&yes_short) || normalized.eq(&yes_long)
}

} // verus!
