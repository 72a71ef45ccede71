use vstd::prelude::*;

verus! {

/// Characters with the Unicode `White_Space` property, the set that
/// `char::is_whitespace` tests for.
pub open spec fn is_white_space(c: char) -> bool {
    ('\t' <= c && c <= '\r') || c == ' ' || c == '\u{85}' || c == '\u{A0}' || c == '\u{1680}'
        || ('\u{2000}' <= c && c <= '\u{200A}') || c == '\u{2028}' || c == '\u{2029}'
        || c == '\u{202F}' || c == '\u{205F}' || c == '\u{3000}'
}

/// `s` without its leading white space.
pub open spec fn trim_start(s: Seq<char>) -> Seq<char>
    decreases s.len(),
{
    if s.len() > 0 && is_white_space(s[0]) {
        trim_start(s.drop_first())
    } else {
        s
    }
}

/// `s` without its trailing white space.
pub open spec fn trim_end(s: Seq<char>) -> Seq<char>
    decreases s.len(),
{
    if s.len() > 0 && is_white_space(s.last()) {
        trim_end(s.drop_last())
    } else {
        s
    }
}

/// `s` without white space at either end.
pub open spec fn trimmed(s: Seq<char>) -> Seq<char> {
    trim_end(trim_start(s))
}

/// The token `pi` starts at position `i` of `s`.
pub open spec fn pi_at(s: Seq<char>, i: int) -> bool {
    0 <= i && i + 1 < s.len() && s[i] == 'p' && s[i + 1] == 'i'
}

/// `s` holds the token `pi`.
pub open spec fn contains_pi(s: Seq<char>) -> bool {
    exists|i: int| pi_at(s, i)
}

/// `s` with every `pi` token removed, scanning from the left.
pub open spec fn without_pi(s: Seq<char>) -> Seq<char>
    decreases s.len(),
{
    if s.len() == 0 {
        s
    } else if s.len() >= 2 && s[0] == 'p' && s[1] == 'i' {
        without_pi(s.skip(2))
    } else {
        seq![s[0]] + without_pi(s.drop_first())
    }
}

/// Tests `c` for white space.
pub fn is_white_space_char(c: char) -> (r: bool)
    ensures
        r == is_white_space(c),
{
    ('\t' <= c && c <= '\r') || c == ' ' || c == '\u{85}' || c == '\u{A0}' || c == '\u{1680}'
        || ('\u{2000}' <= c && c <= '\u{200A}') || c == '\u{2028}' || c == '\u{2029}'
        || c == '\u{202F}' || c == '\u{205F}' || c == '\u{3000}'
}

/// `s` without white space at either end.
pub fn trim(s: &str) -> (r: String)
    ensures
        r@ == trimmed(s@),
{
    let n = s.unicode_len();
    let mut i: usize = 0;
    assert(s@.skip(0) =~= s@);
    while i < n && is_white_space_char(s.get_char(i))
        invariant
            i <= n,
            n == s@.len(),
            trim_start(s@) == trim_start(s@.skip(i as int)),
        decreases n - i,
    {
        proof {
            assert(s@.skip(i as int).drop_first() =~= s@.skip(i as int + 1));
        }
        i = i + 1;
    }
    proof {
        assert(s@.skip(i as int) =~= s@.subrange(i as int, n as int));
    }
    let mut j: usize = n;
    while j > i && is_white_space_char(s.get_char(j - 1))
        invariant
            i <= j <= n,
            n == s@.len(),
            trim_end(s@.subrange(i as int, n as int)) == trim_end(s@.subrange(i as int, j as int)),
        decreases j,
    {
        proof {
            assert(s@.subrange(i as int, j as int).drop_last() =~= s@.subrange(i as int, j - 1));
        }
        j = j - 1;
    }
    String::from_str(s.substring_char(i, j))
}

/// Whether `s` holds the token `pi`.
pub fn has_pi(s: &str) -> (r: bool)
    ensures
        r == contains_pi(s@),
{
    let n = s.unicode_len();
    let mut k: usize = 0;
    while k < n && k + 1 < n
        invariant
            n == s@.len(),
            k <= n,
            forall|i: int| 0 <= i < k ==> !pi_at(s@, i),
        decreases n - k,
    {
        if s.get_char(k) == 'p' && s.get_char(k + 1) == 'i' {
            assert(pi_at(s@, k as int));
            return true;
        }
        k = k + 1;
    }
    assert forall|i: int| !pi_at(s@, i) by {
        if 0 <= i < k {
        }
    }
    false
}

/// `s` with every `pi` token removed.
pub fn remove_pi(s: &str) -> (r: String)
    ensures
        r@ == without_pi(s@),
{
    let n = s.unicode_len();
    let mut out = String::new();
    let mut i: usize = 0;
    assert(s@.skip(0) =~= s@);
    assert(out@ + without_pi(s@) =~= without_pi(s@));
    while i < n
        invariant
            n == s@.len(),
            i <= n,
            out@ + without_pi(s@.skip(i as int)) == without_pi(s@),
        decreases n - i,
    {
        let ghost rest = s@.skip(i as int);
        if i + 1 < n && s.get_char(i) == 'p' && s.get_char(i + 1) == 'i' {
            proof {
                assert(rest.skip(2) =~= s@.skip(i + 2));
            }
            i = i + 2;
        } else {
            let one = s.substring_char(i, i + 1);
            let ghost before = out@;
            out.append(one);
            proof {
                assert(one@ =~= seq![rest[0]]);
                assert(rest.drop_first() =~= s@.skip(i + 1));
                assert(before + without_pi(rest) =~= out@ + without_pi(s@.skip(i + 1)));
            }
            i = i + 1;
        }
    }
    proof {
        assert(s@.skip(n as int).len() == 0);
        assert(out@ + without_pi(s@.skip(n as int)) =~= out@);
    }
    out
}

/// How an angle conversion request is to be carried out. The numbers stay
/// text: the caller parses them.
pub enum ConversionPlan {
    /// Degrees to a multiple of π radians; `degrees` is the trimmed input.
    DegreesToPiRadians { degrees: String },
    /// Radians to degrees; `radians` is the trimmed input.
    RadiansToDegrees { radians: String },
    /// A multiple of π radians to degrees; `coefficient` is the input with
    /// every `pi` removed and trimmed, or `None` where nothing is left (a
    /// coefficient of one).
    PiMultipleToDegrees { coefficient: Option<String> },
    /// The conversion kind is not known.
    Unsupported,
}

/// The kind that selects degrees to radians.
pub open spec fn degrees_to_radians_kind() -> Seq<char> {
    "deg-rad"@
}

/// The kind that selects radians to degrees.
pub open spec fn radians_to_degrees_kind() -> Seq<char> {
    "rad-deg"@
}

/// Reads a conversion request: the kind picks the direction, and an input to
/// be read as radians that holds `pi` is a multiple of π.
pub fn plan_conversion(kind: &str, input: &str) -> (r: ConversionPlan)
    ensures
        kind@ == degrees_to_radians_kind() ==> r is DegreesToPiRadians && r->degrees@ == trimmed(input@),
        kind@ == radians_to_degrees_kind() && !contains_pi(input@) ==> r is RadiansToDegrees
            && r->radians@ == trimmed(input@),
        kind@ == radians_to_degrees_kind() && contains_pi(input@) ==> r is PiMultipleToDegrees
            && (r->coefficient is Some <==> trimmed(without_pi(input@)).len() > 0)
            && (r->coefficient is Some ==> r->coefficient->0@ == trimmed(without_pi(input@))),
        kind@ != degrees_to_radians_kind() && kind@ != radians_to_degrees_kind() ==> r is Unsupported,
{
    proof {
        reveal_strlit("deg-rad");
        reveal_strlit("rad-deg");
        assert("deg-rad"@[0] != "rad-deg"@[0]);
    }
    let k = String::from_str(kind);
    if k == String::from_str("deg-rad") {
        ConversionPlan::DegreesToPiRadians { degrees: trim(input) }
    } else if k == String::from_str("rad-deg") {
        if has_pi(input) {
            let removed = remove_pi(input);
            let coefficient = trim(removed.as_str());
            if coefficient.unicode_len() == 0 {
                ConversionPlan::PiMultipleToDegrees { coefficient: None }
            } else {
                ConversionPlan::PiMultipleToDegrees { coefficient: Some(coefficient) }
            }
        } else {
            ConversionPlan::RadiansToDegrees { radians: trim(input) }
        }
    } else {
        ConversionPlan::Unsupported
    }
}

/// The text that turns a yes/no option on.
pub open spec fn flag_on_text() -> Seq<char> {
    "true"@
}

/// Whether an option given as text is on: only `true` is.
pub fn flag_enabled(text: &str) -> (r: bool)
    ensures
        r == (text@ == flag_on_text()),
{
    String::from_str(text) == String::from_str("true")
}

} // verus!
