use vstd::prelude::*;

verus! {

/// A character allowed between `ESC [` and the final `m` of a styling sequence.
pub open spec fn is_param_char(c: char) -> bool {
    ('0' <= c && c <= '9') || c == ';'
}

/// The number of parameter characters at the start of `s`.
pub open spec fn param_run(s: Seq<char>) -> nat
    decreases s.len(),
{
    if s.len() > 0 && is_param_char(s[0]) {
        1 + param_run(s.drop_first())
    } else {
        0
    }
}

/// The length of the styling sequence (`ESC [ params m`) that starts `s`,
/// or 0 where `s` does not start with one.
pub open spec fn sgr_len_at_start(s: Seq<char>) -> nat {
    let k = param_run(s.skip(2));
    if s.len() >= 3 && s[0] == '\x1b' && s[1] == '[' && 2 + k < s.len() && s[2 + k as int] == 'm' {
        3 + k
    } else {
        0
    }
}

/// `s` with every styling sequence removed, scanning from the left and
/// resuming after each removed sequence.
pub open spec fn without_sgr(s: Seq<char>) -> Seq<char>
    decreases s.len(),
{
    if s.len() == 0 {
        s
    } else if sgr_len_at_start(s) > 0 {
        without_sgr(s.skip(sgr_len_at_start(s) as int))
    } else {
        seq![s[0]] + without_sgr(s.drop_first())
    }
}

/// The text of the pattern that matches one styling sequence.
pub open spec fn sgr_pattern() -> Seq<char> {
    "\\x1b\\[[0-9;]*m"@
}

/// The terminal width of `s` as the unicode-width crate measures it.
pub uninterp spec fn str_width(s: Seq<char>) -> usize;

/// The number of terminal columns a styled line occupies.
pub open spec fn visible_width_of(s: Seq<char>) -> usize {
    str_width(without_sgr(s))
}

/// `t` holds no escape character, so no styling sequence can start in it.
pub open spec fn has_no_escape(t: Seq<char>) -> bool {
    forall|i: int| 0 <= i < t.len() ==> t[i] != '\x1b'
}

/// `c` is one whole styling sequence: `ESC [`, parameters, then `m`.
pub open spec fn is_sgr_code(c: Seq<char>) -> bool {
    &&& c.len() >= 3
    &&& c[0] == '\x1b'
    &&& c[1] == '['
    &&& c[c.len() - 1] == 'm'
    &&& forall|i: int| 2 <= i < c.len() - 1 ==> is_param_char(#[trigger] c[i])
}

proof fn lemma_param_run_stops(params: Seq<char>, rest: Seq<char>)
    requires
        forall|i: int| 0 <= i < params.len() ==> is_param_char(#[trigger] params[i]),
    ensures
        param_run(params + seq!['m'] + rest) == params.len(),
    decreases params.len(),
{
    let s = params + seq!['m'] + rest;
    if params.len() > 0 {
        assert(s.drop_first() =~= params.drop_first() + seq!['m'] + rest);
        assert(is_param_char(params[0]));
        lemma_param_run_stops(params.drop_first(), rest);
    } else {
        assert(s[0] == 'm');
    }
}

proof fn lemma_code_is_removed(code: Seq<char>, rest: Seq<char>)
    requires
        is_sgr_code(code),
    ensures
        without_sgr(code + rest) == without_sgr(rest),
{
    let s = code + rest;
    let params = code.subrange(2, code.len() - 1);
    assert(s.skip(2) =~= params + seq!['m'] + rest);
    assert forall|i: int| 0 <= i < params.len() implies is_param_char(#[trigger] params[i]) by {
        assert(params[i] == code[i + 2]);
    }
    lemma_param_run_stops(params, rest);
    assert(sgr_len_at_start(s) == code.len());
    assert(s.skip(code.len() as int) =~= rest);
}

proof fn lemma_plain_prefix_kept(pre: Seq<char>, rest: Seq<char>)
    requires
        has_no_escape(pre),
    ensures
        without_sgr(pre + rest) == pre + without_sgr(rest),
    decreases pre.len(),
{
    let s = pre + rest;
    if pre.len() > 0 {
        assert(s[0] != '\x1b');
        assert(sgr_len_at_start(s) == 0);
        assert(s.drop_first() =~= pre.drop_first() + rest);
        lemma_plain_prefix_kept(pre.drop_first(), rest);
        assert(pre =~= seq![pre[0]] + pre.drop_first());
        assert(pre + without_sgr(rest) =~= seq![pre[0]] + (pre.drop_first() + without_sgr(rest)));
    } else {
        assert(s =~= rest);
        assert(pre + without_sgr(rest) =~= without_sgr(rest));
    }
}

/// A styling sequence placed after plain text takes no columns: the styled
/// line is as wide as the same line without it, whatever the sequence holds.
pub proof fn lemma_styling_is_invisible(pre: Seq<char>, code: Seq<char>, post: Seq<char>)
    requires
        has_no_escape(pre),
        is_sgr_code(code),
    ensures
        without_sgr(pre + code + post) == pre + without_sgr(post),
        without_sgr(pre + post) == pre + without_sgr(post),
        visible_width_of(pre + code + post) == visible_width_of(pre + post),
{
    assert(pre + code + post =~= pre + (code + post));
    lemma_plain_prefix_kept(pre, code + post);
    lemma_code_is_removed(code, post);
    lemma_plain_prefix_kept(pre, post);
}

/// Two styled lines that differ only in which styling sequence stands at one
/// place have the same visible width.
pub proof fn lemma_width_ignores_code_choice(
    pre: Seq<char>,
    code1: Seq<char>,
    code2: Seq<char>,
    post: Seq<char>,
)
    requires
        has_no_escape(pre),
        is_sgr_code(code1),
        is_sgr_code(code2),
    ensures
        visible_width_of(pre + code1 + post) == visible_width_of(pre + code2 + post),
{
    lemma_styling_is_invisible(pre, code1, post);
    lemma_styling_is_invisible(pre, code2, post);
}

/// Text without escape characters is measured as it stands.
pub proof fn lemma_plain_text_width(t: Seq<char>)
    requires
        has_no_escape(t),
    ensures
        without_sgr(t) == t,
        visible_width_of(t) == str_width(t),
{
    lemma_plain_prefix_kept(t, Seq::empty());
    assert(t + Seq::<char>::empty() =~= t);
    assert(without_sgr(Seq::<char>::empty()) =~= Seq::<char>::empty());
}

/// Relies on regex::Regex::new and Regex::replace_all: with the styling
/// pattern, every leftmost non-overlapping match is replaced by nothing.
#[verifier::external_body]
fn regex_remove_all(pattern: &str, s: &str) -> (r: String)
    requires
        pattern@ == sgr_pattern(),
    ensures
        r@ == without_sgr(s@),
{
    regex::Regex::new(pattern).unwrap().replace_all(s, "").to_string()
}

/// Relies on unicode_width::UnicodeWidthStr::width; the empty string is 0 wide.
#[verifier::external_body]
fn unicode_str_width(s: &str) -> (r: usize)
    ensures
        r == str_width(s@),
        s@.len() == 0 ==> r == 0,
{
    unicode_width::UnicodeWidthStr::width(s)
}

/// Removes every terminal styling sequence from `s`.
pub fn strip_ansi(s: &str) -> (r: String)
    ensures
        r@ == without_sgr(s@),
{
    regex_remove_all("\\x1b\\[[0-9;]*m", s)
}

/// The number of terminal columns `s` occupies once its styling is removed.
pub fn visible_width(s: &str) -> (r: usize)
    ensures
        r == visible_width_of(s@),
{
    let plain = strip_ansi(s);
    unicode_str_width(plain.as_str())
}

} // verus!
