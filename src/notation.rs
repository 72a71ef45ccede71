use vstd::prelude::*;
use crate::ansi::{
    has_no_escape, is_sgr_code, lemma_plain_text_width, lemma_styling_is_invisible, str_width,
    visible_width_of,
};
use crate::frame::{framed, render, views_of};

verus! {

/// The styling that turns on bold white.
pub open spec fn emphasis_on() -> Seq<char> {
    "\x1b[1m\x1b[37m"@
}

/// The styling that turns every attribute off.
pub open spec fn emphasis_off() -> Seq<char> {
    "\x1b[0m"@
}

/// `t` shown in bold white.
pub open spec fn emphasized(t: Seq<char>) -> Seq<char> {
    emphasis_on() + t + emphasis_off()
}

/// The line that gives the separation in radians.
pub open spec fn radians_text(rad: Seq<char>) -> Seq<char> {
    "θ = "@ + emphasized(rad) + " rad"@
}

/// The line that gives the separation in degrees, arcminutes and arcseconds.
pub open spec fn dms_text(deg: Seq<char>, min: Seq<char>, sec: Seq<char>) -> Seq<char> {
    "θ = "@ + emphasized(deg + "°"@ + min + "′"@ + sec + "″"@)
}

/// A result given as a multiple of π radians.
pub open spec fn pi_radians_text(coefficient: Seq<char>) -> Seq<char> {
    coefficient + "π rad"@
}

/// A result given in degrees.
pub open spec fn degrees_text(deg: Seq<char>) -> Seq<char> {
    deg + "°"@
}

/// The message for a conversion kind that is not known.
pub open spec fn unsupported_text() -> Seq<char> {
    "Invalid conversion type"@
}

/// A trace line: an indented formula and its value, emphasized.
pub open spec fn step_text(formula: Seq<char>, value: Seq<char>) -> Seq<char> {
    "\t"@ + formula + " = "@ + emphasized(value)
}

/// A trace line for one coordinate turned from degrees into radians.
pub open spec fn normalize_text(name: Seq<char>, degrees: Seq<char>, radians: Seq<char>) -> Seq<char> {
    step_text(name + " = "@ + degrees + " * π/180"@, radians)
}

/// Emphasized text takes exactly the columns of the text itself.
pub proof fn lemma_emphasis_is_invisible(t: Seq<char>)
    requires
        has_no_escape(t),
    ensures
        visible_width_of(emphasized(t)) == str_width(t),
{
    reveal_strlit("\x1b[1m\x1b[37m");
    reveal_strlit("\x1b[0m");
    let bold = emphasis_on().subrange(0, 4);
    let white = emphasis_on().subrange(4, 9);
    let reset = emphasis_off();
    let e = Seq::<char>::empty();
    assert(is_sgr_code(bold));
    assert(is_sgr_code(white));
    assert(is_sgr_code(reset));
    assert(emphasized(t) =~= e + bold + (white + t + reset));
    lemma_styling_is_invisible(e, bold, white + t + reset);
    assert(e + (white + t + reset) =~= e + white + (t + reset));
    lemma_styling_is_invisible(e, white, t + reset);
    assert(e + (t + reset) =~= t + reset + e);
    lemma_styling_is_invisible(t, reset, e);
    assert(t + e =~= t);
    lemma_plain_text_width(t);
}

/// `text` shown in bold white.
pub fn emphasize(text: &str) -> (r: String)
    ensures
        r@ == emphasized(text@),
{
    let mut out = String::from_str("\x1b[1m\x1b[37m");
    out.append(text);
    out.append("\x1b[0m");
    out
}

/// The line that gives the separation in radians.
pub fn radians_line(rad: &str) -> (r: String)
    ensures
        r@ == radians_text(rad@),
{
    let mut out = String::from_str("θ = ");
    let value = emphasize(rad);
    out.append(value.as_str());
    out.append(" rad");
    out
}

/// The line that gives the separation in degrees, arcminutes and arcseconds.
pub fn dms_line(deg: &str, min: &str, sec: &str) -> (r: String)
    ensures
        r@ == dms_text(deg@, min@, sec@),
{
    let mut inner = String::from_str(deg);
    inner.append("°");
    inner.append(min);
    inner.append("′");
    inner.append(sec);
    inner.append("″");
    let mut out = String::from_str("θ = ");
    let value = emphasize(inner.as_str());
    out.append(value.as_str());
    out
}

/// The boxed result of a separation: radians, then degrees, arcminutes and
/// arcseconds. The numbers come in as the text to show.
pub fn separation_report(rad: &str, deg: &str, min: &str, sec: &str) -> (r: String)
    ensures
        r@ == framed(seq![radians_text(rad@), dms_text(deg@, min@, sec@)]),
{
    let mut lines: Vec<String> = Vec::new();
    lines.push(radians_line(rad));
    lines.push(dms_line(deg, min, sec));
    let r = render(lines.as_slice());
    assert(views_of(lines@) =~= seq![radians_text(rad@), dms_text(deg@, min@, sec@)]);
    r
}

/// Frames a single line.
fn single_report(line: String) -> (r: String)
    ensures
        r@ == framed(seq![line@]),
{
    let mut lines: Vec<String> = Vec::new();
    lines.push(line);
    let r = render(lines.as_slice());
    assert(views_of(lines@) =~= seq![line@]);
    r
}

/// The boxed result of a conversion into a multiple of π radians.
pub fn pi_radians_report(coefficient: &str) -> (r: String)
    ensures
        r@ == framed(seq![pi_radians_text(coefficient@)]),
{
    let mut line = String::from_str(coefficient);
    line.append("π rad");
    single_report(line)
}

/// The boxed result of a conversion into degrees.
pub fn degrees_report(deg: &str) -> (r: String)
    ensures
        r@ == framed(seq![degrees_text(deg@)]),
{
    let mut line = String::from_str(deg);
    line.append("°");
    single_report(line)
}

/// The boxed message for a conversion kind that is not known.
pub fn unsupported_report() -> (r: String)
    ensures
        r@ == framed(seq![unsupported_text()]),
{
    single_report(String::from_str("Invalid conversion type"))
}

/// A trace line: an indented formula and its value, emphasized.
pub fn step_line(formula: &str, value: &str) -> (r: String)
    ensures
        r@ == step_text(formula@, value@),
{
    let mut out = String::from_str("\t");
    out.append(formula);
    out.append(" = ");
    let v = emphasize(value);
    out.append(v.as_str());
    out
}

/// A trace line for one coordinate turned from degrees into radians.
pub fn normalize_line(name: &str, degrees: &str, radians: &str) -> (r: String)
    ensures
        r@ == normalize_text(name@, degrees@, radians@),
{
    let mut formula = String::from_str(name);
    formula.append(" = ");
    formula.append(degrees);
    formula.append(" * π/180");
    step_line(formula.as_str(), radians)
}

/// The trace of a computation: the lines it records, in the order recorded,
/// kept only when tracing was asked for.
pub struct TraceLog {
    pub enabled: bool,
    pub events: Vec<String>,
}

impl TraceLog {
    /// An empty trace, on or off.
    pub fn new(enabled: bool) -> (r: TraceLog)
        ensures
            r.enabled == enabled,
            r.events@.len() == 0,
    {
        TraceLog { enabled, events: Vec::new() }
    }

    /// Records `line` after the earlier lines when tracing is on; does
    /// nothing when it is off.
    pub fn record(&mut self, line: String)
        ensures
            final(self).enabled == old(self).enabled,
            old(self).enabled ==> final(self).events@ == old(self).events@.push(line),
            !old(self).enabled ==> final(self).events@ == old(self).events@,
    {
        if self.enabled {
            self.events.push(line);
        }
    }
}

} // verus!
