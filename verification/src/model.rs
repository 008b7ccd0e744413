//! View models handed to the renderer, and the styled-line representation
//! every rendering function produces.
//!
//! Scores that the wire protocol carries as fractions in `[0, 1]` are held
//! as integer thousandths (so `0.52` is `520`); activation scores and
//! millisecond timings are held as integer hundredths.  This keeps the whole
//! data model in plain integers and makes every formatting rule exact.

use vstd::prelude::*;

verus! {

/// Closed set of fact categories; anything the caller cannot classify is
/// rendered with the default style as `Other`.
#[derive(Clone, Copy, PartialEq, Eq, Structural, Debug)]
pub enum FactKind {
    World,
    Agent,
    Opinion,
    Other,
}

/// Severity of a one-line status message.
#[derive(Clone, Copy, PartialEq, Eq, Structural, Debug)]
pub enum Severity {
    Success,
    Error,
    Warning,
    Info,
}

/// Foreground style of a span of text.  `Plain` means the text is emitted
/// without any escape sequence around it.
#[derive(Clone, Copy, PartialEq, Eq, Structural, Debug)]
pub enum Style {
    Plain,
    BrightBlack,
    BrightRed,
    BrightGreen,
    BrightYellow,
    BrightBlue,
    BrightMagenta,
    BrightCyan,
    BrightWhite,
    Cyan,
    Magenta,
    Yellow,
    White,
}

/// A run of text rendered in a single style.
pub struct Span {
    pub text: String,
    pub style: Style,
    pub bold: bool,
}

/// One output line, as the concatenation of its styled spans.
/// A line with no spans renders as an empty line.
pub struct Line {
    pub spans: Vec<Span>,
}

/// Mathematical model of a `Span`.
pub struct SpanModel {
    pub text: Seq<char>,
    pub style: Style,
    pub bold: bool,
}

pub open spec fn sp(text: Seq<char>, style: Style, bold: bool) -> SpanModel {
    SpanModel { text, style, bold }
}

pub open spec fn span_model(s: Span) -> SpanModel {
    SpanModel { text: s.text@, style: s.style, bold: s.bold }
}

pub open spec fn line_model(l: Line) -> Seq<SpanModel> {
    l.spans@.map_values(|s: Span| span_model(s))
}

pub open spec fn lines_model(v: Vec<Line>) -> Seq<Seq<SpanModel>> {
    v@.map_values(|l: Line| line_model(l))
}

/// One remembered fact, fully prepared by the API layer.
/// `activation` is held in hundredths (so `0.97` arrives as `97`).
pub struct Fact {
    pub text: String,
    pub fact_type: Option<FactKind>,
    pub activation: Option<u64>,
    pub context: Option<String>,
    pub occurred_start: Option<String>,
    pub occurred_end: Option<String>,
    pub event_date: Option<String>,
    pub mentioned_at: Option<String>,
    pub document_id: Option<String>,
}

/// Timing data attached to a search response.
/// `total_time` is held in hundredths of a millisecond.
pub struct TraceInfo {
    pub total_time: Option<u64>,
    pub activation_count: Option<u64>,
}

/// An ordered sequence of facts, with optional trace data.
pub struct SearchResponse {
    pub results: Vec<Fact>,
    pub trace: Option<TraceInfo>,
}

/// A generated answer plus the memory units it was based on
/// (only their count is displayed).
pub struct ThinkResponse {
    pub text: String,
    pub based_on: Vec<String>,
}

/// A registered agent.
pub struct Agent {
    pub agent_id: String,
}

/// Five trait scores plus the bias strength, each in thousandths of the
/// `[0, 1]` scale (so `0.52` is `520`).  Values above `1000` are tolerated
/// and render as a full bar.
pub struct PersonalityTraits {
    pub openness: u32,
    pub conscientiousness: u32,
    pub extraversion: u32,
    pub agreeableness: u32,
    pub neuroticism: u32,
    pub bias_strength: u32,
}

/// A full agent profile.
pub struct AgentProfile {
    pub agent_id: String,
    pub name: String,
    pub background: String,
    pub personality: PersonalityTraits,
}

/// Builds a span from a borrowed string.
pub fn span_str(text: &str, style: Style, bold: bool) -> (r: Span)
    ensures
        span_model(r) == sp(text@, style, bold),
{
    Span { text: text.to_owned(), style, bold }
}

/// Builds a span from an owned string.
pub fn span_string(text: String, style: Style, bold: bool) -> (r: Span)
    ensures
        span_model(r) == sp(text@, style, bold),
{
    Span { text, style, bold }
}

/// An empty output line.
pub fn line0() -> (r: Line)
    ensures
        line_model(r) == Seq::<SpanModel>::empty(),
{
    let l = Line { spans: Vec::new() };
    proof {
        assert(line_model(l) =~= Seq::<SpanModel>::empty());
    }
    l
}

/// A line of one span.
pub fn line1(a: Span) -> (r: Line)
    ensures
        line_model(r) == seq![span_model(a)],
{
    let mut v: Vec<Span> = Vec::new();
    let ghost ga = span_model(a);
    v.push(a);
    let l = Line { spans: v };
    proof {
        assert(line_model(l) =~= seq![ga]);
    }
    l
}

/// A line of two spans.
pub fn line2(a: Span, b: Span) -> (r: Line)
    ensures
        line_model(r) == seq![span_model(a), span_model(b)],
{
    let mut v: Vec<Span> = Vec::new();
    let ghost ga = span_model(a);
    let ghost gb = span_model(b);
    v.push(a);
    v.push(b);
    let l = Line { spans: v };
    proof {
        assert(line_model(l) =~= seq![ga, gb]);
    }
    l
}

/// A line of three spans.
pub fn line3(a: Span, b: Span, c: Span) -> (r: Line)
    ensures
        line_model(r) == seq![span_model(a), span_model(b), span_model(c)],
{
    let mut v: Vec<Span> = Vec::new();
    let ghost ga = span_model(a);
    let ghost gb = span_model(b);
    let ghost gc = span_model(c);
    v.push(a);
    v.push(b);
    v.push(c);
    let l = Line { spans: v };
    proof {
        assert(line_model(l) =~= seq![ga, gb, gc]);
    }
    l
}

/// A line of four spans.
pub fn line4(a: Span, b: Span, c: Span, d: Span) -> (r: Line)
    ensures
        line_model(r) == seq![span_model(a), span_model(b), span_model(c), span_model(d)],
{
    let mut v: Vec<Span> = Vec::new();
    let ghost ga = span_model(a);
    let ghost gb = span_model(b);
    let ghost gc = span_model(c);
    let ghost gd = span_model(d);
    v.push(a);
    v.push(b);
    v.push(c);
    v.push(d);
    let l = Line { spans: v };
    proof {
        assert(line_model(l) =~= seq![ga, gb, gc, gd]);
    }
    l
}

/// Appends a line to a line buffer.
pub fn push_line(out: &mut Vec<Line>, l: Line)
    ensures
        lines_model(*final(out)) == lines_model(*old(out)).push(line_model(l)),
{
    let ghost gl = line_model(l);
    out.push(l);
    proof {
        assert(lines_model(*out) =~= lines_model(*old(out)).push(gl));
    }
}

/// Appends every line of `tail` to `out`.
pub fn append_lines(out: &mut Vec<Line>, tail: Vec<Line>)
    ensures
        lines_model(*final(out)) == lines_model(*old(out)) + lines_model(tail),
{
    let ghost gtail = lines_model(tail);
    let ghost gout0 = lines_model(*out);
    let mut rest = tail;
    let ghost mut i: int = 0;
    while rest.len() > 0
        invariant
            0 <= i <= gtail.len(),
            rest.len() == gtail.len() - i,
            lines_model(rest) =~= gtail.skip(i),
            lines_model(*out) =~= gout0 + gtail.take(i),
        decreases rest.len(),
    {
        let ghost grest = rest@;
        let ghost glm = lines_model(rest);
        let l = rest.remove(0);
        proof {
            assert(l == grest[0]);
            assert(line_model(l) == glm[0]);
            assert(line_model(l) == gtail[i]);
            assert(rest@ =~= grest.skip(1));
            assert forall|j: int| 0 <= j < rest@.len() implies #[trigger] line_model(rest@[j])
                == gtail[i + 1 + j] by {
                assert(rest@[j] == grest[j + 1]);
                assert(glm[j + 1] == gtail.skip(i)[j + 1]);
            }
            assert(lines_model(rest) =~= gtail.skip(i + 1));
        }
        push_line(out, l);
        proof {
            i = i + 1;
            assert(lines_model(*out) =~= gout0 + gtail.take(i));
        }
    }
    proof {
        assert(lines_model(*out) =~= gout0 + gtail);
    }
}

} // verus!
