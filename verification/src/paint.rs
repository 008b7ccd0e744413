//! Application of ANSI styling through the `colored` crate.
//!
//! A styled span is painted by wrapping its text in an escape prefix and a
//! reset suffix; whether any escape codes appear at all is decided by
//! `colored` (terminal detection, `NO_COLOR`, overrides), so the contracts
//! here state only what holds of every outcome: the span's text appears
//! unchanged, in order, inside the painted result.

use vstd::prelude::*;
use crate::model::{Line, Span, SpanModel, Style, line_model};
use crate::text::{embeds, lemma_embeds_extend_left, lemma_embeds_extend_right, lemma_embeds_of_wrap};
use colored::Colorize;

verus! {

/// The four-character ANSI reset sequence.
pub open spec fn ansi_reset() -> Seq<char> {
    seq!['\u{1b}', '[', '0', 'm']
}

/// Text that holds no reset sequence of its own.  Only for such text does
/// painting keep the text in one piece: `colored` rewrites any embedded
/// reset to keep nested styling alive.
pub open spec fn reset_free(s: Seq<char>) -> bool {
    !embeds(s, ansi_reset())
}

/// The name `colored` resolves to the foreground color a style stands for.
fn style_color_name(style: Style) -> &'static str {
    match style {
        Style::Plain => "white",
        Style::BrightBlack => "bright black",
        Style::BrightRed => "bright red",
        Style::BrightGreen => "bright green",
        Style::BrightYellow => "bright yellow",
        Style::BrightBlue => "bright blue",
        Style::BrightMagenta => "bright magenta",
        Style::BrightCyan => "bright cyan",
        Style::BrightWhite => "bright white",
        Style::Cyan => "cyan",
        Style::Magenta => "magenta",
        Style::Yellow => "yellow",
        Style::White => "white",
    }
}

/// Relies on `Colorize::color` and the `Display` impl of `ColoredString`:
/// with coloring enabled the output is an escape prefix, the input, and the
/// reset suffix; with it disabled the output is the input itself.  Either
/// way the input appears unchanged between a (possibly empty) prefix and
/// suffix, as long as it holds no reset sequence of its own.
#[verifier::external_body]
fn color_str(s: &str, color_name: &str) -> (r: String)
    ensures
        reset_free(s@) ==> exists|p: Seq<char>, q: Seq<char>| r@ == p + s@ + q,
{
    s.color(color_name).to_string()
}

/// Relies on `Colorize::color`, `Colorize::bold` and the `Display` impl of
/// `ColoredString`, exactly as `color_str` does: the input appears
/// unchanged between a prefix and a suffix when it holds no reset sequence.
#[verifier::external_body]
fn color_bold_str(s: &str, color_name: &str) -> (r: String)
    ensures
        reset_free(s@) ==> exists|p: Seq<char>, q: Seq<char>| r@ == p + s@ + q,
{
    s.color(color_name).bold().to_string()
}

/// Paints one span: plain spans pass through verbatim, styled ones go
/// through `colored`.
pub fn paint_span(s: &Span) -> (r: String)
    ensures
        reset_free(s.text@) ==> embeds(r@, s.text@),
{
    match s.style {
        Style::Plain => {
            let r = s.text.clone();
            proof {
                if reset_free(s.text@) {
                    lemma_embeds_of_wrap(Seq::<char>::empty(), s.text@, Seq::<char>::empty());
                    assert(Seq::<char>::empty() + s.text@ + Seq::<char>::empty() =~= r@);
                }
            }
            r
        },
        _ => {
            let name = style_color_name(s.style);
            let r = if s.bold {
                color_bold_str(s.text.as_str(), name)
            } else {
                color_str(s.text.as_str(), name)
            };
            proof {
                if reset_free(s.text@) {
                    let (p, q) = choose|p: Seq<char>, q: Seq<char>| r@ == p + s.text@ + q;
                    lemma_embeds_of_wrap(p, s.text@, q);
                }
            }
            r
        },
    }
}

/// Paints a whole line: the concatenation of its painted spans.  Every
/// reset-free span text appears unchanged somewhere in the result.
pub fn paint_line(l: &Line) -> (r: String)
    ensures
        forall|k: int|
            0 <= k < line_model(*l).len() && reset_free(#[trigger] line_model(*l)[k].text)
                ==> embeds(r@, line_model(*l)[k].text),
{
    let mut out = String::new();
    let n = l.spans.len();
    let mut i: usize = 0;
    while i < n
        invariant
            i <= n,
            n == l.spans@.len(),
            forall|k: int|
                0 <= k < i && reset_free(#[trigger] line_model(*l)[k].text)
                    ==> embeds(out@, line_model(*l)[k].text),
        decreases n - i,
    {
        let ghost gout = out@;
        let piece = paint_span(&l.spans[i]);
        out.append(piece.as_str());
        proof {
            assert forall|k: int|
                0 <= k < i + 1 && reset_free(#[trigger] line_model(*l)[k].text) implies embeds(
                out@,
                line_model(*l)[k].text,
            ) by {
                if k < i {
                    lemma_embeds_extend_right(gout, piece@, line_model(*l)[k].text);
                } else {
                    assert(line_model(*l)[k].text == l.spans@[k].text@);
                    lemma_embeds_extend_left(gout, piece@, line_model(*l)[k].text);
                }
            }
        }
        i = i + 1;
    }
    out
}

/// Paints every line of a rendering, one output string per line.
pub fn paint_lines(lines: &Vec<Line>) -> (r: Vec<String>)
    ensures
        r@.len() == lines@.len(),
        forall|j: int, k: int|
            0 <= j < lines@.len() && 0 <= k < line_model(lines@[j]).len() && reset_free(
                #[trigger] line_model(lines@[j])[k].text,
            ) ==> embeds(r@[j]@, line_model(lines@[j])[k].text),
{
    let mut out: Vec<String> = Vec::new();
    let n = lines.len();
    let mut i: usize = 0;
    while i < n
        invariant
            i <= n,
            n == lines@.len(),
            out@.len() == i,
            forall|j: int, k: int|
                0 <= j < i && 0 <= k < line_model(lines@[j]).len() && reset_free(
                    #[trigger] line_model(lines@[j])[k].text,
                ) ==> embeds(out@[j]@, line_model(lines@[j])[k].text),
        decreases n - i,
    {
        let painted = paint_line(&lines[i]);
        out.push(painted);
        i = i + 1;
    }
    out
}

} // verus!
