//! Rendering of each view model into styled lines.
//!
//! Every public function here returns the exact sequence of styled lines
//! that the terminal front end prints, and its contract states that
//! sequence in full through a spec-level model.

use vstd::prelude::*;
use crate::model::{
    Agent, Fact, FactKind, Line, SearchResponse, Severity, SpanModel, Style, ThinkResponse,
    TraceInfo, append_lines, line0, line1, line2, line3, line4, line_model, lines_model,
    push_line, sp, span_str, span_string,
};
use crate::text::{
    cat2, cat3, char_run, char_run_model, content_preview, dec_model, format_hundredths,
    format_u64, hundredths_model, pad_right, pad_right_model, preview_model,
};

verus! {

/// An empty output line.
pub open spec fn blank() -> Seq<SpanModel> {
    Seq::<SpanModel>::empty()
}

/// A line of a single unstyled span.
pub open spec fn plain1(t: Seq<char>) -> Seq<SpanModel> {
    seq![sp(t, Style::Plain, false)]
}

/// The banner: a bright cyan box, then an empty line.
pub open spec fn banner_model() -> Seq<Seq<SpanModel>> {
    seq![
        seq![sp("╔══════════════════════════════════════════════════╗"@, Style::BrightCyan, false)],
        seq![sp("║            MEMORA - Memory CLI                   ║"@, Style::BrightCyan, false)],
        seq![sp("╚══════════════════════════════════════════════════╝"@, Style::BrightCyan, false)],
        blank(),
    ]
}

/// The decorative banner.
pub fn banner_lines() -> (r: Vec<Line>)
    ensures
        lines_model(r) == banner_model(),
{
    let mut out: Vec<Line> = Vec::new();
    push_line(&mut out, line1(span_str("╔══════════════════════════════════════════════════╗", Style::BrightCyan, false)));
    push_line(&mut out, line1(span_str("║            MEMORA - Memory CLI                   ║", Style::BrightCyan, false)));
    push_line(&mut out, line1(span_str("╚══════════════════════════════════════════════════╝", Style::BrightCyan, false)));
    push_line(&mut out, line0());
    proof {
        assert(lines_model(out) =~= banner_model());
    }
    out
}

/// A section header: an empty line, the title between heavy rules in bold
/// bright yellow, and another empty line.
pub open spec fn section_header_model(title: Seq<char>) -> Seq<Seq<SpanModel>> {
    seq![
        blank(),
        seq![sp("━━━ "@ + title + " ━━━"@, Style::BrightYellow, true)],
        blank(),
    ]
}

/// Renders a section header around `title`.
pub fn section_header_lines(title: &str) -> (r: Vec<Line>)
    ensures
        lines_model(r) == section_header_model(title@),
{
    let mut out: Vec<Line> = Vec::new();
    push_line(&mut out, line0());
    let rule = cat3("━━━ ", title, " ━━━");
    push_line(&mut out, line1(span_string(rule, Style::BrightYellow, true)));
    push_line(&mut out, line0());
    proof {
        assert(lines_model(out) =~= section_header_model(title@));
    }
    out
}

/// The icon shown before a fact's tag.
pub open spec fn kind_icon(k: Option<FactKind>) -> Seq<char> {
    match k {
        Some(FactKind::World) => "🌍 "@,
        Some(FactKind::Agent) => "🤖 "@,
        Some(FactKind::Opinion) => "💭 "@,
        _ => "📝 "@,
    }
}

/// The bracketed upper-case tag of a fact.
pub open spec fn kind_tag(k: Option<FactKind>) -> Seq<char> {
    match k {
        Some(FactKind::World) => "[WORLD]"@,
        Some(FactKind::Agent) => "[AGENT]"@,
        Some(FactKind::Opinion) => "[OPINION]"@,
        Some(FactKind::Other) => "[OTHER]"@,
        None => "[UNKNOWN]"@,
    }
}

/// The color of a fact's tag: world is cyan, agent is magenta, opinion is
/// yellow, anything else the default white.
pub open spec fn kind_style(k: Option<FactKind>) -> Style {
    match k {
        Some(FactKind::World) => Style::Cyan,
        Some(FactKind::Agent) => Style::Magenta,
        Some(FactKind::Opinion) => Style::Yellow,
        _ => Style::White,
    }
}

fn kind_icon_str(k: Option<FactKind>) -> (r: &'static str)
    ensures
        r@ == kind_icon(k),
{
    match k {
        Some(FactKind::World) => "🌍 ",
        Some(FactKind::Agent) => "🤖 ",
        Some(FactKind::Opinion) => "💭 ",
        _ => "📝 ",
    }
}

fn kind_tag_str(k: Option<FactKind>) -> (r: &'static str)
    ensures
        r@ == kind_tag(k),
{
    match k {
        Some(FactKind::World) => "[WORLD]",
        Some(FactKind::Agent) => "[AGENT]",
        Some(FactKind::Opinion) => "[OPINION]",
        Some(FactKind::Other) => "[OTHER]",
        None => "[UNKNOWN]",
    }
}

fn kind_style_of(k: Option<FactKind>) -> (r: Style)
    ensures
        r == kind_style(k),
{
    match k {
        Some(FactKind::World) => Style::Cyan,
        Some(FactKind::Agent) => Style::Magenta,
        Some(FactKind::Opinion) => Style::Yellow,
        _ => Style::White,
    }
}

/// The head line of a fact block: icon, tag, and — when activation display
/// is requested and the score is present — the score to two decimals in
/// parentheses.
pub open spec fn fact_head(f: Fact, show_activation: bool) -> Seq<SpanModel> {
    let base = seq![
        sp(kind_icon(f.fact_type), Style::Plain, false),
        sp(kind_tag(f.fact_type), kind_style(f.fact_type), true),
    ];
    match f.activation {
        Some(a) if show_activation => base.push(
            sp(" ("@ + hundredths_model(a as nat) + ")"@, Style::BrightBlack, false),
        ),
        _ => base,
    }
}

/// A metadata line: two spaces, the dimmed label, `: `, the dimmed value.
pub open spec fn meta_line(label: Seq<char>, value: Seq<char>) -> Seq<SpanModel> {
    seq![
        sp("  "@, Style::Plain, false),
        sp(label, Style::BrightBlack, false),
        sp(": "@, Style::Plain, false),
        sp(value, Style::BrightBlack, false),
    ]
}

/// Zero or one metadata line for an optional field.
pub open spec fn opt_meta(v: Option<String>, label: Seq<char>) -> Seq<Seq<SpanModel>> {
    match v {
        Some(x) => seq![meta_line(label, x@)],
        None => Seq::empty(),
    }
}

/// The temporal metadata of a fact: a point event when both bounds are set
/// and equal, a range when they differ, the start alone when only it is
/// set, and the legacy `Date` line when only `event_date` is present.
pub open spec fn temporal_model(f: Fact) -> Seq<Seq<SpanModel>> {
    match f.occurred_start {
        Some(s) => match f.occurred_end {
            Some(e) => if s@ == e@ {
                seq![meta_line("Occurred"@, s@)]
            } else {
                seq![meta_line("Occurred"@, s@ + " to "@ + e@)]
            },
            None => seq![meta_line("Occurred"@, s@)],
        },
        None => match f.event_date {
            Some(d) => seq![meta_line("Date"@, d@)],
            None => Seq::empty(),
        },
    }
}

/// A full fact block: head line, indented text, the metadata lines that are
/// present (context, temporal, mentioned-at, document id, in that order),
/// and a closing empty line.
pub open spec fn fact_model(f: Fact, show_activation: bool) -> Seq<Seq<SpanModel>> {
    seq![fact_head(f, show_activation), plain1("  "@ + f.text@)] + opt_meta(f.context, "Context"@)
        + temporal_model(f) + opt_meta(f.mentioned_at, "Mentioned"@)
        + opt_meta(f.document_id, "Document"@) + seq![blank()]
}

fn meta_line_exec(label: &str, value: &str) -> (r: Line)
    ensures
        line_model(r) == meta_line(label@, value@),
{
    let l = line4(
        span_str("  ", Style::Plain, false),
        span_str(label, Style::BrightBlack, false),
        span_str(": ", Style::Plain, false),
        span_str(value, Style::BrightBlack, false),
    );
    proof {
        assert(line_model(l) =~= meta_line(label@, value@));
    }
    l
}

/// Renders one fact block.
pub fn fact_lines(f: &Fact, show_activation: bool) -> (r: Vec<Line>)
    ensures
        lines_model(r) == fact_model(*f, show_activation),
{
    let mut out: Vec<Line> = Vec::new();

    let icon = span_str(kind_icon_str(f.fact_type), Style::Plain, false);
    let tag = span_str(kind_tag_str(f.fact_type), kind_style_of(f.fact_type), true);
    let mut shown_activation = false;
    match f.activation {
        Some(a) if show_activation => {
            let score = cat3(" (", format_hundredths(a).as_str(), ")");
            let head = line3(icon, tag, span_string(score, Style::BrightBlack, false));
            proof {
                assert(line_model(head) =~= fact_head(*f, show_activation));
            }
            push_line(&mut out, head);
        },
        _ => {
            let head = line2(icon, tag);
            proof {
                assert(line_model(head) =~= fact_head(*f, show_activation));
            }
            push_line(&mut out, head);
        },
    }

    let body = cat2("  ", f.text.as_str());
    push_line(&mut out, line1(span_string(body, Style::Plain, false)));
    let ghost g0 = seq![fact_head(*f, show_activation), plain1("  "@ + f.text@)];
    proof {
        assert(lines_model(out) =~= g0);
    }

    match &f.context {
        Some(c) => {
            push_line(&mut out, meta_line_exec("Context", c.as_str()));
        },
        None => {},
    }
    let ghost g1 = g0 + opt_meta(f.context, "Context"@);
    proof {
        assert(lines_model(out) =~= g1);
    }

    let ghost g2 = g1 + temporal_model(*f);
    match &f.occurred_start {
        Some(s) => {
            match &f.occurred_end {
                Some(e) => {
                    if String::eq(s, e) {
                        push_line(&mut out, meta_line_exec("Occurred", s.as_str()));
                        proof {
                            assert(temporal_model(*f) == seq![meta_line("Occurred"@, s@)]);
                            assert(lines_model(out) =~= g2);
                        }
                    } else {
                        let range = cat3(s.as_str(), " to ", e.as_str());
                        push_line(&mut out, meta_line_exec("Occurred", range.as_str()));
                        proof {
                            assert(temporal_model(*f) == seq![
                                meta_line("Occurred"@, s@ + " to "@ + e@),
                            ]);
                            assert(lines_model(out) =~= g2);
                        }
                    }
                },
                None => {
                    push_line(&mut out, meta_line_exec("Occurred", s.as_str()));
                    proof {
                        assert(temporal_model(*f) == seq![meta_line("Occurred"@, s@)]);
                        assert(lines_model(out) =~= g2);
                    }
                },
            }
        },
        None => {
            match &f.event_date {
                Some(d) => {
                    push_line(&mut out, meta_line_exec("Date", d.as_str()));
                    proof {
                        assert(temporal_model(*f) == seq![meta_line("Date"@, d@)]);
                        assert(lines_model(out) =~= g2);
                    }
                },
                None => {
                    proof {
                        assert(temporal_model(*f) == Seq::<Seq<SpanModel>>::empty());
                        assert(lines_model(out) =~= g2);
                    }
                },
            }
        },
    }
    proof {
        assert(lines_model(out) =~= g2);
    }

    match &f.mentioned_at {
        Some(m) => {
            push_line(&mut out, meta_line_exec("Mentioned", m.as_str()));
        },
        None => {},
    }
    let ghost g3 = g2 + opt_meta(f.mentioned_at, "Mentioned"@);
    proof {
        assert(lines_model(out) =~= g3);
    }

    match &f.document_id {
        Some(d) => {
            push_line(&mut out, meta_line_exec("Document", d.as_str()));
        },
        None => {},
    }
    let ghost g4 = g3 + opt_meta(f.document_id, "Document"@);
    proof {
        assert(lines_model(out) =~= g4);
    }

    push_line(&mut out, line0());
    proof {
        assert(lines_model(out) =~= g4 + seq![blank()]);
        assert(lines_model(out) =~= fact_model(*f, show_activation));
    }
    out
}

/// The trace block: its section header, a line per present field, and a
/// closing empty line; absent fields leave no line at all.
pub open spec fn trace_model(t: TraceInfo) -> Seq<Seq<SpanModel>> {
    section_header_model("Trace Information"@) + (match t.total_time {
        Some(x) => seq![
            seq![
                sp("  ⏱️  Total time: "@, Style::Plain, false),
                sp(hundredths_model(x as nat) + "ms"@, Style::BrightGreen, false),
            ],
        ],
        None => Seq::<Seq<SpanModel>>::empty(),
    }) + (match t.activation_count {
        Some(c) => seq![
            seq![
                sp("  📊 Activation count: "@, Style::Plain, false),
                sp(dec_model(c as nat), Style::BrightGreen, false),
            ],
        ],
        None => Seq::<Seq<SpanModel>>::empty(),
    }) + seq![blank()]
}

/// Renders the trace block.
pub fn trace_info_lines(t: &TraceInfo) -> (r: Vec<Line>)
    ensures
        lines_model(r) == trace_model(*t),
{
    let mut out = section_header_lines("Trace Information");
    match t.total_time {
        Some(x) => {
            let v = cat2(format_hundredths(x).as_str(), "ms");
            push_line(&mut out, line2(
                span_str("  ⏱️  Total time: ", Style::Plain, false),
                span_string(v, Style::BrightGreen, false),
            ));
        },
        None => {},
    }
    match t.activation_count {
        Some(c) => {
            push_line(&mut out, line2(
                span_str("  📊 Activation count: ", Style::Plain, false),
                span_string(format_u64(c), Style::BrightGreen, false),
            ));
        },
        None => {},
    }
    push_line(&mut out, line0());
    proof {
        assert(lines_model(out) =~= trace_model(*t));
    }
    out
}

/// The think-response block: an empty line, the answer in bright white,
/// an empty line, and — only when the based-on list is non-empty — the
/// dimmed count of memory units it rests on.
pub open spec fn think_model(t: ThinkResponse) -> Seq<Seq<SpanModel>> {
    seq![blank(), seq![sp(t.text@, Style::BrightWhite, false)], blank()] + (
    if t.based_on@.len() > 0 {
        seq![
            seq![
                sp(
                    "Based on "@ + dec_model(t.based_on@.len()) + " memory units"@,
                    Style::BrightBlack,
                    false,
                ),
            ],
        ]
    } else {
        Seq::<Seq<SpanModel>>::empty()
    })
}

/// Renders a think response.
pub fn think_response_lines(t: &ThinkResponse) -> (r: Vec<Line>)
    ensures
        lines_model(r) == think_model(*t),
{
    let mut out: Vec<Line> = Vec::new();
    push_line(&mut out, line0());
    push_line(&mut out, line1(span_str(t.text.as_str(), Style::BrightWhite, false)));
    push_line(&mut out, line0());
    let n = t.based_on.len();
    if n > 0 {
        let msg = cat3("Based on ", format_u64(n as u64).as_str(), " memory units");
        push_line(&mut out, line1(span_string(msg, Style::BrightBlack, false)));
    }
    proof {
        assert(lines_model(out) =~= think_model(*t));
    }
    out
}

/// The tag line above the `i`-th (zero-based) search result.
pub open spec fn result_tag_line(i: int) -> Seq<SpanModel> {
    seq![sp("  Result #"@ + dec_model((i + 1) as nat), Style::BrightBlack, false)]
}

/// The enumerated fact blocks of a result list, from index `i` on: each
/// fact is tagged with its one-based position and rendered with its
/// activation shown.
pub open spec fn results_model(results: Seq<Fact>, i: int) -> Seq<Seq<SpanModel>>
    decreases results.len() - i,
{
    if i < 0 || i >= results.len() {
        Seq::<Seq<SpanModel>>::empty()
    } else {
        seq![result_tag_line(i)] + fact_model(results[i], true) + results_model(results, i + 1)
    }
}

/// The dimmed empty-result notice.
pub open spec fn no_results_line() -> Seq<SpanModel> {
    seq![sp("  No results found."@, Style::BrightBlack, false)]
}

/// A full search-result rendering: a section header carrying the result
/// count, then either the empty-result notice or the enumerated facts,
/// then — only when tracing was requested and trace data is present —
/// the trace block.
pub open spec fn search_model(resp: SearchResponse, show_trace: bool) -> Seq<Seq<SpanModel>> {
    section_header_model("Search Results ("@ + dec_model(resp.results@.len()) + ")"@) + (
    if resp.results@.len() == 0 {
        seq![no_results_line()]
    } else {
        results_model(resp.results@, 0)
    }) + (if show_trace {
        match resp.trace {
            Some(t) => trace_model(t),
            None => Seq::<Seq<SpanModel>>::empty(),
        }
    } else {
        Seq::<Seq<SpanModel>>::empty()
    })
}

/// Renders search results.
pub fn search_results_lines(resp: &SearchResponse, show_trace: bool) -> (r: Vec<Line>)
    ensures
        lines_model(r) == search_model(*resp, show_trace),
{
    let n = resp.results.len();
    let title = cat3("Search Results (", format_u64(n as u64).as_str(), ")");
    let mut out = section_header_lines(title.as_str());
    let ghost ghead = lines_model(out);
    if n == 0 {
        push_line(&mut out, line1(span_str("  No results found.", Style::BrightBlack, false)));
    } else {
        let mut i: usize = 0;
        while i < n
            invariant
                i <= n,
                n == resp.results@.len(),
                lines_model(out) + results_model(resp.results@, i as int) =~= ghead
                    + results_model(resp.results@, 0),
            decreases n - i,
        {
            let ghost gout = lines_model(out);
            let tag = cat2("  Result #", format_u64((i + 1) as u64).as_str());
            let tagline = line1(span_string(tag, Style::BrightBlack, false));
            proof {
                assert(line_model(tagline) =~= result_tag_line(i as int));
            }
            push_line(&mut out, tagline);
            let fl = fact_lines(&resp.results[i], true);
            append_lines(&mut out, fl);
            proof {
                assert(lines_model(out) =~= gout + seq![result_tag_line(i as int)] + fact_model(
                    resp.results@[i as int],
                    true,
                ));
                assert(results_model(resp.results@, i as int) == seq![result_tag_line(i as int)]
                    + fact_model(resp.results@[i as int], true) + results_model(
                    resp.results@,
                    i + 1,
                ));
                assert(lines_model(out) + results_model(resp.results@, i + 1) =~= gout
                    + results_model(resp.results@, i as int));
            }
            i = i + 1;
        }
        proof {
            assert(results_model(resp.results@, n as int) =~= Seq::<Seq<SpanModel>>::empty());
            assert(lines_model(out) =~= ghead + results_model(resp.results@, 0));
        }
    }
    if show_trace {
        match &resp.trace {
            Some(t) => {
                let tl = trace_info_lines(t);
                append_lines(&mut out, tl);
            },
            None => {},
        }
    }
    proof {
        assert(lines_model(out) =~= search_model(*resp, show_trace));
    }
    out
}

/// The longest agent id in `agents`, in characters.
pub open spec fn max_id_len(agents: Seq<Agent>) -> nat
    decreases agents.len(),
{
    if agents.len() == 0 {
        0
    } else {
        let rest = max_id_len(agents.drop_last());
        let l = agents.last().agent_id@.len();
        if l > rest {
            l
        } else {
            rest
        }
    }
}

/// The table's column width: the longest agent id, but never less than the
/// eight characters of the `Agent ID` heading.
pub open spec fn table_width_model(agents: Seq<Agent>) -> nat {
    if max_id_len(agents) > 8 {
        max_id_len(agents)
    } else {
        8
    }
}

/// Computes the table's column width.
pub fn table_width(agents: &Vec<Agent>) -> (r: usize)
    ensures
        r as nat == table_width_model(agents@),
{
    let mut w: usize = 8;
    let mut i: usize = 0;
    proof {
        assert(agents@.take(0) =~= Seq::<Agent>::empty());
    }
    while i < agents.len()
        invariant
            i <= agents@.len(),
            w as nat == table_width_model(agents@.take(i as int)),
        decreases agents@.len() - i,
    {
        let l = agents[i].agent_id.as_str().unicode_len();
        if l > w {
            w = l;
        }
        proof {
            assert(agents@.take(i + 1).drop_last() =~= agents@.take(i as int));
            assert(agents@.take(i + 1).last() == agents@[i as int]);
        }
        i = i + 1;
    }
    proof {
        assert(agents@.take(agents@.len() as int) =~= agents@);
    }
    w
}

/// A horizontal border of the table: two spaces, the corner characters
/// around a rule two characters wider than the column.
pub open spec fn table_border(left: Seq<char>, right: Seq<char>, w: nat) -> Seq<SpanModel> {
    plain1(left + char_run_model('─', w + 2) + right)
}

/// The heading row, with the `Agent ID` label padded to the column width.
pub open spec fn table_heading(w: nat) -> Seq<SpanModel> {
    seq![
        sp("  │ "@, Style::Plain, false),
        sp(pad_right_model("Agent ID"@, w), Style::BrightCyan, true),
        sp(" │"@, Style::Plain, false),
    ]
}

/// One body row of the table.
pub open spec fn table_row(id: Seq<char>, w: nat) -> Seq<SpanModel> {
    plain1("  │ "@ + pad_right_model(id, w) + " │"@)
}

/// The body rows from index `i` on.
pub open spec fn table_rows(agents: Seq<Agent>, i: int, w: nat) -> Seq<Seq<SpanModel>>
    decreases agents.len() - i,
{
    if i < 0 || i >= agents.len() {
        Seq::<Seq<SpanModel>>::empty()
    } else {
        seq![table_row(agents[i].agent_id@, w)] + table_rows(agents, i + 1, w)
    }
}

/// The dimmed empty-table notice.
pub open spec fn no_agents_line() -> Seq<SpanModel> {
    seq![sp("  No agents found."@, Style::BrightBlack, false)]
}

/// The agents table: a section header carrying the count, then — only when
/// there are agents at all — a bordered one-column table and a closing
/// empty line.  With no agents only the notice is printed, and none of the
/// border rows.
pub open spec fn agents_table_model(agents: Seq<Agent>) -> Seq<Seq<SpanModel>> {
    section_header_model("Agents ("@ + dec_model(agents.len()) + ")"@) + (if agents.len() == 0 {
        seq![no_agents_line()]
    } else {
        let w = table_width_model(agents);
        seq![table_border("  ┌"@, "┐"@, w), table_heading(w), table_border("  ├"@, "┤"@, w)]
            + table_rows(agents, 0, w) + seq![table_border("  └"@, "┘"@, w), blank()]
    })
}

fn border_line(left: &str, right: &str, w: usize) -> (r: Line)
    requires
        w + 2 <= usize::MAX,
    ensures
        line_model(r) == table_border(left@, right@, w as nat),
{
    proof {
        reveal_strlit("─");
    }
    let rule = char_run("─", w + 2);
    let mut s = left.to_owned();
    s.append(rule.as_str());
    s.append(right);
    let l = line1(span_string(s, Style::Plain, false));
    proof {
        assert(line_model(l) =~= table_border(left@, right@, w as nat));
    }
    l
}

/// Renders the agents table.  The width bound is a machine limit: the rule
/// of a bordered table is two characters wider than its column.
pub fn agents_table_lines(agents: &Vec<Agent>) -> (r: Vec<Line>)
    requires
        table_width_model(agents@) + 2 <= usize::MAX,
    ensures
        lines_model(r) == agents_table_model(agents@),
{
    let n = agents.len();
    let title = cat3("Agents (", format_u64(n as u64).as_str(), ")");
    let mut out = section_header_lines(title.as_str());
    let ghost ghead = lines_model(out);
    if n == 0 {
        push_line(&mut out, line1(span_str("  No agents found.", Style::BrightBlack, false)));
        proof {
            assert(lines_model(out) =~= agents_table_model(agents@));
        }
        return out;
    }
    let w = table_width(agents);
    push_line(&mut out, border_line("  ┌", "┐", w));
    let heading = line3(
        span_str("  │ ", Style::Plain, false),
        span_string(pad_right("Agent ID", w), Style::BrightCyan, true),
        span_str(" │", Style::Plain, false),
    );
    proof {
        assert(line_model(heading) =~= table_heading(w as nat));
    }
    push_line(&mut out, heading);
    push_line(&mut out, border_line("  ├", "┤", w));
    let ghost gtop = lines_model(out);
    let mut i: usize = 0;
    while i < n
        invariant
            i <= n,
            n == agents@.len(),
            w + 2 <= usize::MAX,
            w as nat == table_width_model(agents@),
            lines_model(out) + table_rows(agents@, i as int, w as nat) =~= gtop + table_rows(
                agents@,
                0,
                w as nat,
            ),
        decreases n - i,
    {
        let ghost gout = lines_model(out);
        let mut s = "  │ ".to_owned();
        s.append(pad_right(agents[i].agent_id.as_str(), w).as_str());
        s.append(" │");
        let row = line1(span_string(s, Style::Plain, false));
        proof {
            assert(line_model(row) =~= table_row(agents@[i as int].agent_id@, w as nat));
        }
        push_line(&mut out, row);
        proof {
            assert(lines_model(out) =~= gout + seq![table_row(agents@[i as int].agent_id@, w as nat)]);
            assert(lines_model(out) + table_rows(agents@, i + 1, w as nat) =~= gout + table_rows(
                agents@,
                i as int,
                w as nat,
            ));
        }
        i = i + 1;
    }
    proof {
        assert(table_rows(agents@, n as int, w as nat) =~= Seq::<Seq<SpanModel>>::empty());
        assert(lines_model(out) =~= gtop + table_rows(agents@, 0, w as nat));
    }
    push_line(&mut out, border_line("  └", "┘", w));
    push_line(&mut out, line0());
    proof {
        assert(lines_model(out) =~= agents_table_model(agents@));
    }
    out
}

/// The icon of a status message.
pub open spec fn severity_icon(s: Severity) -> Seq<char> {
    match s {
        Severity::Success => "✓"@,
        Severity::Error => "✗"@,
        Severity::Warning => "⚠"@,
        Severity::Info => "ℹ"@,
    }
}

/// The icon color of a status message: success green, error red, warning
/// yellow, info blue.
pub open spec fn severity_icon_style(s: Severity) -> Style {
    match s {
        Severity::Success => Style::BrightGreen,
        Severity::Error => Style::BrightRed,
        Severity::Warning => Style::BrightYellow,
        Severity::Info => Style::BrightBlue,
    }
}

/// The message color: errors and warnings repeat the icon color, the rest
/// are bright white.
pub open spec fn severity_text_style(s: Severity) -> Style {
    match s {
        Severity::Success => Style::BrightWhite,
        Severity::Error => Style::BrightRed,
        Severity::Warning => Style::BrightYellow,
        Severity::Info => Style::BrightWhite,
    }
}

/// A one-line status message: bold icon, a space, the message.
pub open spec fn status_model(sev: Severity, msg: Seq<char>) -> Seq<SpanModel> {
    seq![
        sp(severity_icon(sev), severity_icon_style(sev), true),
        sp(" "@, Style::Plain, false),
        sp(msg, severity_text_style(sev), false),
    ]
}

/// Renders a one-line status message.  Error messages belong on the error
/// stream; the other severities on standard output.
pub fn status_line(sev: Severity, message: &str) -> (r: Line)
    ensures
        line_model(r) == status_model(sev, message@),
{
    let icon = match sev {
        Severity::Success => "✓",
        Severity::Error => "✗",
        Severity::Warning => "⚠",
        Severity::Info => "ℹ",
    };
    let istyle = match sev {
        Severity::Success => Style::BrightGreen,
        Severity::Error => Style::BrightRed,
        Severity::Warning => Style::BrightYellow,
        Severity::Info => Style::BrightBlue,
    };
    let tstyle = match sev {
        Severity::Success => Style::BrightWhite,
        Severity::Error => Style::BrightRed,
        Severity::Warning => Style::BrightYellow,
        Severity::Info => Style::BrightWhite,
    };
    let l = line3(
        span_str(icon, istyle, true),
        span_str(" ", Style::Plain, false),
        span_str(message, tstyle, false),
    );
    proof {
        assert(line_model(l) =~= status_model(sev, message@));
    }
    l
}

/// The stored-memory block: a queued or stored status line, the document
/// id, and the truncated content preview.
pub open spec fn stored_memory_model(doc_id: Seq<char>, content: Seq<char>, is_async: bool)
    -> Seq<Seq<SpanModel>> {
    seq![
        if is_async {
            seq![
                sp("⏳"@, Style::BrightYellow, false),
                sp(" Queued for background processing"@, Style::Plain, false),
            ]
        } else {
            seq![
                sp("✓"@, Style::BrightGreen, false),
                sp(" Stored successfully"@, Style::Plain, false),
            ]
        },
        seq![sp("  Document ID: "@, Style::Plain, false), sp(doc_id, Style::BrightCyan, false)],
        seq![
            sp("  Content: "@, Style::Plain, false),
            sp(preview_model(content), Style::BrightBlack, false),
        ],
        blank(),
    ]
}

/// Renders the acknowledgement after storing a memory.
pub fn stored_memory_lines(doc_id: &str, content: &str, is_async: bool) -> (r: Vec<Line>)
    ensures
        lines_model(r) == stored_memory_model(doc_id@, content@, is_async),
{
    let mut out: Vec<Line> = Vec::new();
    if is_async {
        push_line(&mut out, line2(
            span_str("⏳", Style::BrightYellow, false),
            span_str(" Queued for background processing", Style::Plain, false),
        ));
    } else {
        push_line(&mut out, line2(
            span_str("✓", Style::BrightGreen, false),
            span_str(" Stored successfully", Style::Plain, false),
        ));
    }
    push_line(&mut out, line2(
        span_str("  Document ID: ", Style::Plain, false),
        span_str(doc_id, Style::BrightCyan, false),
    ));
    push_line(&mut out, line2(
        span_str("  Content: ", Style::Plain, false),
        span_string(content_preview(content), Style::BrightBlack, false),
    ));
    push_line(&mut out, line0());
    proof {
        assert(lines_model(out) =~= stored_memory_model(doc_id@, content@, is_async));
    }
    out
}

/// The confirmation prompt line, written without a trailing newline: a bold
/// blue question mark, the message, and the `[y/N]` hint.
pub open spec fn confirmation_prompt_model(msg: Seq<char>) -> Seq<SpanModel> {
    seq![
        sp("?"@, Style::BrightBlue, true),
        sp(" "@, Style::Plain, false),
        sp(msg + " [y/N]: "@, Style::Plain, false),
    ]
}

/// Renders the confirmation prompt.
pub fn confirmation_prompt(message: &str) -> (r: Line)
    ensures
        line_model(r) == confirmation_prompt_model(message@),
{
    let l = line3(
        span_str("?", Style::BrightBlue, true),
        span_str(" ", Style::Plain, false),
        span_string(cat2(message, " [y/N]: "), Style::Plain, false),
    );
    proof {
        assert(line_model(l) =~= confirmation_prompt_model(message@));
    }
    l
}

} // verus!
