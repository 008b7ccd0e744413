//! Personality bar charts: the profile view and the before/after delta
//! view.  Scores arrive in thousandths of the `[0, 1]` scale; a score
//! above `1000` is clamped, so it renders as a full bar and `100%`.

use vstd::prelude::*;
use crate::model::{
    AgentProfile, Line, PersonalityTraits, SpanModel, Style, append_lines, line0, line1, line3,
    line_model, lines_model, push_line, sp, span_str, span_string,
};
use crate::text::{
    cat2, char_run, char_run_model, dec_model, format_u64, pad_right, pad_right_model,
    split_lines, split_lines_model,
};
use crate::render::{blank, section_header_model, section_header_lines};

verus! {

/// A score clamped to the nominal `[0, 1000]` range.
pub open spec fn clamped(m: nat) -> nat {
    if m > 1000 {
        1000
    } else {
        m
    }
}

/// The number of filled cells of a 40-cell bar: `score * 40 / 1000`
/// rounded to the nearest integer (the division by 25 never leaves an
/// exact half), clamped to `[0, 40]`.
pub open spec fn fill_of(m: nat) -> nat {
    (clamped(m) + 12) / 25
}

/// The percentage shown after a bar: `score / 10` rounded half up,
/// clamped to `[0, 100]`.
pub open spec fn pct_of(m: nat) -> nat {
    (clamped(m) + 5) / 10
}

/// Computes the filled-cell count of a 40-cell bar.
pub fn bar_fill(m: u32) -> (r: usize)
    ensures
        r as nat == fill_of(m as nat),
        r <= 40,
{
    let c = if m > 1000 {
        1000
    } else {
        m
    };
    ((c + 12) / 25) as usize
}

/// Computes the percentage shown after a bar.
pub fn bar_pct(m: u32) -> (r: u64)
    ensures
        r as nat == pct_of(m as nat),
{
    let c = if m > 1000 {
        1000
    } else {
        m
    };
    ((c + 5) / 10) as u64
}

/// A plain 40-cell bar: the filled cells, then the empty ones.
pub open spec fn bar_model(m: nat) -> Seq<char> {
    char_run_model('█', fill_of(m)) + char_run_model('░', (40 - fill_of(m)) as nat)
}

/// A 40-cell bar marking a change: the last three filled cells (or all of
/// them, when fewer are filled) use the shaded glyph.
pub open spec fn delta_bar_model(m: nat) -> Seq<char> {
    let f = fill_of(m);
    let shaded = if f > 3 {
        3
    } else {
        f
    };
    char_run_model('█', (f - shaded) as nat) + char_run_model('▓', shaded as nat)
        + char_run_model('░', (40 - f) as nat)
}

/// Builds a plain 40-cell bar.
pub fn bar_cells(m: u32) -> (r: String)
    ensures
        r@ == bar_model(m as nat),
{
    let f = bar_fill(m);
    proof {
        reveal_strlit("█");
        reveal_strlit("░");
    }
    let mut s = char_run("█", f);
    s.append(char_run("░", 40 - f).as_str());
    proof {
        assert(s@ =~= bar_model(m as nat));
    }
    s
}

/// Builds a 40-cell bar that marks a change.
pub fn delta_bar_cells(m: u32) -> (r: String)
    ensures
        r@ == delta_bar_model(m as nat),
{
    let f = bar_fill(m);
    let shaded = if f > 3 {
        3
    } else {
        f
    };
    proof {
        reveal_strlit("█");
        reveal_strlit("▓");
        reveal_strlit("░");
    }
    let mut s = char_run("█", f - shaded);
    s.append(char_run("▓", shaded).as_str());
    s.append(char_run("░", 40 - f).as_str());
    proof {
        assert(s@ =~= delta_bar_model(m as nat));
    }
    s
}

/// Whether a trait moved by at least the display threshold of `0.01`
/// (ten thousandths).
pub open spec fn changed_model(old_score: nat, new_score: nat) -> bool {
    if old_score >= new_score {
        old_score - new_score >= 10
    } else {
        new_score - old_score >= 10
    }
}

/// Whether old and new scores differ by at least the display threshold.
pub fn score_changed(old_score: u32, new_score: u32) -> (r: bool)
    ensures
        r == changed_model(old_score as nat, new_score as nat),
{
    if old_score >= new_score {
        old_score - new_score >= 10
    } else {
        new_score - old_score >= 10
    }
}

/// A profile bar row: indented icon, the label padded to twenty
/// characters, the colored bar in brackets, and the percentage.
pub open spec fn trait_row_model(icon: Seq<char>, label: Seq<char>, m: nat, style: Style)
    -> Seq<SpanModel> {
    seq![
        sp("  "@ + icon + " "@ + pad_right_model(label, 20) + " ["@, Style::Plain, false),
        sp(bar_model(m), style, false),
        sp("] "@ + dec_model(pct_of(m)) + "%"@, Style::Plain, false),
    ]
}

/// A delta bar row: the bar shows the new value, shaded at its end when
/// the trait changed, and the percentage carries an arrow exactly when it
/// changed.
pub open spec fn delta_row_model(
    icon: Seq<char>,
    label: Seq<char>,
    old_score: nat,
    new_score: nat,
    style: Style,
) -> Seq<SpanModel> {
    seq![
        sp("  "@ + icon + " "@ + pad_right_model(label, 20) + " ["@, Style::Plain, false),
        sp(
            if changed_model(old_score, new_score) {
                delta_bar_model(new_score)
            } else {
                bar_model(new_score)
            },
            style,
            false,
        ),
        sp(
            "]"@ + (if changed_model(old_score, new_score) {
                " → "@
            } else {
                " "@
            }) + dec_model(pct_of(new_score)) + "%"@,
            Style::Plain,
            false,
        ),
    ]
}

fn row_prefix(icon: &str, label: &str) -> (r: String)
    ensures
        r@ == "  "@ + icon@ + " "@ + pad_right_model(label@, 20) + " ["@,
{
    let mut s = "  ".to_owned();
    s.append(icon);
    s.append(" ");
    s.append(pad_right(label, 20).as_str());
    s.append(" [");
    proof {
        assert(s@ =~= "  "@ + icon@ + " "@ + pad_right_model(label@, 20) + " ["@);
    }
    s
}

/// Renders one profile bar row.
pub fn trait_row(icon: &str, label: &str, m: u32, style: Style) -> (r: Line)
    ensures
        line_model(r) == trait_row_model(icon@, label@, m as nat, style),
{
    let pre = row_prefix(icon, label);
    let bar = bar_cells(m);
    let mut post = "] ".to_owned();
    post.append(format_u64(bar_pct(m)).as_str());
    post.append("%");
    let l = line3(
        span_string(pre, Style::Plain, false),
        span_string(bar, style, false),
        span_string(post, Style::Plain, false),
    );
    proof {
        assert(line_model(l) =~= trait_row_model(icon@, label@, m as nat, style));
    }
    l
}

/// Renders one delta bar row.
pub fn delta_row(icon: &str, label: &str, old_score: u32, new_score: u32, style: Style) -> (r:
    Line)
    ensures
        line_model(r) == delta_row_model(icon@, label@, old_score as nat, new_score as nat, style),
{
    let pre = row_prefix(icon, label);
    let moved = score_changed(old_score, new_score);
    let bar = if moved {
        delta_bar_cells(new_score)
    } else {
        bar_cells(new_score)
    };
    let mut post = "]".to_owned();
    if moved {
        post.append(" → ");
    } else {
        post.append(" ");
    }
    post.append(format_u64(bar_pct(new_score)).as_str());
    post.append("%");
    let l = line3(
        span_string(pre, Style::Plain, false),
        span_string(bar, style, false),
        span_string(post, Style::Plain, false),
    );
    proof {
        assert(line_model(l) =~= delta_row_model(
            icon@,
            label@,
            old_score as nat,
            new_score as nat,
            style,
        ));
    }
    l
}

/// The five named trait rows of a profile.
pub open spec fn profile_trait_rows(p: PersonalityTraits) -> Seq<Seq<SpanModel>> {
    seq![
        trait_row_model("🔓"@, "Openness"@, p.openness as nat, Style::BrightGreen),
        trait_row_model("📋"@, "Conscientiousness"@, p.conscientiousness as nat, Style::BrightYellow),
        trait_row_model("🗣️"@, "Extraversion"@, p.extraversion as nat, Style::BrightCyan),
        trait_row_model("🤝"@, "Agreeableness"@, p.agreeableness as nat, Style::BrightMagenta),
        trait_row_model("😰"@, "Neuroticism"@, p.neuroticism as nat, Style::BrightYellow),
    ]
}

/// The bias-strength block shared by both chart views, given its bar row.
pub open spec fn bias_block(row: Seq<SpanModel>) -> Seq<Seq<SpanModel>> {
    seq![
        blank(),
        seq![sp("Bias Strength:"@, Style::BrightYellow, false)],
        row,
        seq![
            sp("  "@, Style::Plain, false),
            sp("(how much personality shapes opinions)"@, Style::BrightBlack, false),
        ],
        blank(),
    ]
}

/// The background lines of a profile, each rendered unmodified.
pub open spec fn background_model(bg: Seq<char>) -> Seq<Seq<SpanModel>> {
    split_lines_model(bg).map_values(|l: Seq<char>| seq![sp(l, Style::Plain, false)])
}

/// The full profile view: header with the agent id, the name line, the
/// background block only when the background is non-empty, then the five
/// trait bars and the bias-strength block.
pub open spec fn profile_model(p: AgentProfile) -> Seq<Seq<SpanModel>> {
    section_header_model("Agent Profile: "@ + p.agent_id@) + seq![
        seq![
            sp("Name:"@, Style::BrightCyan, true),
            sp(" "@, Style::Plain, false),
            sp(p.name@, Style::BrightWhite, false),
        ],
        blank(),
    ] + (if p.background@.len() > 0 {
        seq![seq![sp("Background:"@, Style::BrightYellow, false)]] + background_model(p.background@)
            + seq![blank()]
    } else {
        Seq::<Seq<SpanModel>>::empty()
    }) + seq![
        seq![sp("─── Personality Traits ───"@, Style::BrightYellow, false)],
        blank(),
    ] + profile_trait_rows(p.personality) + bias_block(
        trait_row_model(
            "💪"@,
            "Personality Influence"@,
            p.personality.bias_strength as nat,
            Style::BrightGreen,
        ),
    )
}

fn background_block(bg: &str) -> (r: Vec<Line>)
    ensures
        lines_model(r) == background_model(bg@),
{
    let ls = split_lines(bg);
    let mut out: Vec<Line> = Vec::new();
    let n = ls.len();
    let mut i: usize = 0;
    proof {
        assert(lines_model(out) =~= background_model(bg@).take(0));
    }
    while i < n
        invariant
            i <= n,
            n == ls@.len(),
            ls@.map_values(|l: String| l@) == split_lines_model(bg@),
            lines_model(out) =~= background_model(bg@).take(i as int),
        decreases n - i,
    {
        let line = line1(span_string(ls[i].clone(), Style::Plain, false));
        proof {
            assert(ls@.map_values(|l: String| l@)[i as int] == ls@[i as int]@);
            assert(line_model(line) =~= background_model(bg@)[i as int]);
        }
        push_line(&mut out, line);
        proof {
            assert(lines_model(out) =~= background_model(bg@).take(i + 1));
        }
        i = i + 1;
    }
    proof {
        assert(background_model(bg@).take(n as int) =~= background_model(bg@));
    }
    out
}

/// Renders a full agent profile.
pub fn profile_lines(p: &AgentProfile) -> (r: Vec<Line>)
    ensures
        lines_model(r) == profile_model(*p),
{
    let title = cat2("Agent Profile: ", p.agent_id.as_str());
    let mut out = section_header_lines(title.as_str());
    push_line(&mut out, line3(
        span_str("Name:", Style::BrightCyan, true),
        span_str(" ", Style::Plain, false),
        span_str(p.name.as_str(), Style::BrightWhite, false),
    ));
    push_line(&mut out, line0());
    let ghost g0 = lines_model(out);
    if p.background.as_str().unicode_len() > 0 {
        push_line(&mut out, line1(span_str("Background:", Style::BrightYellow, false)));
        let bg = background_block(p.background.as_str());
        append_lines(&mut out, bg);
        push_line(&mut out, line0());
        proof {
            assert(lines_model(out) =~= g0 + (seq![
                seq![sp("Background:"@, Style::BrightYellow, false)],
            ] + background_model(p.background@) + seq![blank()]));
        }
    }
    push_line(&mut out, line1(span_str("─── Personality Traits ───", Style::BrightYellow, false)));
    push_line(&mut out, line0());
    push_line(&mut out, trait_row("🔓", "Openness", p.personality.openness, Style::BrightGreen));
    push_line(
        &mut out,
        trait_row("📋", "Conscientiousness", p.personality.conscientiousness, Style::BrightYellow),
    );
    push_line(
        &mut out,
        trait_row("🗣️", "Extraversion", p.personality.extraversion, Style::BrightCyan),
    );
    push_line(
        &mut out,
        trait_row("🤝", "Agreeableness", p.personality.agreeableness, Style::BrightMagenta),
    );
    push_line(
        &mut out,
        trait_row("😰", "Neuroticism", p.personality.neuroticism, Style::BrightYellow),
    );
    push_line(&mut out, line0());
    push_line(&mut out, line1(span_str("Bias Strength:", Style::BrightYellow, false)));
    push_line(
        &mut out,
        trait_row("💪", "Personality Influence", p.personality.bias_strength, Style::BrightGreen),
    );
    push_line(&mut out, caption_line());
    push_line(&mut out, line0());
    proof {
        assert(lines_model(out) =~= profile_model(*p));
    }
    out
}

fn caption_line() -> (r: Line)
    ensures
        line_model(r) == seq![
            sp("  "@, Style::Plain, false),
            sp("(how much personality shapes opinions)"@, Style::BrightBlack, false),
        ],
{
    let l = crate::model::line2(
        span_str("  ", Style::Plain, false),
        span_str("(how much personality shapes opinions)", Style::BrightBlack, false),
    );
    proof {
        assert(line_model(l) =~= seq![
            sp("  "@, Style::Plain, false),
            sp("(how much personality shapes opinions)"@, Style::BrightBlack, false),
        ]);
    }
    l
}

/// The five named delta rows between two trait sets.
pub open spec fn delta_trait_rows(o: PersonalityTraits, n: PersonalityTraits) -> Seq<
    Seq<SpanModel>,
> {
    seq![
        delta_row_model("🔓"@, "Openness"@, o.openness as nat, n.openness as nat, Style::BrightGreen),
        delta_row_model(
            "📋"@,
            "Conscientiousness"@,
            o.conscientiousness as nat,
            n.conscientiousness as nat,
            Style::BrightYellow,
        ),
        delta_row_model(
            "🗣️"@,
            "Extraversion"@,
            o.extraversion as nat,
            n.extraversion as nat,
            Style::BrightCyan,
        ),
        delta_row_model(
            "🤝"@,
            "Agreeableness"@,
            o.agreeableness as nat,
            n.agreeableness as nat,
            Style::BrightMagenta,
        ),
        delta_row_model(
            "😰"@,
            "Neuroticism"@,
            o.neuroticism as nat,
            n.neuroticism as nat,
            Style::BrightYellow,
        ),
    ]
}

/// The before/after view of a personality change: a heading, the five
/// delta rows against the new values, and the bias-strength block with its
/// own delta row.
pub open spec fn personality_delta_model(o: PersonalityTraits, n: PersonalityTraits) -> Seq<
    Seq<SpanModel>,
> {
    seq![
        blank(),
        seq![sp("─── Personality Changes ───"@, Style::BrightYellow, false)],
        blank(),
    ] + delta_trait_rows(o, n) + bias_block(
        delta_row_model(
            "💪"@,
            "Personality Influence"@,
            o.bias_strength as nat,
            n.bias_strength as nat,
            Style::BrightGreen,
        ),
    )
}

/// Renders the before/after personality view.
pub fn personality_delta_lines(o: &PersonalityTraits, n: &PersonalityTraits) -> (r: Vec<Line>)
    ensures
        lines_model(r) == personality_delta_model(*o, *n),
{
    let mut out: Vec<Line> = Vec::new();
    push_line(&mut out, line0());
    push_line(&mut out, line1(span_str("─── Personality Changes ───", Style::BrightYellow, false)));
    push_line(&mut out, line0());
    push_line(&mut out, delta_row("🔓", "Openness", o.openness, n.openness, Style::BrightGreen));
    push_line(
        &mut out,
        delta_row("📋", "Conscientiousness", o.conscientiousness, n.conscientiousness, Style::BrightYellow),
    );
    push_line(
        &mut out,
        delta_row("🗣️", "Extraversion", o.extraversion, n.extraversion, Style::BrightCyan),
    );
    push_line(
        &mut out,
        delta_row("🤝", "Agreeableness", o.agreeableness, n.agreeableness, Style::BrightMagenta),
    );
    push_line(
        &mut out,
        delta_row("😰", "Neuroticism", o.neuroticism, n.neuroticism, Style::BrightYellow),
    );
    push_line(&mut out, line0());
    push_line(&mut out, line1(span_str("Bias Strength:", Style::BrightYellow, false)));
    push_line(
        &mut out,
        delta_row("💪", "Personality Influence", o.bias_strength, n.bias_strength, Style::BrightGreen),
    );
    push_line(&mut out, caption_line());
    push_line(&mut out, line0());
    proof {
        assert(lines_model(out) =~= personality_delta_model(*o, *n));
    }
    out
}

} // verus!
