//! Properties of the renderings, stated and proved over the spec models
//! that the rendering contracts use.

use vstd::prelude::*;
use crate::model::{Agent, Fact, SpanModel, Style};
use crate::render::{
    agents_table_model, blank, fact_head, fact_model, meta_line, no_agents_line, opt_meta, plain1,
    section_header_model, table_border, temporal_model,
};
use crate::chart::{changed_model, delta_row_model, pct_of};
use crate::text::{dec_model, digit_char, embeds, lemma_dec_model_digits};

verus! {

/// A metadata line of a fact block: four spans, the second of which is the
/// dimmed label.
pub open spec fn is_meta_line(l: Seq<SpanModel>, label: Seq<char>) -> bool {
    l.len() == 4 && l[1].text == label
}

/// Some line of the rendering is a metadata line with the given label.
pub open spec fn has_meta_line(lines: Seq<Seq<SpanModel>>, label: Seq<char>) -> bool {
    exists|i: int| 0 <= i < lines.len() && is_meta_line(#[trigger] lines[i], label)
}

proof fn lemma_has_meta_concat(a: Seq<Seq<SpanModel>>, b: Seq<Seq<SpanModel>>, label: Seq<char>)
    ensures
        has_meta_line(a + b, label) <==> (has_meta_line(a, label) || has_meta_line(b, label)),
{
    if has_meta_line(a + b, label) {
        let i = choose|i: int| 0 <= i < (a + b).len() && is_meta_line(#[trigger] (a + b)[i], label);
        if i < a.len() {
            assert((a + b)[i] == a[i]);
            assert(is_meta_line(a[i], label));
        } else {
            assert((a + b)[i] == b[i - a.len()]);
            assert(is_meta_line(b[i - a.len()], label));
        }
    }
    if has_meta_line(a, label) {
        let i = choose|i: int| 0 <= i < a.len() && is_meta_line(#[trigger] a[i], label);
        assert((a + b)[i] == a[i]);
        assert(is_meta_line((a + b)[i], label));
    }
    if has_meta_line(b, label) {
        let i = choose|i: int| 0 <= i < b.len() && is_meta_line(#[trigger] b[i], label);
        assert((a + b)[a.len() + i] == b[i]);
        assert(is_meta_line((a + b)[a.len() + i], label));
    }
}

proof fn lemma_labels_distinct()
    ensures
        "Context"@ != "Occurred"@,
        "Context"@ != "Date"@,
        "Context"@ != "Mentioned"@,
        "Context"@ != "Document"@,
        "Occurred"@ != "Date"@,
        "Occurred"@ != "Mentioned"@,
        "Occurred"@ != "Document"@,
        "Date"@ != "Mentioned"@,
        "Date"@ != "Document"@,
        "Mentioned"@ != "Document"@,
{
    reveal_strlit("Context");
    reveal_strlit("Occurred");
    reveal_strlit("Date");
    reveal_strlit("Mentioned");
    reveal_strlit("Document");
    assert("Context"@.len() == 7);
    assert("Occurred"@.len() == 8);
    assert("Date"@.len() == 4);
    assert("Mentioned"@.len() == 9);
    assert("Document"@.len() == 8);
    assert("Occurred"@[0] == 'O');
    assert("Document"@[0] == 'D');
}

proof fn lemma_opt_meta_has(v: Option<String>, lab: Seq<char>, l: Seq<char>)
    ensures
        has_meta_line(opt_meta(v, lab), l) <==> (v is Some && l == lab),
{
    match v {
        Some(x) => {
            if l == lab {
                assert(is_meta_line(opt_meta(v, lab)[0], l));
            } else {
                assert(forall|i: int|
                    0 <= i < opt_meta(v, lab).len() ==> !is_meta_line(
                        #[trigger] opt_meta(v, lab)[i],
                        l,
                    ));
            }
        },
        None => {
            assert(opt_meta(v, lab).len() == 0);
        },
    }
}

proof fn lemma_temporal_has(f: Fact, l: Seq<char>)
    ensures
        has_meta_line(temporal_model(f), l) <==> ((f.occurred_start is Some && l == "Occurred"@)
            || (f.occurred_start is None && f.event_date is Some && l == "Date"@)),
{
    match f.occurred_start {
        Some(s) => {
            if l == "Occurred"@ {
                assert(is_meta_line(temporal_model(f)[0], l));
            } else {
                assert(forall|i: int|
                    0 <= i < temporal_model(f).len() ==> !is_meta_line(
                        #[trigger] temporal_model(f)[i],
                        l,
                    ));
            }
        },
        None => {
            match f.event_date {
                Some(d) => {
                    if l == "Date"@ {
                        assert(is_meta_line(temporal_model(f)[0], l));
                    } else {
                        assert(forall|i: int|
                            0 <= i < temporal_model(f).len() ==> !is_meta_line(
                                #[trigger] temporal_model(f)[i],
                                l,
                            ));
                    }
                },
                None => {
                    assert(temporal_model(f).len() == 0);
                },
            }
        },
    }
}

/// A fact block carries a metadata line exactly for the fields that are
/// present: never an empty placeholder, never a missing line for a value
/// that was given.  The temporal line is labelled `Occurred` whenever the
/// start bound is set, and falls back to the legacy `Date` label only when
/// no start bound exists but an event date does.
pub proof fn lemma_fact_metadata_presence(f: Fact, show_activation: bool)
    ensures
        has_meta_line(fact_model(f, show_activation), "Context"@) <==> f.context is Some,
        has_meta_line(fact_model(f, show_activation), "Occurred"@) <==> f.occurred_start is Some,
        has_meta_line(fact_model(f, show_activation), "Date"@) <==> (f.occurred_start is None
            && f.event_date is Some),
        has_meta_line(fact_model(f, show_activation), "Mentioned"@) <==> f.mentioned_at is Some,
        has_meta_line(fact_model(f, show_activation), "Document"@) <==> f.document_id is Some,
{
    lemma_labels_distinct();
    let a = seq![fact_head(f, show_activation), plain1("  "@ + f.text@)];
    let b = opt_meta(f.context, "Context"@);
    let c = temporal_model(f);
    let d = opt_meta(f.mentioned_at, "Mentioned"@);
    let e = opt_meta(f.document_id, "Document"@);
    let z = seq![blank()];
    assert(fact_model(f, show_activation) == a + b + c + d + e + z);
    assert forall|l: Seq<char>|
        #[trigger] has_meta_line(fact_model(f, show_activation), l) == (has_meta_line(a, l)
            || has_meta_line(b, l) || has_meta_line(c, l) || has_meta_line(d, l) || has_meta_line(
            e,
            l,
        ) || has_meta_line(z, l)) by {
        lemma_has_meta_concat(a, b, l);
        lemma_has_meta_concat(a + b, c, l);
        lemma_has_meta_concat(a + b + c, d, l);
        lemma_has_meta_concat(a + b + c + d, e, l);
        lemma_has_meta_concat(a + b + c + d + e, z, l);
    }
    assert(fact_head(f, show_activation).len() == 2 || fact_head(f, show_activation).len() == 3);
    assert forall|l: Seq<char>| !(#[trigger] has_meta_line(a, l)) by {
        assert(forall|i: int| 0 <= i < a.len() ==> !is_meta_line(#[trigger] a[i], l));
    }
    assert forall|l: Seq<char>| !(#[trigger] has_meta_line(z, l)) by {
        assert(forall|i: int| 0 <= i < z.len() ==> !is_meta_line(#[trigger] z[i], l));
    }
    lemma_opt_meta_has(f.context, "Context"@, "Context"@);
    lemma_opt_meta_has(f.mentioned_at, "Mentioned"@, "Context"@);
    lemma_opt_meta_has(f.document_id, "Document"@, "Context"@);
    lemma_temporal_has(f, "Context"@);
    lemma_opt_meta_has(f.context, "Context"@, "Occurred"@);
    lemma_opt_meta_has(f.mentioned_at, "Mentioned"@, "Occurred"@);
    lemma_opt_meta_has(f.document_id, "Document"@, "Occurred"@);
    lemma_temporal_has(f, "Occurred"@);
    lemma_opt_meta_has(f.context, "Context"@, "Date"@);
    lemma_opt_meta_has(f.mentioned_at, "Mentioned"@, "Date"@);
    lemma_opt_meta_has(f.document_id, "Document"@, "Date"@);
    lemma_temporal_has(f, "Date"@);
    lemma_opt_meta_has(f.context, "Context"@, "Mentioned"@);
    lemma_opt_meta_has(f.mentioned_at, "Mentioned"@, "Mentioned"@);
    lemma_opt_meta_has(f.document_id, "Document"@, "Mentioned"@);
    lemma_temporal_has(f, "Mentioned"@);
    lemma_opt_meta_has(f.context, "Context"@, "Document"@);
    lemma_opt_meta_has(f.mentioned_at, "Mentioned"@, "Document"@);
    lemma_opt_meta_has(f.document_id, "Document"@, "Document"@);
    lemma_temporal_has(f, "Document"@);
}

/// The temporal line of a fact uses the point phrasing when both bounds
/// are set and equal, the range phrasing when they differ, the start alone
/// when only it is set, the legacy `Date` phrasing when only an event date
/// exists, and no line at all otherwise.
pub proof fn lemma_temporal_phrasing(f: Fact)
    ensures
        f.occurred_start matches Some(s) ==> f.occurred_end matches Some(e) ==> s@ == e@
            ==> temporal_model(f) == seq![meta_line("Occurred"@, s@)],
        f.occurred_start matches Some(s) ==> f.occurred_end matches Some(e) ==> s@ != e@
            ==> temporal_model(f) == seq![meta_line("Occurred"@, s@ + " to "@ + e@)],
        f.occurred_start matches Some(s) ==> f.occurred_end is None ==> temporal_model(f)
            == seq![meta_line("Occurred"@, s@)],
        f.occurred_start is None ==> (f.event_date matches Some(d) ==> temporal_model(f)
            == seq![meta_line("Date"@, d@)]),
        f.occurred_start is None && f.event_date is None ==> temporal_model(f)
            == Seq::<Seq<SpanModel>>::empty(),
{
}

/// With no agents at all, the table rendering is exactly its section
/// header followed by the empty-state notice: in particular none of the
/// bordered table rows is printed.
pub proof fn lemma_agents_table_empty(agents: Seq<Agent>)
    requires
        agents.len() == 0,
    ensures
        agents_table_model(agents) == section_header_model("Agents ("@ + dec_model(0) + ")"@)
            + seq![no_agents_line()],
{
}

/// With no agents, no line of the table rendering is a border row, of any
/// corner pair or width: a border row is a single plain span, while the
/// empty rendering holds only blank lines, the bright-yellow header rule,
/// and the dimmed notice.
pub proof fn lemma_agents_table_empty_has_no_border(agents: Seq<Agent>)
    requires
        agents.len() == 0,
    ensures
        forall|i: int, l: Seq<char>, r: Seq<char>, w: nat|
            0 <= i < agents_table_model(agents).len() ==> #[trigger] agents_table_model(agents)[i]
                != #[trigger] table_border(l, r, w),
{
    let lines = agents_table_model(agents);
    lemma_agents_table_empty(agents);
    assert forall|i: int, l: Seq<char>, r: Seq<char>, w: nat|
        0 <= i < lines.len() implies #[trigger] lines[i] != #[trigger] table_border(l, r, w) by {
        let b = table_border(l, r, w);
        assert(b.len() == 1);
        assert(b[0].style == Style::Plain);
        if lines[i] == b {
            assert(lines[i].len() == 1);
            assert(lines[i][0].style == Style::Plain);
            assert(i == 1 || i == 3);
            assert(lines[1][0].style == Style::BrightYellow);
            assert(lines[3][0].style == Style::BrightBlack);
            assert(false);
        }
    }
}

proof fn lemma_no_arrow_in(s: Seq<char>)
    requires
        forall|j: int| 0 <= j < s.len() ==> s[j] != '→',
    ensures
        !embeds(s, "→"@),
{
    reveal_strlit("→");
    assert("→"@.len() == 1);
    if embeds(s, "→"@) {
        let k = choose|k: int|
            0 <= k && k + "→"@.len() <= s.len() && #[trigger] s.subrange(k, k + "→"@.len())
                == "→"@;
        assert(s.subrange(k, k + 1)[0] == s[k]);
        assert(s[k] == '→');
        assert(false);
    }
}

/// A delta row carries the change arrow exactly when the trait moved by at
/// least the display threshold; an unchanged trait's row holds no arrow
/// anywhere.
pub proof fn lemma_delta_arrow(
    icon: Seq<char>,
    label: Seq<char>,
    old_score: nat,
    new_score: nat,
    style: Style,
)
    ensures
        changed_model(old_score, new_score) <==> embeds(
            delta_row_model(icon, label, old_score, new_score, style)[2].text,
            "→"@,
        ),
{
    reveal_strlit("→");
    reveal_strlit("]");
    reveal_strlit(" ");
    reveal_strlit(" → ");
    reveal_strlit("%");
    let tail = delta_row_model(icon, label, old_score, new_score, style)[2].text;
    if changed_model(old_score, new_score) {
        assert(tail == "]"@ + " → "@ + dec_model(pct_of(new_score)) + "%"@);
        assert(tail.subrange(2, 2 + "→"@.len() as int) =~= "→"@);
        assert(embeds(tail, "→"@));
    } else {
        assert(tail == "]"@ + " "@ + dec_model(pct_of(new_score)) + "%"@);
        let digits = dec_model(pct_of(new_score));
        lemma_dec_model_digits(pct_of(new_score));
        assert forall|j: int| 0 <= j < tail.len() implies tail[j] != '→' by {
            if 2 <= j < 2 + digits.len() {
                let d = choose|d: nat| d < 10 && #[trigger] digits[j - 2] == digit_char(d);
                assert(digit_char(d) != '→');
            }
        }
        lemma_no_arrow_in(tail);
    }
}

} // verus!
