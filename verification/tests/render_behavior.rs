use memora_ui::model::{Agent, Fact, FactKind, Line, SearchResponse, Severity, ThinkResponse, TraceInfo};
use memora_ui::render::{
    agents_table_lines, banner_lines, confirmation_prompt, fact_lines, search_results_lines,
    section_header_lines, status_line, stored_memory_lines, think_response_lines, trace_info_lines,
};

fn line_text(l: &Line) -> String {
    let mut s = String::new();
    for span in &l.spans {
        s.push_str(&span.text);
    }
    s
}

fn texts(lines: &[Line]) -> Vec<String> {
    lines.iter().map(line_text).collect()
}

fn base_fact() -> Fact {
    Fact {
        text: "The sky is blue".to_string(),
        fact_type: Some(FactKind::World),
        activation: None,
        context: None,
        occurred_start: None,
        occurred_end: None,
        event_date: None,
        mentioned_at: None,
        document_id: None,
    }
}

#[test]
fn banner_shape() {
    let lines = banner_lines();
    assert_eq!(lines.len(), 4);
    assert!(line_text(&lines[1]).contains("MEMORA"));
    assert_eq!(line_text(&lines[3]), "");
}

#[test]
fn section_header_shape() {
    let lines = section_header_lines("Agents (2)");
    assert_eq!(
        texts(&lines),
        vec!["", "\u{2501}\u{2501}\u{2501} Agents (2) \u{2501}\u{2501}\u{2501}", ""]
    );
}

#[test]
fn bare_fact_has_no_metadata_lines() {
    let lines = fact_lines(&base_fact(), false);
    assert_eq!(texts(&lines), vec!["🌍 [WORLD]", "  The sky is blue", ""]);
}

#[test]
fn fact_metadata_lines_present_iff_fields_set() {
    let mut f = base_fact();
    f.fact_type = Some(FactKind::Opinion);
    f.activation = Some(97);
    f.context = Some("a chat".to_string());
    f.mentioned_at = Some("2024-01-02".to_string());
    f.document_id = Some("doc-9".to_string());
    let lines = fact_lines(&f, true);
    assert_eq!(
        texts(&lines),
        vec![
            "💭 [OPINION] (0.97)",
            "  The sky is blue",
            "  Context: a chat",
            "  Mentioned: 2024-01-02",
            "  Document: doc-9",
            "",
        ]
    );
}

#[test]
fn fact_activation_hidden_when_not_requested() {
    let mut f = base_fact();
    f.activation = Some(97);
    let lines = fact_lines(&f, false);
    assert_eq!(line_text(&lines[0]), "🌍 [WORLD]");
}

#[test]
fn fact_unknown_type_tag() {
    let mut f = base_fact();
    f.fact_type = None;
    let lines = fact_lines(&f, false);
    assert_eq!(line_text(&lines[0]), "📝 [UNKNOWN]");
}

#[test]
fn temporal_point_event_phrasing() {
    let mut f = base_fact();
    f.occurred_start = Some("2023-05-01".to_string());
    f.occurred_end = Some("2023-05-01".to_string());
    let lines = fact_lines(&f, false);
    assert_eq!(line_text(&lines[2]), "  Occurred: 2023-05-01");
}

#[test]
fn temporal_range_phrasing() {
    let mut f = base_fact();
    f.occurred_start = Some("2023-05-01".to_string());
    f.occurred_end = Some("2023-06-01".to_string());
    let lines = fact_lines(&f, false);
    assert_eq!(line_text(&lines[2]), "  Occurred: 2023-05-01 to 2023-06-01");
}

#[test]
fn temporal_start_only_phrasing() {
    let mut f = base_fact();
    f.occurred_start = Some("2023-05-01".to_string());
    let lines = fact_lines(&f, false);
    assert_eq!(line_text(&lines[2]), "  Occurred: 2023-05-01");
}

#[test]
fn temporal_legacy_date_phrasing() {
    let mut f = base_fact();
    f.event_date = Some("2022-12-31".to_string());
    let lines = fact_lines(&f, false);
    assert_eq!(line_text(&lines[2]), "  Date: 2022-12-31");
}

#[test]
fn empty_search_results_print_header_and_notice_only() {
    let resp = SearchResponse { results: Vec::new(), trace: None };
    let lines = search_results_lines(&resp, false);
    assert_eq!(
        texts(&lines),
        vec![
            "",
            "\u{2501}\u{2501}\u{2501} Search Results (0) \u{2501}\u{2501}\u{2501}",
            "",
            "  No results found.",
        ]
    );
}

#[test]
fn search_results_enumerate_facts() {
    let mut f1 = base_fact();
    f1.activation = Some(88);
    let f2 = base_fact();
    let resp = SearchResponse { results: vec![f1, f2], trace: None };
    let lines = search_results_lines(&resp, false);
    let all = texts(&lines);
    assert!(all[1].contains("Search Results (2)"));
    assert_eq!(all[3], "  Result #1");
    assert_eq!(all[4], "🌍 [WORLD] (0.88)");
    assert_eq!(all[7], "  Result #2");
    assert_eq!(all[8], "🌍 [WORLD]");
}

#[test]
fn search_results_append_trace_only_on_request() {
    let trace = TraceInfo { total_time: Some(1234), activation_count: Some(42) };
    let resp = SearchResponse { results: Vec::new(), trace: Some(trace) };
    let with = search_results_lines(&resp, true);
    let without = search_results_lines(&resp, false);
    assert_eq!(without.len(), 4);
    let all = texts(&with);
    assert!(all.iter().any(|l| l == "  ⏱️  Total time: 12.34ms"));
    assert!(all.iter().any(|l| l == "  📊 Activation count: 42"));
}

#[test]
fn trace_lines_omit_absent_fields() {
    let t = TraceInfo { total_time: None, activation_count: None };
    let lines = trace_info_lines(&t);
    assert_eq!(
        texts(&lines),
        vec!["", "\u{2501}\u{2501}\u{2501} Trace Information \u{2501}\u{2501}\u{2501}", "", ""]
    );
}

#[test]
fn think_response_counts_memory_units() {
    let t = ThinkResponse {
        text: "I think so".to_string(),
        based_on: vec!["m1".to_string(), "m2".to_string()],
    };
    let lines = think_response_lines(&t);
    assert_eq!(texts(&lines), vec!["", "I think so", "", "Based on 2 memory units"]);
}

#[test]
fn think_response_without_sources_has_no_count_line() {
    let t = ThinkResponse { text: "hm".to_string(), based_on: Vec::new() };
    let lines = think_response_lines(&t);
    assert_eq!(texts(&lines), vec!["", "hm", ""]);
}

#[test]
fn agents_table_column_width_follows_longest_id() {
    let agents = vec![
        Agent { agent_id: "alpha".to_string() },
        Agent { agent_id: "agent-12345".to_string() },
    ];
    let lines = agents_table_lines(&agents);
    let dash = "\u{2500}".repeat(13);
    assert_eq!(
        texts(&lines),
        vec![
            "".to_string(),
            "\u{2501}\u{2501}\u{2501} Agents (2) \u{2501}\u{2501}\u{2501}".to_string(),
            "".to_string(),
            format!("  \u{250c}{}\u{2510}", dash),
            "  \u{2502} Agent ID    \u{2502}".to_string(),
            format!("  \u{251c}{}\u{2524}", dash),
            "  \u{2502} alpha       \u{2502}".to_string(),
            "  \u{2502} agent-12345 \u{2502}".to_string(),
            format!("  \u{2514}{}\u{2518}", dash),
            "".to_string(),
        ]
    );
}

#[test]
fn agents_table_minimum_width_is_heading_width() {
    let agents = vec![Agent { agent_id: "ab".to_string() }];
    let lines = agents_table_lines(&agents);
    let all = texts(&lines);
    assert_eq!(all[4], "  \u{2502} Agent ID \u{2502}");
    assert_eq!(all[6], "  \u{2502} ab       \u{2502}");
}

#[test]
fn empty_agents_table_prints_notice_and_no_borders() {
    let lines = agents_table_lines(&Vec::new());
    let all = texts(&lines);
    assert_eq!(
        all,
        vec!["", "\u{2501}\u{2501}\u{2501} Agents (0) \u{2501}\u{2501}\u{2501}", "", "  No agents found."]
    );
    for l in &all {
        for border in ['\u{250c}', '\u{2510}', '\u{2502}', '\u{2500}', '\u{2514}', '\u{2518}'] {
            assert!(!l.contains(border));
        }
    }
}

#[test]
fn status_lines_carry_icon_and_message() {
    assert_eq!(line_text(&status_line(Severity::Success, "saved")), "✓ saved");
    assert_eq!(line_text(&status_line(Severity::Error, "boom")), "✗ boom");
    assert_eq!(line_text(&status_line(Severity::Warning, "careful")), "⚠ careful");
    assert_eq!(line_text(&status_line(Severity::Info, "fyi")), "ℹ fyi");
}

#[test]
fn stored_memory_sync_and_async() {
    let sync = stored_memory_lines("doc-1", "hello", false);
    assert_eq!(
        texts(&sync),
        vec!["✓ Stored successfully", "  Document ID: doc-1", "  Content: hello", ""]
    );
    let queued = stored_memory_lines("doc-2", "hello", true);
    assert_eq!(line_text(&queued[0]), "⏳ Queued for background processing");
}

#[test]
fn stored_memory_preview_is_truncated() {
    let content = "b".repeat(100);
    let lines = stored_memory_lines("doc-3", &content, false);
    let expected = format!("  Content: {}...", "b".repeat(57));
    assert_eq!(line_text(&lines[2]), expected);
}

#[test]
fn confirmation_prompt_shape() {
    let l = confirmation_prompt("Delete everything?");
    assert_eq!(line_text(&l), "? Delete everything? [y/N]: ");
}
