use memora_ui::chart::{
    bar_cells, bar_fill, bar_pct, delta_bar_cells, delta_row, personality_delta_lines,
    profile_lines, score_changed, trait_row,
};
use memora_ui::model::{AgentProfile, Line, PersonalityTraits, Style};
use memora_ui::paint::{paint_line, paint_lines};
use memora_ui::render::status_line;
use memora_ui::model::Severity;

fn line_text(l: &Line) -> String {
    let mut s = String::new();
    for span in &l.spans {
        s.push_str(&span.text);
    }
    s
}

fn traits(v: u32) -> PersonalityTraits {
    PersonalityTraits {
        openness: v,
        conscientiousness: v,
        extraversion: v,
        agreeableness: v,
        neuroticism: v,
        bias_strength: v,
    }
}

#[test]
fn bar_fill_rounds_and_clamps() {
    assert_eq!(bar_fill(500), 20);
    assert_eq!(bar_fill(1000), 40);
    assert_eq!(bar_fill(0), 0);
    assert_eq!(bar_fill(250), 10);
    assert_eq!(bar_fill(12), 0);
    assert_eq!(bar_fill(13), 1);
    assert_eq!(bar_fill(2000), 40);
}

#[test]
fn bar_pct_rounds_half_up_and_clamps() {
    assert_eq!(bar_pct(500), 50);
    assert_eq!(bar_pct(505), 51);
    assert_eq!(bar_pct(520), 52);
    assert_eq!(bar_pct(0), 0);
    assert_eq!(bar_pct(2000), 100);
}

#[test]
fn bar_cells_shape() {
    assert_eq!(bar_cells(500), format!("{}{}", "█".repeat(20), "░".repeat(20)));
    assert_eq!(bar_cells(0), "░".repeat(40));
    assert_eq!(bar_cells(1000), "█".repeat(40));
}

#[test]
fn delta_bar_shades_last_filled_cells() {
    assert_eq!(
        delta_bar_cells(500),
        format!("{}{}{}", "█".repeat(17), "▓".repeat(3), "░".repeat(20))
    );
    assert_eq!(delta_bar_cells(50), format!("{}{}", "▓".repeat(2), "░".repeat(38)));
}

#[test]
fn change_threshold_is_one_hundredth() {
    assert!(score_changed(500, 520));
    assert!(score_changed(520, 500));
    assert!(score_changed(500, 510));
    assert!(!score_changed(500, 505));
    assert!(!score_changed(500, 509));
    assert!(!score_changed(500, 500));
}

#[test]
fn delta_row_marks_change_with_arrow() {
    let row = delta_row("🔓", "Openness", 500, 520, Style::BrightGreen);
    assert_eq!(row.spans[2].text, "] → 52%");
    assert!(line_text(&row).contains("▓"));
}

#[test]
fn delta_row_below_threshold_has_no_arrow() {
    let row = delta_row("🔓", "Openness", 500, 505, Style::BrightGreen);
    assert_eq!(row.spans[2].text, "] 51%");
    assert!(!line_text(&row).contains("→"));
    assert!(!line_text(&row).contains("▓"));
}

#[test]
fn trait_row_layout() {
    let row = trait_row("🔓", "Openness", 500, Style::BrightGreen);
    let expected = format!(
        "  🔓 {:<20} [{}{}] 50%",
        "Openness",
        "█".repeat(20),
        "░".repeat(20)
    );
    assert_eq!(line_text(&row), expected);
}

#[test]
fn profile_shows_background_only_when_present() {
    let p = AgentProfile {
        agent_id: "a1".to_string(),
        name: "Ada".to_string(),
        background: "line one\nline two".to_string(),
        personality: traits(500),
    };
    let lines = profile_lines(&p);
    let all: Vec<String> = lines.iter().map(line_text).collect();
    assert!(all.iter().any(|l| l == "Background:"));
    assert!(all.iter().any(|l| l == "line one"));
    assert!(all.iter().any(|l| l == "line two"));

    let mut bare = p;
    bare.background = String::new();
    let lines2 = profile_lines(&bare);
    let all2: Vec<String> = lines2.iter().map(line_text).collect();
    assert!(!all2.iter().any(|l| l == "Background:"));
}

#[test]
fn profile_contains_all_trait_rows_and_bias() {
    let p = AgentProfile {
        agent_id: "a1".to_string(),
        name: "Ada".to_string(),
        background: String::new(),
        personality: traits(250),
    };
    let lines = profile_lines(&p);
    let all: Vec<String> = lines.iter().map(line_text).collect();
    assert!(all[1].contains("Agent Profile: a1"));
    assert!(all.iter().any(|l| l == "Name: Ada"));
    for label in [
        "Openness",
        "Conscientiousness",
        "Extraversion",
        "Agreeableness",
        "Neuroticism",
        "Personality Influence",
    ] {
        assert!(all.iter().any(|l| l.contains(label) && l.contains("25%")));
    }
    assert!(all.iter().any(|l| l == "Bias Strength:"));
    assert!(all.iter().any(|l| l == "  (how much personality shapes opinions)"));
}

#[test]
fn personality_delta_view_structure() {
    let old = traits(500);
    let mut new = traits(500);
    new.openness = 520;
    let lines = personality_delta_lines(&old, &new);
    let all: Vec<String> = lines.iter().map(line_text).collect();
    assert!(all[1].contains("Personality Changes"));
    let openness = all.iter().find(|l| l.contains("Openness")).unwrap();
    assert!(openness.contains("→ 52%"));
    let agreeable = all.iter().find(|l| l.contains("Agreeableness")).unwrap();
    assert!(!agreeable.contains("→"));
    assert!(agreeable.contains("50%"));
}

#[test]
fn painting_preserves_span_text() {
    let row = status_line(Severity::Success, "all good");
    let painted = paint_line(&row);
    assert!(painted.contains("✓"));
    assert!(painted.contains("all good"));
}

#[test]
fn painting_a_rendering_keeps_line_count() {
    let p = AgentProfile {
        agent_id: "a1".to_string(),
        name: "Ada".to_string(),
        background: String::new(),
        personality: traits(700),
    };
    let lines = profile_lines(&p);
    let painted = paint_lines(&lines);
    assert_eq!(painted.len(), lines.len());
    assert!(painted.iter().any(|l| l.contains("Openness")));
}
