use statusline::card::compose_model_display;
use statusline::card::format_directory_display;
use statusline::card::format_tokens_compact;
use statusline::card::title_case;
use statusline::card::truncate_segment;

#[test]
fn card_token_totals_use_two_significant_decimals() {
    assert_eq!(format_tokens_compact(0), "0");
    assert_eq!(format_tokens_compact(999), "999");
    assert_eq!(format_tokens_compact(1_000), "1K");
    assert_eq!(format_tokens_compact(1_234), "1.23K");
    assert_eq!(format_tokens_compact(12_345), "12.3K");
    assert_eq!(format_tokens_compact(123_456), "123K");
    assert_eq!(format_tokens_compact(1_500_000), "1.5M");
    assert_eq!(format_tokens_compact(2_000_000_000), "2B");
    assert_eq!(format_tokens_compact(3_250_000_000_000), "3.25T");
}

#[test]
fn title_case_capitalizes_first_letter() {
    assert_eq!(title_case("pro"), "Pro");
    assert_eq!(title_case("PLUS"), "Plus");
    assert_eq!(title_case("éclair"), "Éclair");
    assert_eq!(title_case(""), "");
}

#[test]
fn segments_keep_leading_clusters() {
    assert_eq!(truncate_segment("workspace", 2), "wo");
    assert_eq!(truncate_segment("a", 2), "a");
    assert_eq!(truncate_segment("", 2), "");
    assert_eq!(truncate_segment("abc", 0), "");
}

fn strings(parts: &[&str]) -> Vec<String> {
    parts.iter().map(|s| s.to_string()).collect()
}

#[test]
fn directory_display_shortens_leading_segments() {
    assert_eq!(
        format_directory_display(strings(&["~"]), &strings(&["workspace", "codex"]), None, "x".to_string()),
        "~/workspace/codex"
    );
    assert_eq!(
        format_directory_display(strings(&["~"]), &strings(&["alpha", "beta", "gamma", "delta"]), None, "x".to_string()),
        "~/al/be/gamma/delta"
    );
    let repo = strings(&["code", "proj"]);
    assert_eq!(
        format_directory_display(
            strings(&["~"]),
            &strings(&["code", "proj", "src", "deep", "mod"]),
            Some(&repo),
            "x".to_string()
        ),
        "~/co/…/proj/deep/mod"
    );
    assert_eq!(
        format_directory_display(strings(&[""]), &strings(&["usr", "local", "bin"]), None, "/".to_string()),
        "/us/local/bin"
    );
    assert_eq!(format_directory_display(Vec::new(), &Vec::new(), None, "/".to_string()), "/");
}

#[test]
fn model_display_lists_reasoning_details() {
    let entries = vec![("reasoning effort", "HIGH".to_string()), ("reasoning summaries", " Off ".to_string())];
    let (model, details) = compose_model_display("gpt-5-codex", &entries);
    assert_eq!(model, "gpt-5-codex");
    assert_eq!(details, vec!["reasoning high".to_string(), "summaries off".to_string()]);
    let entries = vec![("reasoning summaries", "Detailed".to_string())];
    assert_eq!(compose_model_display("m", &entries).1, vec!["summaries detailed".to_string()]);
    let entries = vec![("reasoning summaries", "  ".to_string())];
    assert!(compose_model_display("m", &entries).1.is_empty());
}
