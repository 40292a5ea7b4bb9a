use brief::clock::{recording_file_name, timestamped_wav_name};
use brief::enhance::{build_prompt, route_enhancement, ProviderRoute, RouteError};
use brief::notes::{default_meta, note_preview};
use brief::paths::{brief_dir_under, model_path, models_dir, notes_dir, recordings_dir};
use brief::text::{assemble_transcript, str_eq, trim_str};

#[test]
fn trim_removes_ascii_whitespace() {
    assert_eq!(trim_str("  hello \t\n"), "hello");
    assert_eq!(trim_str("hello"), "hello");
    assert_eq!(trim_str("   "), "");
    assert_eq!(trim_str(""), "");
}

#[test]
fn str_eq_compares_by_characters() {
    assert!(str_eq("abc", "abc"));
    assert!(!str_eq("abc", "abd"));
    assert!(!str_eq("abc", "abcd"));
    assert!(str_eq("", ""));
}

#[test]
fn transcript_joins_trimmed_segments() {
    let segs: Vec<String> = vec![" Hello".to_owned(), "world  ".to_owned()];
    assert_eq!(assemble_transcript(&segs), "Hello world");
}

#[test]
fn transcript_of_no_segments_is_empty() {
    let segs: Vec<String> = Vec::new();
    assert_eq!(assemble_transcript(&segs), "");
}

#[test]
fn transcript_keeps_a_separator_for_empty_segments() {
    let segs: Vec<String> = vec!["a".to_owned(), "".to_owned(), "b".to_owned()];
    assert_eq!(assemble_transcript(&segs), "a  b");
}

#[test]
fn prompt_wraps_content_per_mode() {
    assert_eq!(
        build_prompt("notes here", "summarize"),
        "Summarize the following meeting notes in 3-5 concise bullet points. Output only the bullets in Markdown.\n\nnotes here"
    );
    assert_eq!(
        build_prompt("x", "decisions"),
        "Extract all decisions made in the following meeting notes. Output as a Markdown list.\n\nx"
    );
    assert_eq!(
        build_prompt("y", "no-such-mode"),
        "Process the following meeting notes:\n\ny"
    );
}

#[test]
fn prompt_polish_and_action_items() {
    assert!(build_prompt("z", "polish").starts_with("You are a meeting notes editor."));
    assert!(build_prompt("z", "polish").ends_with("\n\nz"));
    assert!(build_prompt("z", "action_items").starts_with("Extract all action items"));
}

#[test]
fn routing_decides_per_provider_and_key() {
    assert_eq!(route_enhancement("local", false), Ok(ProviderRoute::Local));
    assert_eq!(route_enhancement("openai", true), Ok(ProviderRoute::OpenAi));
    assert_eq!(route_enhancement("openai", false), Err(RouteError::MissingApiKey));
    assert_eq!(route_enhancement("anthropic", true), Ok(ProviderRoute::Anthropic));
    assert_eq!(route_enhancement("anthropic", false), Err(RouteError::MissingApiKey));
    assert_eq!(route_enhancement("gemini", true), Err(RouteError::UnknownProvider));
}

#[test]
fn file_name_is_zero_padded() {
    assert_eq!(recording_file_name(2026, 1, 5, 9, 30, 7), "20260105-093007.wav");
    assert_eq!(recording_file_name(999, 12, 31, 23, 59, 59), "09991231-235959.wav");
}

#[test]
fn file_name_handles_unusual_years() {
    assert_eq!(recording_file_name(-44, 3, 1, 0, 0, 0), "-00440301-000000.wav");
    assert_eq!(recording_file_name(10000, 1, 1, 1, 1, 1), "100000101-010101.wav");
}

#[test]
fn timestamped_name_has_the_artifact_shape() {
    let name = timestamped_wav_name();
    assert!(name.ends_with(".wav"));
    assert!(name.len() >= 19);
    assert_eq!(&name[8..9], "-");
}

#[test]
fn paths_end_under_the_brief_dir() {
    assert_eq!(brief_dir_under("/home/u"), "/home/u/Brief");
    if let Some(p) = notes_dir() {
        assert!(p.ends_with("/Brief"));
    }
    if let Some(p) = recordings_dir() {
        assert!(p.ends_with("/Brief/recordings"));
    }
    if let Some(p) = models_dir() {
        assert!(p.ends_with("/Brief/models"));
    }
    if let Some(p) = model_path() {
        assert!(p.ends_with("/Brief/models/ggml-base.en.bin"));
    }
}

#[test]
fn default_meta_falls_back_to_the_id() {
    let m = default_meta("2024-team-sync");
    assert_eq!(m.title, "2024-team-sync");
    assert!(m.participants.is_empty());
    assert!(m.tags.is_empty());
    assert!(!m.created_at.is_empty());
}

#[test]
fn preview_takes_at_most_120_characters() {
    let short = "short note";
    assert_eq!(note_preview(short), short);
    let long: String = "x".repeat(500);
    assert_eq!(note_preview(&long), "x".repeat(120));
    let exact: String = "y".repeat(120);
    assert_eq!(note_preview(&exact), exact);
}
