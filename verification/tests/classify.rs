use media_acquire::config::{config_dir_of, render_config};
use media_acquire::metadata::{
    classify_metadata, classify_output, classify_parsed, parse_metadata, ExtractionMetadata,
    ResourceKind,
};

#[test]
fn playlist_with_entries_is_playlist() {
    let json = r#"{"_type":"playlist","id":"PL1","title":"Lo-Fi Mix","entries":[{"id":"a"},{"id":"b"}]}"#;
    let r = classify_output(true, json);
    assert_eq!(r.kind, ResourceKind::Playlist);
    assert_eq!(r.playlist_title, Some("Lo-Fi Mix".to_string()));
    assert!(!r.empty_playlist);
}

#[test]
fn playlist_with_empty_entries_is_not_actionable() {
    let json = r#"{"_type":"playlist","id":"PL1","title":"Empty","entries":[]}"#;
    let r = classify_output(true, json);
    assert_eq!(r.kind, ResourceKind::NotActionable);
    assert_eq!(r.playlist_title, None);
    assert!(r.empty_playlist);
}

#[test]
fn playlist_with_declared_count_zero_is_not_actionable() {
    let json = r#"{"_type":"playlist","id":"PL1","playlist_count":0}"#;
    let r = classify_output(true, json);
    assert_eq!(r.kind, ResourceKind::NotActionable);
    assert!(r.empty_playlist);
}

#[test]
fn playlist_without_entries_list_is_still_playlist() {
    let json = r#"{"_type":"playlist","id":"PL1","title":"Mix"}"#;
    let r = classify_output(true, json);
    assert_eq!(r.kind, ResourceKind::Playlist);
    assert_eq!(r.playlist_title, Some("Mix".to_string()));
}

#[test]
fn playlist_discriminator_beats_identifier() {
    // The discriminator wins over identifier-based inference: an empty
    // playlist with an id is still not a video.
    let json = r#"{"_type":"playlist","id":"PL1","entries":[]}"#;
    let r = classify_output(true, json);
    assert_eq!(r.kind, ResourceKind::NotActionable);
}

#[test]
fn identifier_without_discriminator_is_video() {
    let json = r#"{"id":"dQw4w9WgXcQ","title":"Some Clip"}"#;
    let r = classify_output(true, json);
    assert_eq!(r.kind, ResourceKind::Video);
    assert_eq!(r.playlist_title, None);
}

#[test]
fn video_discriminator_with_identifier_is_video() {
    let json = r#"{"_type":"video","id":"dQw4w9WgXcQ"}"#;
    let r = classify_output(true, json);
    assert_eq!(r.kind, ResourceKind::Video);
}

#[test]
fn no_discriminator_and_no_identifier_is_not_actionable() {
    let json = r#"{"title":"anonymous"}"#;
    let r = classify_output(true, json);
    assert_eq!(r.kind, ResourceKind::NotActionable);
}

#[test]
fn malformed_json_is_not_actionable() {
    let r = classify_output(true, "this is { not json");
    assert_eq!(r.kind, ResourceKind::NotActionable);
    assert_eq!(r.playlist_title, None);
    // Uninterpretable output is a different cause than an empty playlist.
    assert!(!r.empty_playlist);
}

#[test]
fn empty_output_is_not_actionable() {
    let r = classify_output(true, "");
    assert_eq!(r.kind, ResourceKind::NotActionable);
}

#[test]
fn failed_tool_run_is_not_actionable_even_with_good_output() {
    let json = r#"{"_type":"playlist","entries":[{"id":"a"}],"title":"Mix"}"#;
    let r = classify_output(false, json);
    assert_eq!(r.kind, ResourceKind::NotActionable);
    assert_eq!(r.playlist_title, None);
}

#[test]
fn entries_of_wrong_type_read_as_absent() {
    let json = r#"{"_type":"playlist","entries":"oops","title":"Mix"}"#;
    let r = classify_output(true, json);
    assert_eq!(r.kind, ResourceKind::Playlist);
}

#[test]
fn parse_metadata_reads_all_fields() {
    let json = r#"{"_type":"playlist","id":"PL1","title":"Mix","entries":[{"id":"a"}],"playlist_count":1}"#;
    let m = parse_metadata(json).expect("valid document");
    assert_eq!(m.discriminator, Some("playlist".to_string()));
    assert_eq!(m.id, Some("PL1".to_string()));
    assert_eq!(m.title, Some("Mix".to_string()));
    assert_eq!(m.entries_len, Some(1));
    assert_eq!(m.declared_count, Some(1));
}

#[test]
fn parse_metadata_rejects_malformed_text() {
    assert!(parse_metadata("[unterminated").is_none());
}

#[test]
fn classify_metadata_follows_the_rule_order() {
    let m = ExtractionMetadata {
        discriminator: Some("playlist".to_string()),
        id: None,
        entries_len: Some(3),
        declared_count: Some(3),
        title: Some("Mix".to_string()),
    };
    assert_eq!(classify_metadata(&m), ResourceKind::Playlist);
    let empty = ExtractionMetadata {
        discriminator: Some("playlist".to_string()),
        id: Some("PL1".to_string()),
        entries_len: Some(0),
        declared_count: None,
        title: None,
    };
    assert_eq!(classify_metadata(&empty), ResourceKind::NotActionable);
    let video = ExtractionMetadata {
        discriminator: None,
        id: Some("v1".to_string()),
        entries_len: None,
        declared_count: None,
        title: None,
    };
    assert_eq!(classify_metadata(&video), ResourceKind::Video);
}

#[test]
fn classify_parsed_reports_title_only_for_playlists() {
    let video = ExtractionMetadata {
        discriminator: None,
        id: Some("v1".to_string()),
        entries_len: None,
        declared_count: None,
        title: Some("A Clip".to_string()),
    };
    let r = classify_parsed(true, Some(video));
    assert_eq!(r.kind, ResourceKind::Video);
    assert_eq!(r.playlist_title, None);
}

#[test]
fn config_dir_is_read_from_the_document() {
    assert_eq!(
        config_dir_of(r#"{"dir":"/home/me/Downloads"}"#),
        Some("/home/me/Downloads".to_string())
    );
}

#[test]
fn config_without_dir_field_reads_as_absent() {
    assert_eq!(config_dir_of(r#"{"folder":"/tmp"}"#), None);
}

#[test]
fn config_with_non_string_dir_reads_as_absent() {
    assert_eq!(config_dir_of(r#"{"dir":42}"#), None);
}

#[test]
fn malformed_config_reads_as_absent() {
    assert_eq!(config_dir_of("{dir:"), None);
}

#[test]
fn written_configuration_reads_back_unchanged() {
    let rendered = render_config("/home/me/Downloads");
    assert_ne!(rendered, "/home/me/Downloads");
    assert_eq!(config_dir_of(&rendered), Some("/home/me/Downloads".to_string()));
}

#[test]
fn written_configuration_survives_characters_that_need_escaping() {
    let dir = r#"C:\Users\me "media" dir"#;
    let rendered = render_config(dir);
    assert_eq!(config_dir_of(&rendered), Some(dir.to_string()));
}
