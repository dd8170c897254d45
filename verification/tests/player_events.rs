use radio::player::should_link_pad;
use radio::player::{is_spectrum_message, is_raw_audio, TitleTracker, PIPELINE_DESCRIPTION};

#[test]
fn links_raw_audio_pads_only() {
    assert!(is_raw_audio("audio/x-raw"));
    assert!(is_raw_audio("audio/x-raw-int"));
    assert!(!is_raw_audio("video/x-raw"));
    assert!(!is_raw_audio("audio/mpeg"));
}

#[test]
fn spectrum_messages() {
    assert!(is_spectrum_message("spectrum"));
    assert!(!is_spectrum_message("level"));
    assert!(!is_spectrum_message("spectrum "));
}

#[test]
fn titles_passed_on_change_only() {
    let mut t = TitleTracker::new();
    assert_eq!(t.on_title("".to_string()), None);
    assert_eq!(t.on_title("Song A".to_string()), Some("Song A".to_string()));
    assert_eq!(t.on_title("Song A".to_string()), None);
    assert_eq!(t.on_title("Song B".to_string()), Some("Song B".to_string()));
    assert_eq!(t.on_title("Song A".to_string()), Some("Song A".to_string()));
}

#[test]
fn pipeline_has_named_elements() {
    assert!(PIPELINE_DESCRIPTION.contains("uridecodebin name=uridecodebin"));
    assert!(PIPELINE_DESCRIPTION.contains("volume name=volume"));
    assert!(PIPELINE_DESCRIPTION.contains("spectrum bands=128"));
}

#[test]
fn pad_linked_only_when_free_and_raw_audio() {
    assert!(should_link_pad(false, Some("audio/x-raw")));
    assert!(!should_link_pad(true, Some("audio/x-raw")));
    assert!(!should_link_pad(true, None));
    assert!(!should_link_pad(false, None));
    assert!(!should_link_pad(false, Some("video/x-raw")));
}

#[test]
fn run_of_titles_passes_on_changes() {
    let mut t = TitleTracker::new();
    let titles: Vec<String> = ["", "A", "A", "B", "B", "A", ""].iter().map(|s| s.to_string()).collect();
    assert_eq!(t.on_titles(&titles), vec!["A".to_string(), "B".to_string(), "A".to_string(), "".to_string()]);
    assert_eq!(t.on_title("".to_string()), None);
    assert_eq!(t.on_titles(&vec![]), Vec::<String>::new());
}
