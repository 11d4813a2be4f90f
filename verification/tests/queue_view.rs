use dj_ferris::Track;
use dj_ferris::FerrisError;
use dj_ferris::commands::queue::render_queue;
use dj_ferris::commands::queue::queue;

fn track(title: &str, uri: Option<&str>) -> Track {
    Track { title: title.to_string(), uri: uri.map(|u| u.to_string()), length: 180_000 }
}

#[test]
fn renders_lines_in_order_with_uri() {
    let tracks = vec![
        track("First", Some("https://example.com/a")),
        track("Second", None),
        track("Third", Some("https://example.com/c")),
    ];
    let out = render_queue(&tracks, false, 4094);
    assert_eq!(
        out,
        "0. [First](https://example.com/a)\n1. [Second](Unknown)\n2. [Third](https://example.com/c)\n"
    );
}

#[test]
fn loop_glyph_marks_only_the_head_line() {
    let tracks = vec![track("First", None), track("Second", None)];
    let out = render_queue(&tracks, true, 4094);
    assert_eq!(out, "0. [First](Unknown) \u{1f501}\n1. [Second](Unknown)\n");
}

#[test]
fn over_budget_list_is_truncated_with_marker() {
    let tracks = vec![track("AAAA", None), track("BBBB", None), track("CCCC", None)];
    // each line is 18 characters plus a newline; two lines fit in 45, the third does not
    let out = render_queue(&tracks, false, 45);
    assert_eq!(out, "0. [AAAA](Unknown)\n1. [BBBB](Unknown)\n. . .\n");
    let lines: Vec<&str> = out.lines().collect();
    assert!(lines.len() < 4);
    assert!(out.contains(". . ."));
}

#[test]
fn first_line_too_long_gives_only_the_marker() {
    let tracks = vec![track("A very long title indeed", None)];
    let out = render_queue(&tracks, false, 10);
    assert_eq!(out, ". . .\n");
}

#[test]
fn under_budget_list_is_rendered_whole() {
    let tracks: Vec<Track> = (0..5).map(|i| track(&format!("T{i}"), None)).collect();
    let out = render_queue(&tracks, false, 4094);
    let lines: Vec<&str> = out.lines().collect();
    assert_eq!(lines.len(), 5);
    for (i, line) in lines.iter().enumerate() {
        assert!(line.starts_with(&format!("{i}. [T{i}]")));
    }
}

#[test]
fn queue_command_fails_on_empty_queue() {
    let tracks: Vec<Track> = vec![];
    assert!(matches!(queue(&tracks, false), Err(FerrisError::QueueEmptyError)));
}

#[test]
fn queue_command_renders_under_description_budget() {
    let tracks = vec![track("Song", Some("https://example.com/s"))];
    let response = queue(&tracks, false).unwrap();
    assert_eq!(response.title.as_deref(), Some("Queue"));
    assert_eq!(
        response.description.as_deref(),
        Some("0. [Song](https://example.com/s)\n")
    );
    assert!(response.fields.is_none());
}
