use spotify_top::client::{collect_top_artists, collect_top_tracks, ArtistItem, TrackItem};
use spotify_top::model::{update, Message, Model, RunningState, TimeWindow};
use spotify_top::render::{render_artist_row, render_track_row, SpanStyle, StyledSpan};

fn line_text(row: &[StyledSpan]) -> String {
    row.iter().map(|s| s.content.as_str()).collect()
}

fn track(name: &str, seconds: u64, artists: &[&str]) -> TrackItem {
    TrackItem {
        name: name.to_string(),
        duration_seconds: seconds,
        artists: artists.iter().map(|s| s.to_string()).collect(),
    }
}

/// Stands in for the service: three tracks whatever the window and limit.
fn stub_fetch_tracks(window: TimeWindow, limit: usize) -> Vec<TrackItem> {
    let _ = (window, limit);
    vec![
        track("Alpha", 125, &["Ann", "Bob"]),
        track("Beta", 59, &["Cy"]),
        track("Gamma", 600, &["Di"]),
    ]
}

#[test]
fn track_row_layout() {
    let top = collect_top_tracks(
        TimeWindow::ShortTerm,
        vec![track("Song", 125, &["A", "B"])],
        10,
    );
    let row = render_track_row(&top.tracks[0]);
    let parts: Vec<(&str, SpanStyle)> = row.iter().map(|s| (s.content.as_str(), s.style)).collect();
    assert_eq!(
        parts,
        vec![
            ("1", SpanStyle::Rank),
            (" - ", SpanStyle::Plain),
            ("Song", SpanStyle::Plain),
            (" by ", SpanStyle::Plain),
            ("A, B", SpanStyle::Plain),
            (" (2:05)", SpanStyle::Detail),
        ]
    );
    assert_eq!(line_text(&row), "1 - Song by A, B (2:05)");
}

#[test]
fn artist_row_layout() {
    let top = collect_top_artists(
        TimeWindow::ShortTerm,
        vec![ArtistItem {
            name: "Band".to_string(),
            genres: vec!["rock".to_string(), "pop".to_string()],
        }],
        10,
    );
    let row = render_artist_row(&top.artists[0]);
    assert_eq!(line_text(&row), "1 - Band (rock, pop)");
    assert_eq!(row[0].style, SpanStyle::Rank);
    assert_eq!(row.len(), 5);
}

#[test]
fn rows_follow_the_lists() {
    let mut m = Model::new();
    m.top_tracks = collect_top_tracks(m.time_range, stub_fetch_tracks(m.time_range, m.limit), m.limit);
    let rows = m.parse_top_tracks_output();
    assert_eq!(rows.len(), 3);
    assert_eq!(line_text(&rows[1]), "2 - Beta by Cy (0:59)");
    assert!(m.parse_top_artists_output().is_empty());
}

#[test]
fn startup_render_quit_scenario() {
    let mut m = Model::new();
    assert_eq!(m.time_range, TimeWindow::ShortTerm);
    assert_eq!(m.limit, 10);
    m.top_tracks = collect_top_tracks(m.time_range, stub_fetch_tracks(m.time_range, m.limit), m.limit);
    assert_eq!(m.top_tracks.tracks.len(), 3);
    let ranks: Vec<usize> = m.top_tracks.tracks.iter().map(|t| t.index).collect();
    assert_eq!(ranks, vec![1, 2, 3]);

    let frame: Vec<String> = m.parse_top_tracks_output().iter().map(|r| line_text(r)).collect();
    for title in ["Alpha", "Beta", "Gamma"] {
        assert!(frame.iter().any(|line| line.contains(title)));
    }
    let title = m.show_time_range();

    update(&mut m, Message::Quit);
    assert_eq!(m.running_state, RunningState::Done);
    let again: Vec<String> = m.parse_top_tracks_output().iter().map(|r| line_text(r)).collect();
    assert_eq!(again, frame);
    assert_eq!(m.show_time_range(), title);
}
