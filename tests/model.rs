use spotify_top::model::{update, Message, Model, RunningState, TimeWindow};

fn scrolled(msgs: &[Message]) -> usize {
    let mut m = Model::new();
    for msg in msgs {
        update(&mut m, *msg);
    }
    m.scroll_position
}

#[test]
fn new_model_defaults() {
    let m = Model::new();
    assert_eq!(m.running_state, RunningState::Running);
    assert_eq!(m.time_range, TimeWindow::ShortTerm);
    assert_eq!(m.display_name, "None");
    assert_eq!(m.limit, 10);
    assert_eq!(m.scroll_position, 0);
    assert!(m.top_tracks.tracks.is_empty());
    assert!(m.top_artists.artists.is_empty());
    assert_eq!(m.top_tracks.time_range, TimeWindow::ShortTerm);
    assert_eq!(m.top_artists.time_range, TimeWindow::ShortTerm);
}

#[test]
fn default_is_new() {
    assert_eq!(Model::default(), Model::new());
}

#[test]
fn scroll_down_then_up() {
    assert_eq!(scrolled(&[Message::ScrollDown, Message::ScrollDown]), 2);
    assert_eq!(
        scrolled(&[Message::ScrollDown, Message::ScrollDown, Message::ScrollUp]),
        1
    );
}

#[test]
fn scroll_up_saturates_at_zero() {
    assert_eq!(scrolled(&[Message::ScrollUp]), 0);
    assert_eq!(scrolled(&[Message::ScrollUp, Message::ScrollUp, Message::ScrollDown]), 1);
}

#[test]
fn scroll_offset_is_downs_minus_ups_in_any_order() {
    let (d, u) = (Message::ScrollDown, Message::ScrollUp);
    assert_eq!(scrolled(&[d, d, d, u, u]), 1);
    assert_eq!(scrolled(&[d, u, d, u, d]), 1);
    assert_eq!(scrolled(&[d, d, u, d, u]), 1);
    assert_eq!(scrolled(&[d, u, u]), 0);
    assert_eq!(scrolled(&[d, d, u, u, u, u]), 0);
}

#[test]
fn scroll_down_saturates_at_max() {
    let mut m = Model::new();
    m.scroll_position = usize::MAX;
    update(&mut m, Message::ScrollDown);
    assert_eq!(m.scroll_position, usize::MAX);
}

#[test]
fn update_has_no_follow_up() {
    let mut m = Model::new();
    assert_eq!(update(&mut m, Message::ScrollDown), None);
    assert_eq!(update(&mut m, Message::ChangeTimeRange), None);
    assert_eq!(update(&mut m, Message::Quit), None);
}

#[test]
fn window_change_cycles() {
    let mut m = Model::new();
    update(&mut m, Message::ChangeTimeRange);
    assert_eq!(m.time_range, TimeWindow::MediumTerm);
    update(&mut m, Message::ChangeTimeRange);
    assert_eq!(m.time_range, TimeWindow::LongTerm);
    update(&mut m, Message::ChangeTimeRange);
    assert_eq!(m.time_range, TimeWindow::ShortTerm);
}

#[test]
fn window_change_three_times_from_each_window() {
    for start in [TimeWindow::ShortTerm, TimeWindow::MediumTerm, TimeWindow::LongTerm] {
        let mut m = Model::new();
        m.time_range = start;
        for _ in 0..3 {
            update(&mut m, Message::ChangeTimeRange);
        }
        assert_eq!(m.time_range, start);
    }
}

#[test]
fn window_next_ring() {
    assert_eq!(TimeWindow::ShortTerm.next(), TimeWindow::MediumTerm);
    assert_eq!(TimeWindow::MediumTerm.next(), TimeWindow::LongTerm);
    assert_eq!(TimeWindow::LongTerm.next(), TimeWindow::ShortTerm);
}

#[test]
fn window_change_keeps_lists() {
    let mut m = Model::new();
    update(&mut m, Message::ChangeTimeRange);
    assert_eq!(m.top_tracks.time_range, TimeWindow::ShortTerm);
    assert_eq!(m.scroll_position, 0);
}

#[test]
fn quit_freezes_the_model() {
    let mut m = Model::new();
    update(&mut m, Message::ScrollDown);
    update(&mut m, Message::Quit);
    assert_eq!(m.running_state, RunningState::Done);
    let mut frozen = Model::new();
    update(&mut frozen, Message::ScrollDown);
    update(&mut frozen, Message::Quit);
    for msg in [
        Message::ScrollDown,
        Message::ScrollUp,
        Message::ChangeTimeRange,
        Message::Quit,
    ] {
        update(&mut m, msg);
        assert_eq!(m, frozen);
    }
    assert_eq!(m.scroll_position, 1);
    assert_eq!(m.time_range, TimeWindow::ShortTerm);
}

#[test]
fn time_range_titles() {
    let mut m = Model::new();
    assert_eq!(m.show_time_range(), "Short Term");
    m.time_range = TimeWindow::MediumTerm;
    assert_eq!(m.show_time_range(), "Medium Term");
    m.time_range = TimeWindow::LongTerm;
    assert_eq!(m.show_time_range(), "Long Term");
}
