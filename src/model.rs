use vstd::prelude::*;

use crate::client::{TopArtists, TopTracks};
use crate::render::{artist_row, render_artist_row, render_track_row, row_view, track_row, StyledSpan};

verus! {

/// The statistics period offered by the streaming service.
#[derive(Debug, Clone, Copy, PartialEq, Eq, Structural)]
pub enum TimeWindow {
    ShortTerm,
    MediumTerm,
    LongTerm,
}

/// The window that follows `w` in the fixed ring short -> medium -> long -> short.
pub open spec fn next_window(w: TimeWindow) -> TimeWindow {
    match w {
        TimeWindow::ShortTerm => TimeWindow::MediumTerm,
        TimeWindow::MediumTerm => TimeWindow::LongTerm,
        TimeWindow::LongTerm => TimeWindow::ShortTerm,
    }
}

impl TimeWindow {
    /// The window that follows this one in the ring.
    pub fn next(&self) -> (r: TimeWindow)
        ensures
            r == next_window(*self),
    {
        match self {
            TimeWindow::ShortTerm => TimeWindow::MediumTerm,
            TimeWindow::MediumTerm => TimeWindow::LongTerm,
            TimeWindow::LongTerm => TimeWindow::ShortTerm,
        }
    }
}


/// The human-readable name of a window, as region titles show it.
pub open spec fn window_title(w: TimeWindow) -> Seq<char> {
    match w {
        TimeWindow::ShortTerm => "Short Term"@,
        TimeWindow::MediumTerm => "Medium Term"@,
        TimeWindow::LongTerm => "Long Term"@,
    }
}

/// Whether the main loop keeps going.
#[derive(Debug, Default, Clone, Copy, PartialEq, Eq, Structural)]
pub enum RunningState {
    #[default]
    Running,
    Done,
}

/// A request to change the view state.
#[derive(Debug, Clone, Copy, PartialEq, Eq, Structural)]
pub enum Message {
    ScrollUp,
    ScrollDown,
    ChangeTimeRange,
    Quit,
}

/// The state of the viewer.
#[derive(Debug, PartialEq, Eq)]
pub struct Model {
    pub running_state: RunningState,
    pub time_range: TimeWindow,
    pub display_name: String,
    pub limit: usize,
    pub top_tracks: TopTracks,
    pub top_artists: TopArtists,
    pub scroll_position: usize,
}

/// The model after handling `msg` in `m`. Nothing changes once the viewer is
/// done; otherwise scrolling moves the offset by one (saturating at both
/// ends of `usize`), a window change moves one step along the ring, and quit
/// marks the viewer done.
pub open spec fn step(m: Model, msg: Message) -> Model {
    if m.running_state == RunningState::Done {
        m
    } else {
        match msg {
            Message::ScrollDown => Model {
                scroll_position: if m.scroll_position < usize::MAX {
                    (m.scroll_position + 1) as usize
                } else {
                    m.scroll_position
                },
                ..m
            },
            Message::ScrollUp => Model {
                scroll_position: if m.scroll_position > 0 {
                    (m.scroll_position - 1) as usize
                } else {
                    0
                },
                ..m
            },
            Message::ChangeTimeRange => Model { time_range: next_window(m.time_range), ..m },
            Message::Quit => Model { running_state: RunningState::Done, ..m },
        }
    }
}

/// The model after handling each of `msgs` in turn, starting from `m`.
pub open spec fn step_all(m: Model, msgs: Seq<Message>) -> Model
    decreases msgs.len(),
{
    if msgs.len() == 0 {
        m
    } else {
        step_all(step(m, msgs[0]), msgs.drop_first())
    }
}

impl Model {
    /// The result lists keep dense 1-based ranks and hold no more entries
    /// than the configured limit.
    pub open spec fn wf(&self) -> bool {
        &&& self.top_tracks.wf()
        &&& self.top_artists.wf()
        &&& self.top_tracks.tracks.len() <= self.limit
        &&& self.top_artists.artists.len() <= self.limit
    }

    /// A running viewer on the short-term window, scrolled to the top, with
    /// empty lists, a limit of ten and the display name "None".
    pub fn new() -> (r: Model)
        ensures
            r.running_state == RunningState::Running,
            r.time_range == TimeWindow::ShortTerm,
            r.display_name@ == "None"@,
            r.limit == 10,
            r.scroll_position == 0,
            r.top_tracks.time_range == TimeWindow::ShortTerm,
            r.top_tracks.tracks.len() == 0,
            r.top_artists.time_range == TimeWindow::ShortTerm,
            r.top_artists.artists.len() == 0,
            r.wf(),
    {
        Model {
            running_state: RunningState::Running,
            display_name: String::from_str("None"),
            limit: 10,
            scroll_position: 0,
            top_tracks: TopTracks::new(TimeWindow::ShortTerm),
            top_artists: TopArtists::new(TimeWindow::ShortTerm),
            time_range: TimeWindow::ShortTerm,
        }
    }

    /// The rows of the top-tracks region, one per entry, in list order.
    pub fn parse_top_tracks_output(&self) -> (r: Vec<Vec<StyledSpan>>)
        ensures
            r.len() == self.top_tracks.tracks.len(),
            forall|i: int|
                0 <= i < r.len() ==> row_view(#[trigger] r@[i]@) == track_row(
                    self.top_tracks.tracks@[i]@,
                ),
    {
        let mut lines: Vec<Vec<StyledSpan>> = Vec::new();
        let mut i: usize = 0;
        while i < self.top_tracks.tracks.len()
            invariant
                i <= self.top_tracks.tracks.len(),
                lines.len() == i,
                forall|j: int|
                    0 <= j < i ==> row_view(#[trigger] lines@[j]@) == track_row(
                        self.top_tracks.tracks@[j]@,
                    ),
            decreases self.top_tracks.tracks.len() - i,
        {
            lines.push(render_track_row(&self.top_tracks.tracks[i]));
            i = i + 1;
        }
        lines
    }

    /// The rows of the top-artists region, one per entry, in list order.
    pub fn parse_top_artists_output(&self) -> (r: Vec<Vec<StyledSpan>>)
        ensures
            r.len() == self.top_artists.artists.len(),
            forall|i: int|
                0 <= i < r.len() ==> row_view(#[trigger] r@[i]@) == artist_row(
                    self.top_artists.artists@[i]@,
                ),
    {
        let mut lines: Vec<Vec<StyledSpan>> = Vec::new();
        let mut i: usize = 0;
        while i < self.top_artists.artists.len()
            invariant
                i <= self.top_artists.artists.len(),
                lines.len() == i,
                forall|j: int|
                    0 <= j < i ==> row_view(#[trigger] lines@[j]@) == artist_row(
                        self.top_artists.artists@[j]@,
                    ),
            decreases self.top_artists.artists.len() - i,
        {
            lines.push(render_artist_row(&self.top_artists.artists[i]));
            i = i + 1;
        }
        lines
    }

    /// The title of both regions: the active window in words.
    pub fn show_time_range(&self) -> (r: String)
        ensures
            r@ == window_title(self.time_range),
    {
        match self.time_range {
            TimeWindow::ShortTerm => String::from_str("Short Term"),
            TimeWindow::MediumTerm => String::from_str("Medium Term"),
            TimeWindow::LongTerm => String::from_str("Long Term"),
        }
    }
}

impl Default for Model {
    fn default() -> (r: Self)
        ensures
            r.running_state == RunningState::Running,
            r.time_range == TimeWindow::ShortTerm,
            r.display_name@ == "None"@,
            r.limit == 10,
            r.scroll_position == 0,
            r.top_tracks.tracks.len() == 0,
            r.top_artists.artists.len() == 0,
            r.wf(),
    {
        Self::new()
    }
}

/// Applies `msg` to `model`. Returns the follow-up message to apply in the
/// same input cycle; no message has one.
pub fn update(model: &mut Model, msg: Message) -> (r: Option<Message>)
    ensures
        *final(model) == step(*old(model), msg),
        r is None,
{
    if model.running_state == RunningState::Done {
        return None;
    }
    match msg {
        Message::ScrollDown => {
            model.scroll_position = model.scroll_position.saturating_add(1);
        },
        Message::ScrollUp => {
            model.scroll_position = model.scroll_position.saturating_sub(1);
        },
        Message::Quit => model.running_state = RunningState::Done,
        Message::ChangeTimeRange => {
            model.time_range = model.time_range.next();
        },
    };
    None
}


/// Whether `msg` only scrolls.
pub open spec fn is_scroll(msg: Message) -> bool {
    msg == Message::ScrollDown || msg == Message::ScrollUp
}

/// Scroll-downs minus scroll-ups in `msgs`.
pub open spec fn net_scroll(msgs: Seq<Message>) -> int
    decreases msgs.len(),
{
    if msgs.len() == 0 {
        0
    } else {
        net_scroll(msgs.drop_last()) + if msgs.last() == Message::ScrollDown {
            1int
        } else if msgs.last() == Message::ScrollUp {
            -1int
        } else {
            0int
        }
    }
}

/// The least value that `net_scroll` takes over the prefixes of `msgs`,
/// the empty prefix (net zero) included.
pub open spec fn lowest_net_scroll(msgs: Seq<Message>) -> int
    decreases msgs.len(),
{
    if msgs.len() == 0 {
        0
    } else {
        let before = lowest_net_scroll(msgs.drop_last());
        let now = net_scroll(msgs);
        if now < before {
            now
        } else {
            before
        }
    }
}

/// Handling `msgs` and then `msg` is handling `msgs.push(msg)`.
pub proof fn lemma_step_all_push(m: Model, msgs: Seq<Message>, msg: Message)
    ensures
        step_all(m, msgs.push(msg)) == step(step_all(m, msgs), msg),
    decreases msgs.len(),
{
    let pushed = msgs.push(msg);
    if msgs.len() == 0 {
        assert(pushed.drop_first() =~= Seq::<Message>::empty());
        assert(step_all(step(m, msg), pushed.drop_first()) == step(m, msg));
    } else {
        assert(pushed.drop_first() =~= msgs.drop_first().push(msg));
        assert(pushed[0] == msgs[0]);
        lemma_step_all_push(step(m, msgs[0]), msgs.drop_first(), msg);
    }
}

/// From the top of a running viewer, a run of scroll messages leaves the
/// offset at the net count of downs over ups less the lowest net count that
/// any prefix of the run reached (each up at offset zero is lost), and
/// changes nothing else.
pub proof fn lemma_scroll_walk(m: Model, msgs: Seq<Message>)
    requires
        m.running_state == RunningState::Running,
        m.scroll_position == 0,
        msgs.len() <= usize::MAX,
        forall|i: int| 0 <= i < msgs.len() ==> is_scroll(#[trigger] msgs[i]),
    ensures
        0 <= net_scroll(msgs) - lowest_net_scroll(msgs) <= msgs.len(),
        step_all(m, msgs) == (Model {
            scroll_position: (net_scroll(msgs) - lowest_net_scroll(msgs)) as usize,
            ..m
        }),
    decreases msgs.len(),
{
    if msgs.len() == 0 {
        assert(step_all(m, msgs) =~= m);
    } else {
        let prefix = msgs.drop_last();
        assert forall|i: int| 0 <= i < prefix.len() implies is_scroll(#[trigger] prefix[i]) by {
            assert(prefix[i] == msgs[i]);
        }
        lemma_scroll_walk(m, prefix);
        assert(prefix.push(msgs.last()) =~= msgs);
        lemma_step_all_push(m, prefix, msgs.last());
        assert(is_scroll(msgs[msgs.len() - 1]));
    }
}

/// A run of scroll messages from the top of a running viewer leaves the offset
/// at max(0, downs - ups) whenever no prefix of the run dips below
/// min(0, downs - ups); where one does, ups at offset zero were lost and the
/// offset is higher.
pub proof fn lemma_scroll_offset(m: Model, msgs: Seq<Message>)
    requires
        m.running_state == RunningState::Running,
        m.scroll_position == 0,
        msgs.len() <= usize::MAX,
        forall|i: int| 0 <= i < msgs.len() ==> is_scroll(#[trigger] msgs[i]),
        forall|k: int|
            0 <= k <= msgs.len() ==> #[trigger] net_scroll(msgs.take(k)) >= if net_scroll(msgs)
                < 0 {
                net_scroll(msgs)
            } else {
                0
            },
    ensures
        step_all(m, msgs).scroll_position == if net_scroll(msgs) > 0 {
            net_scroll(msgs)
        } else {
            0
        },
{
    lemma_scroll_walk(m, msgs);
    lemma_lowest_is_a_prefix(msgs);
    assert(msgs.take(0) =~= Seq::<Message>::empty());
    assert(msgs.take(msgs.len() as int) =~= msgs);
    let k = choose|k: int|
        0 <= k <= msgs.len() && net_scroll(#[trigger] msgs.take(k)) == lowest_net_scroll(msgs);
    assert(net_scroll(msgs.take(k)) >= if net_scroll(msgs) < 0 { net_scroll(msgs) } else { 0 });
    assert(net_scroll(msgs.take(0)) == 0);
    assert(net_scroll(msgs.take(msgs.len() as int)) == net_scroll(msgs));
}

/// The lowest net count is reached by some prefix, and no prefix goes lower.
pub proof fn lemma_lowest_is_a_prefix(msgs: Seq<Message>)
    ensures
        exists|k: int|
            0 <= k <= msgs.len() && net_scroll(#[trigger] msgs.take(k)) == lowest_net_scroll(msgs),
        forall|k: int|
            0 <= k <= msgs.len() ==> net_scroll(#[trigger] msgs.take(k)) >= lowest_net_scroll(msgs),
    decreases msgs.len(),
{
    if msgs.len() == 0 {
        assert(msgs.take(0) =~= msgs);
    } else {
        let prefix = msgs.drop_last();
        lemma_lowest_is_a_prefix(prefix);
        assert forall|k: int| 0 <= k <= prefix.len() implies #[trigger] msgs.take(k) == prefix.take(
            k,
        ) by {
            assert(msgs.take(k) =~= prefix.take(k));
        }
        assert(msgs.take(msgs.len() as int) =~= msgs);
        if net_scroll(msgs) < lowest_net_scroll(prefix) {
            assert(net_scroll(msgs.take(msgs.len() as int)) == lowest_net_scroll(msgs));
        } else {
            let k = choose|k: int|
                0 <= k <= prefix.len() && net_scroll(#[trigger] prefix.take(k))
                    == lowest_net_scroll(prefix);
            assert(msgs.take(k) == prefix.take(k));
        }
        assert forall|k: int| 0 <= k <= msgs.len() implies net_scroll(#[trigger] msgs.take(k))
            >= lowest_net_scroll(msgs) by {
            if k < msgs.len() {
                assert(msgs.take(k) == prefix.take(k));
            }
        }
    }
}

/// Three window changes bring every window back to itself.
pub proof fn lemma_window_ring(w: TimeWindow)
    ensures
        next_window(next_window(next_window(w))) == w,
        next_window(w) != w,
        next_window(next_window(w)) != w,
{
}

/// Three window-change messages leave any model as it was.
pub proof fn lemma_three_window_changes(m: Model)
    ensures
        step_all(
            m,
            seq![Message::ChangeTimeRange, Message::ChangeTimeRange, Message::ChangeTimeRange],
        ) == m,
{
    let msgs = seq![Message::ChangeTimeRange, Message::ChangeTimeRange, Message::ChangeTimeRange];
    assert(msgs.drop_first() =~= seq![Message::ChangeTimeRange, Message::ChangeTimeRange]);
    assert(msgs.drop_first().drop_first() =~= seq![Message::ChangeTimeRange]);
    assert(msgs.drop_first().drop_first().drop_first() =~= Seq::<Message>::empty());
    lemma_window_ring(m.time_range);
    let m1 = step(m, Message::ChangeTimeRange);
    let m2 = step(m1, Message::ChangeTimeRange);
    let m3 = step(m2, Message::ChangeTimeRange);
    assert(step_all(m3, msgs.drop_first().drop_first().drop_first()) == m3);
    assert(step_all(m2, msgs.drop_first().drop_first()) == m3);
    assert(step_all(m1, msgs.drop_first()) == m3);
    assert(m3 =~= m);
}

/// A viewer that is done stays exactly as it is, whatever messages follow.
pub proof fn lemma_done_is_final(m: Model, msgs: Seq<Message>)
    requires
        m.running_state == RunningState::Done,
    ensures
        step_all(m, msgs) == m,
    decreases msgs.len(),
{
    if msgs.len() > 0 {
        lemma_done_is_final(m, msgs.drop_first());
    }
}

/// After quit, whatever messages follow, the viewer is done and otherwise
/// as it was before quit.
pub proof fn lemma_quit_freezes(m: Model, msgs: Seq<Message>)
    ensures
        step_all(m, seq![Message::Quit] + msgs) == (Model { running_state: RunningState::Done, ..m }),
{
    let all = seq![Message::Quit] + msgs;
    assert(all.drop_first() =~= msgs);
    let quit = step(m, Message::Quit);
    assert(quit == (Model { running_state: RunningState::Done, ..m }));
    lemma_done_is_final(quit, msgs);
}

} // verus!
