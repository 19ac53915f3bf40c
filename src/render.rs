use vstd::prelude::*;

use crate::client::{TopArtist, TopArtistView, TopTrack, TopTrackView};
use crate::text::{decimal, decimal_string, join, joined};

verus! {

/// How the front end draws a piece of a row.
#[derive(Debug, Clone, Copy, PartialEq, Eq, Structural)]
pub enum SpanStyle {
    /// The terminal's default look.
    Plain,
    /// The rank at the start of a row: green and italic.
    Rank,
    /// The trailing duration of a track row: white.
    Detail,
}

/// A piece of a row with the look it is drawn in.
#[derive(Debug, PartialEq, Eq)]
pub struct StyledSpan {
    pub content: String,
    pub style: SpanStyle,
}

impl View for StyledSpan {
    type V = (Seq<char>, SpanStyle);

    open spec fn view(&self) -> (Seq<char>, SpanStyle) {
        (self.content@, self.style)
    }
}

/// What a row of spans shows.
pub open spec fn row_view(row: Seq<StyledSpan>) -> Seq<(Seq<char>, SpanStyle)> {
    row.map_values(|s: StyledSpan| s@)
}

/// The row of a track entry: rank, " - ", title, " by ", the artists joined by
/// ", ", then the duration in parentheses.
pub open spec fn track_row(t: TopTrackView) -> Seq<(Seq<char>, SpanStyle)> {
    seq![
        (decimal(t.index as nat), SpanStyle::Rank),
        (" - "@, SpanStyle::Plain),
        (t.track_name, SpanStyle::Plain),
        (" by "@, SpanStyle::Plain),
        (joined(t.artists, ", "@), SpanStyle::Plain),
        (" ("@ + t.duration + ")"@, SpanStyle::Detail),
    ]
}

/// The row of an artist entry: rank, " - ", name, " ", then the genre tags in
/// parentheses.
pub open spec fn artist_row(a: TopArtistView) -> Seq<(Seq<char>, SpanStyle)> {
    seq![
        (decimal(a.index as nat), SpanStyle::Rank),
        (" - "@, SpanStyle::Plain),
        (a.artist_name, SpanStyle::Plain),
        (" "@, SpanStyle::Plain),
        ("("@ + a.genres + ")"@, SpanStyle::Plain),
    ]
}

fn span(content: String, style: SpanStyle) -> (r: StyledSpan)
    ensures
        r@ == (content@, style),
{
    StyledSpan { content, style }
}

fn literal_span(content: &str, style: SpanStyle) -> (r: StyledSpan)
    ensures
        r@ == (content@, style),
{
    StyledSpan { content: String::from_str(content), style }
}

fn parenthesized(inner: &String, open: &str) -> (r: String)
    ensures
        r@ == open@ + inner@ + ")"@,
{
    let mut s = String::from_str(open);
    s.append(inner.as_str());
    s.append(")");
    s
}

/// The spans of one track row.
pub fn render_track_row(t: &TopTrack) -> (r: Vec<StyledSpan>)
    ensures
        row_view(r@) == track_row(t@),
{
    let mut row: Vec<StyledSpan> = Vec::new();
    row.push(span(decimal_string(t.index as u64), SpanStyle::Rank));
    row.push(literal_span(" - ", SpanStyle::Plain));
    row.push(span(t.track_name.clone(), SpanStyle::Plain));
    row.push(literal_span(" by ", SpanStyle::Plain));
    row.push(span(join(&t.artists, ", "), SpanStyle::Plain));
    row.push(span(parenthesized(&t.duration, " ("), SpanStyle::Detail));
    proof {
        assert(row_view(row@) =~= track_row(t@));
    }
    row
}

/// The spans of one artist row.
pub fn render_artist_row(a: &TopArtist) -> (r: Vec<StyledSpan>)
    ensures
        row_view(r@) == artist_row(a@),
{
    let mut row: Vec<StyledSpan> = Vec::new();
    row.push(span(decimal_string(a.index as u64), SpanStyle::Rank));
    row.push(literal_span(" - ", SpanStyle::Plain));
    row.push(span(a.artist_name.clone(), SpanStyle::Plain));
    row.push(literal_span(" ", SpanStyle::Plain));
    row.push(span(parenthesized(&a.genres, "("), SpanStyle::Plain));
    proof {
        assert(row_view(row@) =~= artist_row(a@));
    }
    row
}

} // verus!
