use vstd::prelude::*;

pub mod commands;
pub mod events;
pub mod text;

verus! {

/// Character budget for a response description; Discord rejects longer embeds.
pub const MAX_DESCRIPTION_SIZE: usize = 4094;

/// Failure kinds that a command can report to the user.
#[derive(Clone, Copy, Debug, PartialEq, Eq, Structural)]
pub enum FerrisError {
    LavalinkError,
    TrackNotFoundError,
    QueueEmptyError,
    PositionError,
    AlreadyOnCallError,
    NotOnCallError,
    GuildError,
    MissingArguments,
}

/// The user-facing sentence for each failure kind.
pub open spec fn spec_message(e: FerrisError) -> Seq<char> {
    match e {
        FerrisError::LavalinkError => "Something went wrong with Lavalink"@,
        FerrisError::TrackNotFoundError => "Track could not be found"@,
        FerrisError::QueueEmptyError => "Nothing is in queue"@,
        FerrisError::PositionError => "Could not parse position"@,
        FerrisError::AlreadyOnCallError => "Already on a voice channel"@,
        FerrisError::NotOnCallError => "Not on a voice channel"@,
        FerrisError::GuildError => "Could not get guild information"@,
        FerrisError::MissingArguments => "Missing arguments"@,
    }
}

impl FerrisError {
    /// Short human sentence for this failure kind; internal detail is never shown.
    pub fn message(&self) -> (r: &'static str)
        ensures
            r@ == spec_message(*self),
    {
        match self {
            FerrisError::LavalinkError => "Something went wrong with Lavalink",
            FerrisError::TrackNotFoundError => "Track could not be found",
            FerrisError::QueueEmptyError => "Nothing is in queue",
            FerrisError::PositionError => "Could not parse position",
            FerrisError::AlreadyOnCallError => "Already on a voice channel",
            FerrisError::NotOnCallError => "Not on a voice channel",
            FerrisError::GuildError => "Could not get guild information",
            FerrisError::MissingArguments => "Missing arguments",
        }
    }
}

/// A track as this controller reads it: remote-owned metadata, never mutated here.
#[derive(Debug)]
pub struct Track {
    pub title: String,
    pub uri: Option<String>,
    /// Track length in milliseconds, as the streaming node reports it.
    pub length: u64,
}

/// Mathematical model of a `Track`.
pub struct TrackView {
    pub title: Seq<char>,
    pub uri: Option<Seq<char>>,
    pub length: u64,
}

impl View for Track {
    type V = TrackView;

    open spec fn view(&self) -> TrackView {
        TrackView {
            title: self.title@,
            uri: match self.uri {
                Some(u) => Some(u@),
                None => None,
            },
            length: self.length,
        }
    }
}

impl Clone for Track {
    fn clone(&self) -> (r: Self)
        ensures
            r@ == self@,
    {
        Track {
            title: self.title.clone(),
            uri: match &self.uri {
                Some(u) => Some(u.clone()),
                None => None,
            },
            length: self.length,
        }
    }
}

/// The track that should be reinserted at the queue head whenever it finishes.
#[derive(Debug)]
pub struct LoopingTrack(pub Track);

impl View for LoopingTrack {
    type V = TrackView;

    open spec fn view(&self) -> TrackView {
        self.0@
    }
}

impl Clone for LoopingTrack {
    fn clone(&self) -> (r: Self)
        ensures
            r@ == self@,
    {
        LoopingTrack(self.0.clone())
    }
}

/// What `toggle` does to the looping slot: an occupied slot is cleared, an
/// empty one takes the current track.
pub open spec fn spec_toggle(reg: Option<TrackView>, current: TrackView) -> (bool, Option<
    TrackView,
>) {
    if reg is Some {
        (false, None)
    } else {
        (true, Some(current))
    }
}

/// The mutually-exclusive slot holding at most one currently-looping track.
/// Callers serialize access to it; the slot itself is plain data.
#[derive(Debug)]
pub struct LoopRegister {
    slot: Option<LoopingTrack>,
}

impl View for LoopRegister {
    type V = Option<TrackView>;

    closed spec fn view(&self) -> Option<TrackView> {
        match self.slot {
            Some(l) => Some(l@),
            None => None,
        }
    }
}

impl LoopRegister {
    /// A register with nothing looping.
    pub fn new() -> (r: Self)
        ensures
            r@ is None,
    {
        LoopRegister { slot: None }
    }

    /// Clears an occupied slot and reports `false`; fills an empty slot with
    /// the current track and reports `true`. Returns the affected track.
    pub fn toggle(&mut self, current: &Track) -> (r: (bool, Track))
        ensures
            r.0 == spec_toggle(old(self)@, current@).0,
            final(self)@ == spec_toggle(old(self)@, current@).1,
            r.1@ == current@,
    {
        if self.slot.is_some() {
            self.slot = None;
            (false, current.clone())
        } else {
            self.slot = Some(LoopingTrack(current.clone()));
            (true, current.clone())
        }
    }

    /// Empties the slot; skipping cancels an active loop.
    pub fn clear(&mut self)
        ensures
            final(self)@ is None,
    {
        self.slot = None;
    }

    /// A copy of the looping track, if one is set.
    pub fn snapshot(&self) -> (r: Option<Track>)
        ensures
            r is Some <==> self@ is Some,
            r matches Some(t) ==> Some(t@) == self@,
    {
        match &self.slot {
            Some(l) => Some(l.0.clone()),
            None => None,
        }
    }
}

/// The register holds `true` and the current track after a toggle on an empty
/// slot, and is empty again, reporting `false`, after a second toggle.
pub proof fn lemma_toggle_twice(reg: Option<TrackView>, current: TrackView)
    requires
        reg is None,
    ensures
        spec_toggle(reg, current) == (true, Some(current)),
        spec_toggle(spec_toggle(reg, current).1, current) == (false, Option::<TrackView>::None),
{
}

/// Builder for a response message; the embed itself is rendered outside.
#[derive(Debug)]
pub struct Response {
    pub title: Option<String>,
    pub fields: Option<Vec<(String, String, bool)>>,
    pub description: Option<String>,
}

/// Mathematical model of a `Response`.
pub struct ResponseView {
    pub title: Option<Seq<char>>,
    pub fields: Option<Seq<(Seq<char>, Seq<char>, bool)>>,
    pub description: Option<Seq<char>>,
}

impl View for Response {
    type V = ResponseView;

    open spec fn view(&self) -> ResponseView {
        ResponseView {
            title: match self.title {
                Some(t) => Some(t@),
                None => None,
            },
            fields: match self.fields {
                Some(f) => Some(f@.map_values(|e: (String, String, bool)| (e.0@, e.1@, e.2))),
                None => None,
            },
            description: match self.description {
                Some(d) => Some(d@),
                None => None,
            },
        }
    }
}

impl Response {
    /// A response with nothing set.
    pub fn new() -> (r: Self)
        ensures
            r@.title is None,
            r@.fields is None,
            r@.description is None,
    {
        Response { title: None, fields: None, description: None }
    }

    /// Sets the title.
    pub fn title(self, title: &str) -> (r: Self)
        ensures
            r@.title == Some(title@),
            r@.fields == self@.fields,
            r@.description == self@.description,
    {
        Response { title: Some(title.to_owned()), fields: self.fields, description: self.description }
    }

    /// Sets the field list.
    pub fn fields(self, fields: Vec<(String, String, bool)>) -> (r: Self)
        ensures
            r@.fields == Some(fields@.map_values(|e: (String, String, bool)| (e.0@, e.1@, e.2))),
            r@.title == self@.title,
            r@.description == self@.description,
    {
        Response { title: self.title, fields: Some(fields), description: self.description }
    }

    /// Sets the description.
    pub fn description(self, description: &str) -> (r: Self)
        ensures
            r@.description == Some(description@),
            r@.title == self@.title,
            r@.fields == self@.fields,
    {
        Response { title: self.title, fields: self.fields, description: Some(description.to_owned()) }
    }
}

impl Default for Response {
    fn default() -> (r: Self)
        ensures
            r@.title is None,
            r@.fields is None,
            r@.description is None,
    {
        Response::new()
    }
}

/// What a description is cut to before it is sent: at most one character more
/// than `MAX_DESCRIPTION_SIZE`.
pub open spec fn spec_truncate_description(s: Seq<char>) -> Seq<char> {
    if s.len() > MAX_DESCRIPTION_SIZE + 1 {
        s.take(MAX_DESCRIPTION_SIZE + 1)
    } else {
        s
    }
}

/// Cuts a description down so the chat gateway does not reject the message.
pub fn truncate_description(description: &str) -> (r: &str)
    ensures
        r@ == spec_truncate_description(description@),
{
    let len = description.unicode_len();
    if len > MAX_DESCRIPTION_SIZE + 1 {
        description.substring_char(0, MAX_DESCRIPTION_SIZE + 1)
    } else {
        description
    }
}

/// Value of the two numeric fields combined, saturating at the largest duration.
pub open spec fn spec_combine_minutes_seconds(minutes: u64, seconds: u64) -> u64 {
    if minutes * 60 + seconds <= u64::MAX {
        (minutes * 60 + seconds) as u64
    } else {
        u64::MAX
    }
}

/// What `parse_position` returns: the text up to the first colon read as
/// minutes, the text between the first and second colon read as seconds,
/// each degrading to zero when not numeric.
pub open spec fn spec_parse_position(s: Seq<char>) -> u64 {
    let c1 = text::spec_find_colon(s, 0);
    let minutes = text::spec_parse_field(s.take(c1));
    let seconds = if c1 == s.len() {
        0u64
    } else {
        text::spec_parse_field(s.subrange(c1 + 1, text::spec_find_colon(s, c1 + 1)))
    };
    spec_combine_minutes_seconds(minutes, seconds)
}

/// Parses a track position in `M:S` form into whole seconds. Missing or
/// non-numeric fields default to zero; the result saturates instead of failing.
pub fn parse_position(position: &str) -> (r: u64)
    ensures
        r == spec_parse_position(position@),
{
    let len = position.unicode_len();
    let c1 = text::find_colon(position, 0);
    let minutes = text::parse_field(position.substring_char(0, c1));
    let seconds = if c1 == len {
        0u64
    } else {
        let c2 = text::find_colon(position, c1 + 1);
        text::parse_field(position.substring_char(c1 + 1, c2))
    };
    proof {
        assert(position@.take(c1 as int) =~= position@.subrange(0, c1 as int));
    }
    if minutes <= (u64::MAX - seconds) / 60 {
        proof {
            assert(minutes * 60 + seconds <= u64::MAX) by (nonlinear_arith)
                requires
                    minutes <= (u64::MAX - seconds) / 60,
                    u64::MAX - seconds == ((u64::MAX - seconds) / 60) * 60 + (u64::MAX - seconds) % 60,
                    0 <= (u64::MAX - seconds) % 60 < 60,
            ;
        }
        minutes * 60 + seconds
    } else {
        proof {
            assert(minutes * 60 + seconds > u64::MAX) by (nonlinear_arith)
                requires
                    minutes > (u64::MAX - seconds) / 60,
                    u64::MAX - seconds == ((u64::MAX - seconds) / 60) * 60 + (u64::MAX - seconds) % 60,
                    0 <= (u64::MAX - seconds) % 60 < 60,
            ;
        }
        u64::MAX
    }
}

/// Parsing a rendered `minutes:seconds` text gives back exactly
/// `minutes * 60 + seconds`, for every pair with `seconds < 60` whose total
/// fits the position type.
pub proof fn lemma_parse_position_of_formatted(minutes: u64, seconds: u64)
    requires
        seconds < 60,
        minutes * 60 + seconds <= u64::MAX,
    ensures
        spec_parse_position(
            text::spec_digits(minutes as nat) + seq![':'] + text::spec_digits(seconds as nat),
        ) == minutes * 60 + seconds,
{
    let m = text::spec_digits(minutes as nat);
    let s = text::spec_digits(seconds as nat);
    let whole = m + seq![':'] + s;
    text::lemma_digits_roundtrip(minutes);
    text::lemma_digits_roundtrip(seconds);
    text::lemma_digits_no_colon(minutes);
    text::lemma_digits_no_colon(seconds);
    assert forall|j: int| 0 <= j < m.len() implies whole[j] != ':' by {
        assert(whole[j] == m[j]);
    }
    assert(whole[m.len() as int] == ':');
    text::lemma_find_colon_at(whole, 0, m.len() as int);
    let c1 = m.len() as int;
    assert(whole.take(c1) =~= m);
    assert forall|j: int| c1 + 1 <= j < whole.len() implies whole[j] != ':' by {
        assert(whole[j] == s[j - (c1 + 1)]);
    }
    text::lemma_find_colon_at(whole, c1 + 1, whole.len() as int);
    assert(whole.subrange(c1 + 1, whole.len() as int) =~= s);
}

/// What an offset does to the current position: `+` adds and `-` subtracts,
/// saturating at the ends; any other sign leaves the position unchanged.
pub open spec fn spec_parse_offset_position(current: u64, sign: char, offset: u64) -> u64 {
    if sign == '+' {
        if current + offset <= u64::MAX {
            (current + offset) as u64
        } else {
            u64::MAX
        }
    } else if sign == '-' {
        if current >= offset {
            (current - offset) as u64
        } else {
            0u64
        }
    } else {
        current
    }
}

/// Applies a signed offset to the current position with saturation: positions
/// never go negative and never overflow.
pub fn parse_offset_position(current_position: u64, sign: char, offset_duration: u64) -> (r: u64)
    ensures
        r == spec_parse_offset_position(current_position, sign, offset_duration),
{
    match sign {
        '+' => if current_position <= u64::MAX - offset_duration {
            current_position + offset_duration
        } else {
            u64::MAX
        },
        '-' => if current_position >= offset_duration {
            current_position - offset_duration
        } else {
            0
        },
        _ => current_position,
    }
}

/// The twenty bar cells: filled before the marker, the marker at the bucket
/// the position falls in, empty after it.
pub open spec fn spec_bar_cells(bar_position: u64) -> Seq<char> {
    Seq::new(
        20,
        |i: int|
            if i < bar_position as int {
                '\u{25ae}'
            } else if i > bar_position as int {
                '\u{25af}'
            } else {
                '\u{25cf}'
            },
    )
}

/// What `get_progress` returns: the bracketed twenty-cell bar, a tab, then the
/// position and the length as zero-padded `MM:SS/MM:SS`.
pub open spec fn spec_progress(position: u64, duration: u64) -> Seq<char> {
    let bar_duration = duration / 20;
    let bar_position = if bar_duration == 0 {
        0u64
    } else {
        position / bar_duration
    };
    "["@ + spec_bar_cells(bar_position) + "]\t"@ + text::spec_pad2((position / 60) as nat) + ":"@
        + text::spec_pad2((position % 60) as nat) + "/"@ + text::spec_pad2((duration / 60) as nat)
        + ":"@ + text::spec_pad2((duration % 60) as nat)
}

/// With a zero-length track the bucket index is guarded to zero instead of
/// dividing by zero, so the bar always carries its marker on the first cell,
/// whatever the position says.
pub proof fn lemma_progress_zero_duration_marker(position: u64)
    ensures
        spec_progress(position, 0)[1] == '\u{25cf}',
{
    reveal_strlit("[");
    let bar = spec_progress(position, 0);
    assert(spec_bar_cells(0)[0] == '\u{25cf}');
    assert(bar[1] == spec_bar_cells(0)[0]);
}

/// Renders the progress of the current track as a fixed-width bar and a label,
/// guarding the zero-length case instead of dividing by zero.
#[verifier::loop_isolation(false)]
pub fn get_progress(position: u64, duration: u64) -> (r: String)
    ensures
        r@ == spec_progress(position, duration),
{
    proof {
        reveal_strlit("[");
        reveal_strlit("]\t");
        reveal_strlit(":");
        reveal_strlit("/");
        reveal_strlit("\u{25ae}");
        reveal_strlit("\u{25af}");
        reveal_strlit("\u{25cf}");
    }
    let bar_duration = duration / 20;
    let bar_position = if bar_duration == 0 {
        0
    } else {
        position / bar_duration
    };
    let mut bar = String::new();
    bar.append("[");
    let mut i: u64 = 0;
    while i < 20
        invariant
            0 <= i <= 20,
            bar@ == "["@ + spec_bar_cells(bar_position).take(i as int),
        decreases 20 - i,
    {
        if i < bar_position {
            bar.append("\u{25ae}");
        } else if i > bar_position {
            bar.append("\u{25af}");
        } else {
            bar.append("\u{25cf}");
        }
        proof {
            assert(bar@ =~= "["@ + spec_bar_cells(bar_position).take(i as int + 1));
        }
        i += 1;
    }
    proof {
        assert(spec_bar_cells(bar_position).take(20) =~= spec_bar_cells(bar_position));
    }
    bar.append("]\t");
    text::push_pad2(position / 60, &mut bar);
    bar.append(":");
    text::push_pad2(position % 60, &mut bar);
    bar.append("/");
    text::push_pad2(duration / 60, &mut bar);
    bar.append(":");
    text::push_pad2(duration % 60, &mut bar);
    proof {
        assert(bar@ =~= spec_progress(position, duration));
    }
    bar
}

} // verus!
