use vstd::prelude::*;

use crate::FerrisError;
use crate::MAX_DESCRIPTION_SIZE;
use crate::Response;
use crate::Track;
use crate::TrackView;
use crate::text;

verus! {

/// The marker line written in place of the tracks that did not fit the budget.
pub open spec fn spec_truncation_marker() -> Seq<char> {
    ". . .\n"@
}

/// One rendered queue line (without its newline): the zero-based index, the
/// title linking to the uri — or to "Unknown" without one — and the loop glyph
/// on the first line while looping is active.
pub open spec fn spec_queue_line(index: nat, track: TrackView, looping_active: bool) -> Seq<char> {
    text::spec_digits(index) + ". ["@ + track.title + "]("@ + (match track.uri {
        Some(u) => u,
        None => "Unknown"@,
    }) + ")"@ + (if looping_active && index == 0 {
        " \u{1f501}"@
    } else {
        Seq::<char>::empty()
    })
}

/// The rendering loop from line `i` onward, with `acc` already rendered: a
/// line whose characters would push the buffer past the budget is replaced by
/// the truncation marker, and rendering stops there.
pub open spec fn spec_render_from(
    tracks: Seq<TrackView>,
    looping_active: bool,
    max_chars: nat,
    i: nat,
    acc: Seq<char>,
) -> Seq<char>
    decreases tracks.len() - i,
{
    if i >= tracks.len() {
        acc
    } else {
        let line = spec_queue_line(i, tracks[i as int], looping_active);
        if acc.len() + line.len() > max_chars {
            acc + spec_truncation_marker()
        } else {
            spec_render_from(tracks, looping_active, max_chars, i + 1, acc + line + "\n"@)
        }
    }
}

/// What the queue view renders for an ordered track list.
pub open spec fn spec_render_queue(
    tracks: Seq<TrackView>,
    looping_active: bool,
    max_chars: nat,
) -> Seq<char> {
    spec_render_from(tracks, looping_active, max_chars, 0, Seq::<char>::empty())
}

/// Renders one queue line.
fn render_line(index: usize, track: &Track, looping_active: bool) -> (r: String)
    ensures
        r@ == spec_queue_line(index as nat, track@, looping_active),
{
    proof {
        reveal_strlit(". [");
        reveal_strlit("](");
        reveal_strlit("Unknown");
        reveal_strlit(")");
        reveal_strlit(" \u{1f501}");
    }
    let mut line = String::new();
    text::push_digits(index as u64, &mut line);
    line.append(". [");
    line.append(track.title.as_str());
    line.append("](");
    match &track.uri {
        Some(u) => line.append(u.as_str()),
        None => line.append("Unknown"),
    }
    line.append(")");
    if looping_active && index == 0 {
        line.append(" \u{1f501}");
    }
    proof {
        assert(line@ =~= spec_queue_line(index as nat, track@, looping_active));
    }
    line
}

/// Renders the track list line by line until the character budget is spent;
/// a line that would not fit is replaced by the truncation marker and the
/// remaining tracks are not rendered.
#[verifier::loop_isolation(false)]
pub fn render_queue(tracks: &Vec<Track>, looping_active: bool, max_chars: usize) -> (r: String)
    ensures
        r@ == spec_render_queue(
            tracks@.map_values(|t: Track| t@),
            looping_active,
            max_chars as nat,
        ),
{
    proof {
        reveal_strlit(". . .\n");
        reveal_strlit("\n");
    }
    let ghost views = tracks@.map_values(|t: Track| t@);
    let mut out = String::new();
    let mut idx: usize = 0;
    let mut truncated = false;
    while idx < tracks.len() && !truncated
        invariant
            idx <= tracks@.len(),
            !truncated ==> spec_render_from(views, looping_active, max_chars as nat, idx as nat, out@)
                == spec_render_queue(views, looping_active, max_chars as nat),
            truncated ==> out@ == spec_render_queue(views, looping_active, max_chars as nat),
        decreases (tracks@.len() - idx) * 2 + (if truncated { 0int } else { 1int }),
    {
        let line = render_line(idx, &tracks[idx], looping_active);
        let line_chars = line.unicode_len();
        let out_chars = out.unicode_len();
        if line_chars > max_chars || out_chars > max_chars - line_chars {
            assert(out@.len() + line@.len() > max_chars);
            out.append(". . .\n");
            truncated = true;
        } else {
            let ghost before = out@;
            out.append(line.as_str());
            out.append("\n");
            proof {
                assert(out@ =~= before + line@ + "\n"@);
            }
            idx += 1;
        }
    }
    out
}

/// Decides the queue command: refused on an empty queue, otherwise a read-only
/// render of the queue under the description budget.
pub fn queue(tracks: &Vec<Track>, looping_active: bool) -> (r: Result<Response, FerrisError>)
    ensures
        tracks@.len() == 0 ==> r == Err::<Response, FerrisError>(FerrisError::QueueEmptyError),
        r is Ok <==> tracks@.len() > 0,
        r matches Ok(resp) ==> {
            &&& resp@.title == Some("Queue"@)
            &&& resp@.fields is None
            &&& resp@.description == Some(
                spec_render_queue(
                    tracks@.map_values(|t: Track| t@),
                    looping_active,
                    MAX_DESCRIPTION_SIZE as nat,
                ),
            )
        },
{
    if tracks.len() == 0 {
        return Err(FerrisError::QueueEmptyError);
    }
    let description = render_queue(tracks, looping_active, MAX_DESCRIPTION_SIZE);
    Ok(Response::new().title("Queue").description(description.as_str()))
}

/// Concatenation of the rendered lines `i .. k`, each with its newline.
pub open spec fn spec_slice_render(
    tracks: Seq<TrackView>,
    looping_active: bool,
    i: nat,
    k: nat,
) -> Seq<char>
    decreases k - i,
{
    if i >= k {
        Seq::<char>::empty()
    } else {
        spec_queue_line(i, tracks[i as int], looping_active) + "\n"@ + spec_slice_render(
            tracks,
            looping_active,
            i + 1,
            k,
        )
    }
}

/// Characters the lines from `i` onward need, newlines included.
pub open spec fn spec_total_len(tracks: Seq<TrackView>, looping_active: bool, i: nat) -> nat
    decreases tracks.len() - i,
{
    if i >= tracks.len() {
        0
    } else {
        spec_queue_line(i, tracks[i as int], looping_active).len() + 1 + spec_total_len(
            tracks,
            looping_active,
            i + 1,
        )
    }
}

proof fn lemma_render_all_from(
    tracks: Seq<TrackView>,
    looping_active: bool,
    max_chars: nat,
    i: nat,
    acc: Seq<char>,
)
    requires
        i <= tracks.len(),
        acc.len() + spec_total_len(tracks, looping_active, i) <= max_chars + 1,
    ensures
        spec_render_from(tracks, looping_active, max_chars, i, acc) == acc + spec_slice_render(
            tracks,
            looping_active,
            i,
            tracks.len() as nat,
        ),
    decreases tracks.len() - i,
{
    reveal_strlit("\n");
    if i >= tracks.len() {
        assert(acc + spec_slice_render(tracks, looping_active, i, tracks.len() as nat) =~= acc);
    } else {
        let line = spec_queue_line(i, tracks[i as int], looping_active);
        assert(acc.len() + line.len() <= max_chars);
        lemma_render_all_from(tracks, looping_active, max_chars, i + 1, acc + line + "\n"@);
        assert(acc + line + "\n"@ + spec_slice_render(tracks, looping_active, i + 1, tracks.len() as nat)
            =~= acc + spec_slice_render(tracks, looping_active, i, tracks.len() as nat));
    }
}

/// A track list whose lines all fit the budget (newlines included) is rendered
/// whole: every line appears, in the original order, and no marker is written.
pub proof fn lemma_queue_all_rendered(tracks: Seq<TrackView>, looping_active: bool, max_chars: nat)
    requires
        spec_total_len(tracks, looping_active, 0) <= max_chars + 1,
    ensures
        spec_render_queue(tracks, looping_active, max_chars) == spec_slice_render(
            tracks,
            looping_active,
            0,
            tracks.len() as nat,
        ),
{
    lemma_render_all_from(tracks, looping_active, max_chars, 0, Seq::<char>::empty());
    assert(Seq::<char>::empty() + spec_slice_render(tracks, looping_active, 0, tracks.len() as nat)
        =~= spec_slice_render(tracks, looping_active, 0, tracks.len() as nat));
}

proof fn lemma_render_truncated_from(
    tracks: Seq<TrackView>,
    looping_active: bool,
    max_chars: nat,
    i: nat,
    acc: Seq<char>,
)
    requires
        i <= tracks.len(),
        acc.len() <= max_chars + 1,
        acc.len() + spec_total_len(tracks, looping_active, i) > max_chars + 1,
    ensures
        exists|k: nat|
            i <= k < tracks.len() && spec_render_from(tracks, looping_active, max_chars, i, acc)
                == acc + #[trigger] spec_slice_render(tracks, looping_active, i, k)
                + spec_truncation_marker(),
    decreases tracks.len() - i,
{
    reveal_strlit("\n");
    let line = spec_queue_line(i, tracks[i as int], looping_active);
    if acc.len() + line.len() > max_chars {
        let k = i;
        assert(spec_slice_render(tracks, looping_active, i, k) =~= Seq::<char>::empty());
        assert(spec_render_from(tracks, looping_active, max_chars, i, acc) == acc
            + spec_slice_render(tracks, looping_active, i, k) + spec_truncation_marker()) by {
            assert(acc + Seq::<char>::empty() + spec_truncation_marker() =~= acc
                + spec_truncation_marker());
        }
    } else {
        let acc2 = acc + line + "\n"@;
        lemma_render_truncated_from(tracks, looping_active, max_chars, i + 1, acc2);
        let k = choose|k: nat|
            i + 1 <= k < tracks.len() && spec_render_from(
                tracks,
                looping_active,
                max_chars,
                (i + 1) as nat,
                acc2,
            ) == acc2 + #[trigger] spec_slice_render(tracks, looping_active, (i + 1) as nat, k)
                + spec_truncation_marker();
        assert(acc2 + spec_slice_render(tracks, looping_active, (i + 1) as nat, k)
            + spec_truncation_marker() =~= acc + spec_slice_render(tracks, looping_active, i, k)
            + spec_truncation_marker());
    }
}

/// A track list whose lines (newlines included) do not fit the budget is cut:
/// some strictly-proper prefix of the lines is rendered, in order, and the
/// truncation marker takes the place of the rest.
pub proof fn lemma_queue_truncated(tracks: Seq<TrackView>, looping_active: bool, max_chars: nat)
    requires
        spec_total_len(tracks, looping_active, 0) > max_chars + 1,
    ensures
        exists|k: nat|
            k < tracks.len() && spec_render_queue(tracks, looping_active, max_chars)
                == #[trigger] spec_slice_render(tracks, looping_active, 0, k)
                + spec_truncation_marker(),
{
    lemma_render_truncated_from(tracks, looping_active, max_chars, 0, Seq::<char>::empty());
    let k = choose|k: nat|
        k < tracks.len() && spec_render_from(tracks, looping_active, max_chars, 0, Seq::<char>::empty())
            == Seq::<char>::empty() + #[trigger] spec_slice_render(tracks, looping_active, 0, k)
            + spec_truncation_marker();
    assert(Seq::<char>::empty() + spec_slice_render(tracks, looping_active, 0, k)
        + spec_truncation_marker() =~= spec_slice_render(tracks, looping_active, 0, k)
        + spec_truncation_marker());
}

} // verus!
