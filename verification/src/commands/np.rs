use vstd::prelude::*;

use crate::FerrisError;
use crate::Response;
use crate::Track;
use crate::get_progress;
use crate::spec_progress;

verus! {

/// The now-playing text: the title, a line break, and the progress bar over
/// the position and length taken down from milliseconds to whole seconds.
pub open spec fn spec_now_playing_description(track: crate::TrackView, position_ms: u64) -> Seq<
    char,
> {
    track.title + "\n "@ + spec_progress(position_ms / 1000, track.length / 1000)
}

/// Decides the now-playing command: a read-only render of the current track
/// and its progress. Refused without a remote player or with nothing playing.
pub fn now_playing(player_present: bool, current_track: Option<&Track>, position_ms: u64) -> (r:
    Result<Response, FerrisError>)
    ensures
        !player_present ==> r == Err::<Response, FerrisError>(FerrisError::LavalinkError),
        player_present && current_track is None ==> r == Err::<Response, FerrisError>(
            FerrisError::QueueEmptyError,
        ),
        r is Ok <==> player_present && current_track is Some,
        r matches Ok(resp) ==> current_track matches Some(track) && {
            &&& resp@.title == Some("Now playing"@)
            &&& resp@.fields is None
            &&& resp@.description == Some(spec_now_playing_description(track@, position_ms))
        },
{
    if !player_present {
        return Err(FerrisError::LavalinkError);
    }
    let track = match current_track {
        Some(track) => track,
        None => {
            return Err(FerrisError::QueueEmptyError);
        },
    };
    let mut description = String::new();
    proof {
        reveal_strlit("\n ");
    }
    description.append(track.title.as_str());
    description.append("\n ");
    let progress = get_progress(position_ms / 1000, track.length / 1000);
    description.append(progress.as_str());
    proof {
        assert(description@ =~= spec_now_playing_description(track@, position_ms));
    }
    Ok(Response::new().title("Now playing").description(description.as_str()))
}

} // verus!
