use vstd::prelude::*;

use crate::FerrisError;
use crate::LoopRegister;
use crate::Response;
use crate::Track;
use crate::commands::Action;
use crate::commands::ActionView;
use crate::commands::CommandPlan;
use crate::commands::plan_actions;
use crate::commands::spec_description_only;

verus! {

/// Decides the skip command. Without a remote player or a current track the
/// command is refused and the looping slot is untouched. Otherwise skipping
/// cancels an active loop, issues the skip, and — when the skipped track was
/// the last one — also hard-stops the player, so an empty post-skip queue does
/// not leave the player in an undefined state.
pub fn skip(
    player_present: bool,
    current_track: Option<&Track>,
    upcoming_count: u64,
    register: &mut LoopRegister,
) -> (r: Result<CommandPlan, FerrisError>)
    ensures
        !player_present ==> r == Err::<CommandPlan, FerrisError>(FerrisError::LavalinkError)
            && final(register)@ == old(register)@,
        player_present && current_track is None ==> r == Err::<CommandPlan, FerrisError>(
            FerrisError::QueueEmptyError,
        ) && final(register)@ == old(register)@,
        r is Ok <==> player_present && current_track is Some,
        r matches Ok(p) ==> current_track matches Some(track) && {
            &&& final(register)@ is None
            &&& plan_actions(p) == if upcoming_count == 0 {
                seq![ActionView::Skip, ActionView::StopPlayer]
            } else {
                seq![ActionView::Skip]
            }
            &&& spec_description_only(p.response@, "Skipped "@ + track@.title)
        },
{
    if !player_present {
        return Err(FerrisError::LavalinkError);
    }
    let track = match current_track {
        Some(track) => track,
        None => {
            return Err(FerrisError::QueueEmptyError);
        },
    };
    register.clear();
    let actions = if upcoming_count == 0 {
        vec![Action::Skip, Action::StopPlayer]
    } else {
        vec![Action::Skip]
    };
    let mut description = String::new();
    proof {
        reveal_strlit("Skipped ");
    }
    description.append("Skipped ");
    description.append(track.title.as_str());
    let plan = CommandPlan {
        actions,
        response: Response::new().description(description.as_str()),
    };
    proof {
        if upcoming_count == 0 {
            assert(plan_actions(plan) =~= seq![ActionView::Skip, ActionView::StopPlayer]);
        } else {
            assert(plan_actions(plan) =~= seq![ActionView::Skip]);
        }
    }
    Ok(plan)
}

} // verus!
