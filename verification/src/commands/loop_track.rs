use vstd::prelude::*;

use crate::FerrisError;
use crate::LoopRegister;
use crate::Response;
use crate::Track;
use crate::commands::Action;
use crate::commands::ActionView;
use crate::commands::CommandPlan;
use crate::commands::plan_actions;
use crate::commands::spec_description_only;
use crate::spec_toggle;

verus! {

/// Decides the loop command. Without a remote player or a current track the
/// command is refused and the looping slot is untouched. Otherwise the slot is
/// toggled: starting a loop also pushes a copy of the current track to the
/// front of the remote queue, so it re-plays next even when more tracks are
/// queued; stopping a loop needs no remote call.
pub fn loop_track(
    player_present: bool,
    current_track: Option<&Track>,
    register: &mut LoopRegister,
) -> (r: Result<CommandPlan, FerrisError>)
    ensures
        !player_present ==> r == Err::<CommandPlan, FerrisError>(FerrisError::LavalinkError)
            && final(register)@ == old(register)@,
        player_present && current_track is None ==> r == Err::<CommandPlan, FerrisError>(
            FerrisError::QueueEmptyError,
        ) && final(register)@ == old(register)@,
        r is Ok <==> player_present && current_track is Some,
        r matches Ok(p) ==> current_track matches Some(track) && {
            let (now_looping, slot) = spec_toggle(old(register)@, track@);
            &&& final(register)@ == slot
            &&& now_looping ==> plan_actions(p) == seq![ActionView::PushFront(track@)]
                && spec_description_only(p.response@, "Start looping "@ + track@.title)
            &&& !now_looping ==> plan_actions(p) == Seq::<ActionView>::empty()
                && spec_description_only(p.response@, "Stop looping "@ + track@.title)
        },
{
    if !player_present {
        return Err(FerrisError::LavalinkError);
    }
    let track = match current_track {
        Some(track) => track,
        None => {
            return Err(FerrisError::QueueEmptyError);
        },
    };
    let (now_looping, affected) = register.toggle(track);
    proof {
        reveal_strlit("Start looping ");
        reveal_strlit("Stop looping ");
    }
    let mut description = String::new();
    let actions: Vec<Action>;
    if now_looping {
        description.append("Start looping ");
        actions = vec![Action::PushFront(affected)];
    } else {
        description.append("Stop looping ");
        actions = vec![];
    }
    description.append(track.title.as_str());
    let plan = CommandPlan {
        actions,
        response: Response::new().description(description.as_str()),
    };
    proof {
        if now_looping {
            assert(plan_actions(plan) =~= seq![ActionView::PushFront(track@)]);
        } else {
            assert(plan_actions(plan) =~= Seq::<ActionView>::empty());
        }
    }
    Ok(plan)
}

} // verus!
