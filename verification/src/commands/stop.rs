use vstd::prelude::*;

use crate::FerrisError;
use crate::Response;
use crate::commands::Action;
use crate::commands::ActionView;
use crate::commands::CommandPlan;
use crate::commands::plan_actions;
use crate::commands::spec_description_only;

verus! {

/// Decides the stop command. Without a remote player there is nothing to stop.
/// Otherwise the player is hard-stopped and the remote queue cleared; the
/// looping slot is deliberately left alone, as skipping — not stopping — is
/// what cancels a loop.
pub fn stop(player_present: bool) -> (r: Result<CommandPlan, FerrisError>)
    ensures
        !player_present ==> r == Err::<CommandPlan, FerrisError>(FerrisError::LavalinkError),
        r is Ok <==> player_present,
        r matches Ok(p) ==> {
            &&& plan_actions(p) == seq![ActionView::StopPlayer, ActionView::ClearQueue]
            &&& spec_description_only(p.response@, "Queue cleared"@)
        },
{
    if !player_present {
        return Err(FerrisError::LavalinkError);
    }
    let plan = CommandPlan {
        actions: vec![Action::StopPlayer, Action::ClearQueue],
        response: Response::new().description("Queue cleared"),
    };
    proof {
        assert(plan_actions(plan) =~= seq![ActionView::StopPlayer, ActionView::ClearQueue]);
    }
    Ok(plan)
}

} // verus!
