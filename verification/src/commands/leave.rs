use vstd::prelude::*;

use crate::FerrisError;
use crate::Response;
use crate::commands::Action;
use crate::commands::ActionView;
use crate::commands::CommandPlan;
use crate::commands::plan_actions;
use crate::commands::spec_description_only;

verus! {

/// Decides the leave command. A guild without a voice link is refused before
/// any remote call. Otherwise the voice link is removed first and the remote
/// player deleted second, so the streaming node never streams into a closed
/// transport.
pub fn leave(voice_link_present: bool) -> (r: Result<CommandPlan, FerrisError>)
    ensures
        !voice_link_present ==> r == Err::<CommandPlan, FerrisError>(FerrisError::NotOnCallError),
        r is Ok <==> voice_link_present,
        r matches Ok(p) ==> {
            &&& plan_actions(p) == seq![ActionView::RemoveVoiceLink, ActionView::DeletePlayer]
            &&& spec_description_only(p.response@, "Left voice channel"@)
        },
{
    if !voice_link_present {
        return Err(FerrisError::NotOnCallError);
    }
    let plan = CommandPlan {
        actions: vec![Action::RemoveVoiceLink, Action::DeletePlayer],
        response: Response::new().description("Left voice channel"),
    };
    proof {
        assert(plan_actions(plan) =~= seq![
            ActionView::RemoveVoiceLink,
            ActionView::DeletePlayer,
        ]);
    }
    Ok(plan)
}

} // verus!
