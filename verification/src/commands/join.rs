use vstd::prelude::*;

use crate::FerrisError;
use crate::Response;
use crate::commands::Action;
use crate::commands::ActionView;
use crate::commands::CommandPlan;
use crate::commands::plan_actions;
use crate::commands::spec_description_only;
use crate::text;

verus! {

/// The response text after joining a channel: the channel mention follows the verb.
pub open spec fn spec_join_description(channel: u64) -> Seq<char> {
    "Joined <#"@ + text::spec_digits(channel as nat) + ">"@
}

/// Decides the join command. A guild that already holds a voice link is
/// refused before any remote call; a user outside any voice channel cannot be
/// joined. Otherwise the plan opens the voice connection to the user's channel
/// and then creates the remote player from the descriptor that join returned —
/// in that order, since the player needs the connection descriptor.
pub fn join(voice_link_present: bool, user_voice_channel: Option<u64>) -> (r: Result<
    CommandPlan,
    FerrisError,
>)
    ensures
        user_voice_channel is None ==> r == Err::<CommandPlan, FerrisError>(
            FerrisError::NotOnCallError,
        ),
        user_voice_channel is Some && voice_link_present ==> r == Err::<CommandPlan, FerrisError>(
            FerrisError::AlreadyOnCallError,
        ),
        r is Ok <==> user_voice_channel is Some && !voice_link_present,
        r matches Ok(p) ==> user_voice_channel matches Some(channel) && {
            &&& plan_actions(p) == seq![
                ActionView::JoinVoice(channel),
                ActionView::CreatePlayer,
            ]
            &&& spec_description_only(p.response@, spec_join_description(channel))
        },
{
    let channel = match user_voice_channel {
        Some(c) => c,
        None => {
            return Err(FerrisError::NotOnCallError);
        },
    };
    if voice_link_present {
        return Err(FerrisError::AlreadyOnCallError);
    }
    let mut description = String::new();
    proof {
        reveal_strlit("Joined <#");
        reveal_strlit(">");
    }
    description.append("Joined <#");
    text::push_digits(channel, &mut description);
    description.append(">");
    proof {
        assert(description@ =~= spec_join_description(channel));
    }
    let plan = CommandPlan {
        actions: vec![Action::JoinVoice(channel), Action::CreatePlayer],
        response: Response::new().description(description.as_str()),
    };
    proof {
        assert(plan_actions(plan) =~= seq![
            ActionView::JoinVoice(channel),
            ActionView::CreatePlayer,
        ]);
    }
    Ok(plan)
}

} // verus!
