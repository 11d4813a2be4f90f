use vstd::prelude::*;

use crate::FerrisError;
use crate::Response;
use crate::commands::Action;
use crate::commands::ActionView;
use crate::commands::CommandPlan;
use crate::commands::plan_actions;
use crate::commands::spec_description_only;
use crate::spec_parse_offset_position;
use crate::spec_parse_position;
use crate::parse_offset_position;
use crate::parse_position;
use crate::text;

verus! {

/// Whether the argument asks for a relative jump: it starts with a sign.
pub open spec fn spec_is_relative(s: Seq<char>) -> bool {
    s.len() > 0 && (s[0] == '+' || s[0] == '-')
}

/// An offset with no colon is whole seconds; with a colon it is minutes and
/// seconds like an absolute position.
pub open spec fn spec_parse_offset_arg(s: Seq<char>) -> u64 {
    if text::spec_find_colon(s, 0) == s.len() {
        text::spec_parse_field(s)
    } else {
        spec_parse_position(s)
    }
}

/// What position a goto argument resolves to. A relative argument needs the
/// current position and fails without one; an absolute argument never fails.
pub open spec fn spec_goto_position(s: Seq<char>, current: Option<u64>) -> Result<u64, FerrisError> {
    if spec_is_relative(s) {
        match current {
            None => Err(FerrisError::PositionError),
            Some(c) => Ok(spec_parse_offset_position(c, s[0], spec_parse_offset_arg(s.skip(1)))),
        }
    } else {
        Ok(spec_parse_position(s))
    }
}

/// Resolves the goto argument into an absolute position in seconds: a leading
/// `+` or `-` applies a saturating offset to the current position, anything
/// else is read as an absolute `M:S` position.
pub fn get_goto_position(position_arg: &str, current_position: Option<u64>) -> (r: Result<
    u64,
    FerrisError,
>)
    ensures
        r == spec_goto_position(position_arg@, current_position),
{
    let len = position_arg.unicode_len();
    if len > 0 {
        let sign = position_arg.get_char(0);
        if sign == '+' || sign == '-' {
            let current = match current_position {
                Some(c) => c,
                None => {
                    return Err(FerrisError::PositionError);
                },
            };
            let rest = position_arg.substring_char(1, len);
            proof {
                assert(rest@ =~= position_arg@.skip(1));
            }
            let offset = if text::find_colon(rest, 0) == rest.unicode_len() {
                text::parse_field(rest)
            } else {
                parse_position(rest)
            };
            return Ok(parse_offset_position(current, sign, offset));
        }
    }
    Ok(parse_position(position_arg))
}

/// The response text for a successful jump, as zero-padded `MM:SS`.
pub open spec fn spec_goto_description(position: u64) -> Seq<char> {
    "Go to "@ + text::spec_pad2((position / 60) as nat) + ":"@ + text::spec_pad2(
        (position % 60) as nat,
    )
}

/// Decides the goto command. Without a remote player the command is refused;
/// a relative argument without a readable current position cannot be resolved;
/// with nothing playing there is nothing to seek in. Otherwise the plan seeks
/// the current track to the resolved position.
pub fn goto(
    player_present: bool,
    position_arg: &str,
    current_position: Option<u64>,
    currently_playing: bool,
) -> (r: Result<CommandPlan, FerrisError>)
    ensures
        !player_present ==> r == Err::<CommandPlan, FerrisError>(FerrisError::LavalinkError),
        player_present && spec_goto_position(position_arg@, current_position) is Err ==> r == Err::<
            CommandPlan,
            FerrisError,
        >(FerrisError::PositionError),
        player_present && spec_goto_position(position_arg@, current_position) is Ok
            && !currently_playing ==> r == Err::<CommandPlan, FerrisError>(
            FerrisError::QueueEmptyError,
        ),
        r is Ok <==> player_present && spec_goto_position(position_arg@, current_position) is Ok
            && currently_playing,
        r matches Ok(p) ==> spec_goto_position(position_arg@, current_position) matches Ok(position)
            && {
            &&& plan_actions(p) == seq![ActionView::Seek(position)]
            &&& spec_description_only(p.response@, spec_goto_description(position))
        },
{
    if !player_present {
        return Err(FerrisError::LavalinkError);
    }
    let position = match get_goto_position(position_arg, current_position) {
        Ok(position) => position,
        Err(_) => {
            return Err(FerrisError::PositionError);
        },
    };
    if !currently_playing {
        return Err(FerrisError::QueueEmptyError);
    }
    let mut description = String::new();
    proof {
        reveal_strlit("Go to ");
        reveal_strlit(":");
    }
    description.append("Go to ");
    text::push_pad2(position / 60, &mut description);
    description.append(":");
    text::push_pad2(position % 60, &mut description);
    proof {
        assert(description@ =~= spec_goto_description(position));
    }
    let plan = CommandPlan {
        actions: vec![Action::Seek(position)],
        response: Response::new().description(description.as_str()),
    };
    proof {
        assert(plan_actions(plan) =~= seq![ActionView::Seek(position)]);
    }
    Ok(plan)
}

} // verus!
