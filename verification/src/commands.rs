use vstd::prelude::*;

use crate::Response;
use crate::ResponseView;
use crate::Track;
use crate::TrackView;

pub mod goto;
pub mod help;
pub mod join;
pub mod leave;
pub mod loop_track;
pub mod np;
pub mod play;
pub mod queue;
pub mod skip;
pub mod stop;

verus! {

/// One call against the voice transport or the streaming node that a command
/// plan instructs the runtime to make. Order within a plan matters.
#[derive(Debug)]
pub enum Action {
    /// Open the voice-transport connection to this channel.
    JoinVoice(u64),
    /// Create the remote player from the descriptor the voice join returned.
    CreatePlayer,
    /// Remove the guild's voice-transport connection.
    RemoveVoiceLink,
    /// Delete the guild's remote player.
    DeletePlayer,
    /// Push this track to the front of the remote queue.
    PushFront(Track),
    /// Append these tracks to the remote queue.
    Append(Vec<Track>),
    /// Skip the current track.
    Skip,
    /// Hard-stop the remote player.
    StopPlayer,
    /// Clear the remote queue.
    ClearQueue,
    /// Seek the current track to this position, in whole seconds.
    Seek(u64),
}

/// Mathematical model of an `Action`.
pub enum ActionView {
    JoinVoice(u64),
    CreatePlayer,
    RemoveVoiceLink,
    DeletePlayer,
    PushFront(TrackView),
    Append(Seq<TrackView>),
    Skip,
    StopPlayer,
    ClearQueue,
    Seek(u64),
}

impl View for Action {
    type V = ActionView;

    open spec fn view(&self) -> ActionView {
        match self {
            Action::JoinVoice(channel) => ActionView::JoinVoice(*channel),
            Action::CreatePlayer => ActionView::CreatePlayer,
            Action::RemoveVoiceLink => ActionView::RemoveVoiceLink,
            Action::DeletePlayer => ActionView::DeletePlayer,
            Action::PushFront(t) => ActionView::PushFront(t@),
            Action::Append(ts) => ActionView::Append(ts@.map_values(|t: Track| t@)),
            Action::Skip => ActionView::Skip,
            Action::StopPlayer => ActionView::StopPlayer,
            Action::ClearQueue => ActionView::ClearQueue,
            Action::Seek(s) => ActionView::Seek(*s),
        }
    }
}

/// What a command decided: the remote calls to make, in order, and the
/// response to show when all of them succeed.
#[derive(Debug)]
pub struct CommandPlan {
    pub actions: Vec<Action>,
    pub response: Response,
}

/// The models of a plan's actions, in order.
pub open spec fn plan_actions(p: CommandPlan) -> Seq<ActionView> {
    p.actions@.map_values(|a: Action| a@)
}

/// A response that has only a description set.
pub open spec fn spec_description_only(r: ResponseView, description: Seq<char>) -> bool {
    &&& r.title is None
    &&& r.fields is None
    &&& r.description == Some(description)
}

} // verus!
