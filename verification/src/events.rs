use vstd::prelude::*;

use crate::FerrisError;
use crate::LoopRegister;
use crate::Response;
use crate::Track;
use crate::commands::Action;
use crate::commands::ActionView;
use crate::spec_message;
use crate::text;

verus! {

/// Which handler a slash-command name selects.
#[derive(Clone, Copy, Debug, PartialEq, Eq, Structural)]
pub enum CommandKind {
    Help,
    Join,
    Play,
    Leave,
    Stop,
    Loop,
    Queue,
    Skip,
    NowPlaying,
    Goto,
    Unknown,
}

/// The handler each command name dispatches to; any other name is unknown.
pub open spec fn spec_dispatch(name: Seq<char>) -> CommandKind {
    if name == "help"@ {
        CommandKind::Help
    } else if name == "join"@ {
        CommandKind::Join
    } else if name == "play"@ {
        CommandKind::Play
    } else if name == "leave"@ {
        CommandKind::Leave
    } else if name == "stop"@ {
        CommandKind::Stop
    } else if name == "loop"@ {
        CommandKind::Loop
    } else if name == "queue"@ {
        CommandKind::Queue
    } else if name == "skip"@ {
        CommandKind::Skip
    } else if name == "np"@ {
        CommandKind::NowPlaying
    } else if name == "goto"@ {
        CommandKind::Goto
    } else {
        CommandKind::Unknown
    }
}

/// A slash command as it is registered with the chat gateway: a name, a short
/// description, and at most one required string option.
#[derive(Debug)]
pub struct SlashCommand {
    pub name: String,
    pub description: String,
    pub option: Option<(String, String)>,
}

/// Mathematical model of a `SlashCommand`.
pub struct SlashCommandView {
    pub name: Seq<char>,
    pub description: Seq<char>,
    pub option: Option<(Seq<char>, Seq<char>)>,
}

impl View for SlashCommand {
    type V = SlashCommandView;

    open spec fn view(&self) -> SlashCommandView {
        SlashCommandView {
            name: self.name@,
            description: self.description@,
            option: match self.option {
                Some(o) => Some((o.0@, o.1@)),
                None => None,
            },
        }
    }
}

/// The full command surface, in registration order.
pub open spec fn spec_global_commands() -> Seq<SlashCommandView> {
    seq![
        SlashCommandView { name: "join"@, description: "Joins current channel"@, option: None },
        SlashCommandView { name: "leave"@, description: "Leaves current channel"@, option: None },
        SlashCommandView {
            name: "play"@,
            description: "Queues a track"@,
            option: Some(("url"@, "url of the track or a search query"@)),
        },
        SlashCommandView {
            name: "goto"@,
            description: "Goes to specific point in track"@,
            option: Some(("position"@, "position in M:S format"@)),
        },
        SlashCommandView {
            name: "stop"@,
            description: "Stops current track and clears queue"@,
            option: None,
        },
        SlashCommandView { name: "queue"@, description: "Displays current queue"@, option: None },
        SlashCommandView { name: "skip"@, description: "Skips current song"@, option: None },
        SlashCommandView { name: "help"@, description: "Displays help"@, option: None },
        SlashCommandView { name: "loop"@, description: "Loops current track"@, option: None },
        SlashCommandView {
            name: "np"@,
            description: "Displays info on currently playing track"@,
            option: None,
        },
    ]
}

/// Receives gateway events and decides what the runtime must do with each;
/// the network calls themselves happen outside.
pub struct Handler;

impl Handler {
    /// Selects the handler for a slash-command name.
    pub fn dispatch(&self, name: &str) -> (r: CommandKind)
        ensures
            r == spec_dispatch(name@),
    {
        if text::str_eq(name, "help") {
            CommandKind::Help
        } else if text::str_eq(name, "join") {
            CommandKind::Join
        } else if text::str_eq(name, "play") {
            CommandKind::Play
        } else if text::str_eq(name, "leave") {
            CommandKind::Leave
        } else if text::str_eq(name, "stop") {
            CommandKind::Stop
        } else if text::str_eq(name, "loop") {
            CommandKind::Loop
        } else if text::str_eq(name, "queue") {
            CommandKind::Queue
        } else if text::str_eq(name, "skip") {
            CommandKind::Skip
        } else if text::str_eq(name, "np") {
            CommandKind::NowPlaying
        } else if text::str_eq(name, "goto") {
            CommandKind::Goto
        } else {
            CommandKind::Unknown
        }
    }

    /// The error response shown for a failed command: a recognized kind gets
    /// its own sentence, anything else a generic one that hides the detail.
    pub fn error_response(&self, error: Option<FerrisError>) -> (r: Response)
        ensures
            r@.title == Some("Error"@),
            r@.fields is None,
            r@.description == Some(
                match error {
                    Some(e) => spec_message(e),
                    None => "Something went wrong"@,
                },
            ),
    {
        let description = match error {
            Some(e) => e.message(),
            None => "Something went wrong",
        };
        Response::new().title("Error").description(description)
    }

    /// Reconciles an externally observed voice-channel disconnect. Only the
    /// bot's own departure from a tracked guild matters; then a still-present
    /// voice link is removed before the remote player is deleted, exactly as
    /// on leave, and the player is deleted in any case.
    pub fn voice_state_update(
        &self,
        member_is_bot: bool,
        old_voice_guild: Option<u64>,
        voice_link_present: bool,
    ) -> (r: Option<Vec<Action>>)
        ensures
            r is Some <==> member_is_bot && old_voice_guild is Some,
            r matches Some(actions) ==> actions@.map_values(|a: Action| a@)
                == if voice_link_present {
                    seq![ActionView::RemoveVoiceLink, ActionView::DeletePlayer]
                } else {
                    seq![ActionView::DeletePlayer]
                },
    {
        if !member_is_bot {
            return None;
        }
        if old_voice_guild.is_none() {
            return None;
        }
        let actions = if voice_link_present {
            vec![Action::RemoveVoiceLink, Action::DeletePlayer]
        } else {
            vec![Action::DeletePlayer]
        };
        proof {
            if voice_link_present {
                assert(actions@.map_values(|a: Action| a@) =~= seq![
                    ActionView::RemoveVoiceLink,
                    ActionView::DeletePlayer,
                ]);
            } else {
                assert(actions@.map_values(|a: Action| a@) =~= seq![ActionView::DeletePlayer]);
            }
        }
        Some(actions)
    }

    /// The command surface registered with the chat gateway when the session
    /// becomes ready.
    pub fn global_commands(&self) -> (r: Vec<SlashCommand>)
        ensures
            r@.map_values(|c: SlashCommand| c@) == spec_global_commands(),
    {
        let commands: Vec<SlashCommand> = vec![
            SlashCommand {
                name: "join".to_owned(),
                description: "Joins current channel".to_owned(),
                option: None,
            },
            SlashCommand {
                name: "leave".to_owned(),
                description: "Leaves current channel".to_owned(),
                option: None,
            },
            SlashCommand {
                name: "play".to_owned(),
                description: "Queues a track".to_owned(),
                option: Some((
                    "url".to_owned(),
                    "url of the track or a search query".to_owned(),
                )),
            },
            SlashCommand {
                name: "goto".to_owned(),
                description: "Goes to specific point in track".to_owned(),
                option: Some(("position".to_owned(), "position in M:S format".to_owned())),
            },
            SlashCommand {
                name: "stop".to_owned(),
                description: "Stops current track and clears queue".to_owned(),
                option: None,
            },
            SlashCommand {
                name: "queue".to_owned(),
                description: "Displays current queue".to_owned(),
                option: None,
            },
            SlashCommand {
                name: "skip".to_owned(),
                description: "Skips current song".to_owned(),
                option: None,
            },
            SlashCommand {
                name: "help".to_owned(),
                description: "Displays help".to_owned(),
                option: None,
            },
            SlashCommand {
                name: "loop".to_owned(),
                description: "Loops current track".to_owned(),
                option: None,
            },
            SlashCommand {
                name: "np".to_owned(),
                description: "Displays info on currently playing track".to_owned(),
                option: None,
            },
        ];
        proof {
            assert(commands@.map_values(|c: SlashCommand| c@) =~= spec_global_commands());
        }
        commands
    }
}

/// Decides the track-start event: while a track is registered as looping and
/// the guild still has a player, a copy of that track is pushed to the front
/// of the remote queue again, which is what makes looping survive natural
/// track completion.
pub fn track_start(register: &LoopRegister, player_present: bool) -> (r: Option<Track>)
    ensures
        r is Some <==> player_present && register@ is Some,
        r matches Some(t) ==> Some(t@) == register@,
{
    if player_present {
        register.snapshot()
    } else {
        None
    }
}

} // verus!
