use dj_ferris::FerrisError;
use dj_ferris::LoopRegister;
use dj_ferris::Track;
use dj_ferris::commands::Action;
use dj_ferris::commands::help::help;
use dj_ferris::events::CommandKind;
use dj_ferris::events::Handler;
use dj_ferris::events::track_start;
use dj_ferris::truncate_description;
use dj_ferris::MAX_DESCRIPTION_SIZE;
use dj_ferris::Response;

fn track(title: &str) -> Track {
    Track { title: title.to_string(), uri: None, length: 200_000 }
}

#[test]
fn dispatch_maps_every_command_name() {
    let handler = Handler;
    assert_eq!(handler.dispatch("help"), CommandKind::Help);
    assert_eq!(handler.dispatch("join"), CommandKind::Join);
    assert_eq!(handler.dispatch("play"), CommandKind::Play);
    assert_eq!(handler.dispatch("leave"), CommandKind::Leave);
    assert_eq!(handler.dispatch("stop"), CommandKind::Stop);
    assert_eq!(handler.dispatch("loop"), CommandKind::Loop);
    assert_eq!(handler.dispatch("queue"), CommandKind::Queue);
    assert_eq!(handler.dispatch("skip"), CommandKind::Skip);
    assert_eq!(handler.dispatch("np"), CommandKind::NowPlaying);
    assert_eq!(handler.dispatch("goto"), CommandKind::Goto);
    assert_eq!(handler.dispatch("dance"), CommandKind::Unknown);
    assert_eq!(handler.dispatch(""), CommandKind::Unknown);
}

#[test]
fn error_response_names_each_recognized_kind() {
    let handler = Handler;
    let cases = [
        (FerrisError::LavalinkError, "Something went wrong with Lavalink"),
        (FerrisError::TrackNotFoundError, "Track could not be found"),
        (FerrisError::QueueEmptyError, "Nothing is in queue"),
        (FerrisError::PositionError, "Could not parse position"),
        (FerrisError::AlreadyOnCallError, "Already on a voice channel"),
        (FerrisError::NotOnCallError, "Not on a voice channel"),
        (FerrisError::GuildError, "Could not get guild information"),
        (FerrisError::MissingArguments, "Missing arguments"),
    ];
    for (error, message) in cases {
        let response = handler.error_response(Some(error));
        assert_eq!(response.title.as_deref(), Some("Error"));
        assert_eq!(response.description.as_deref(), Some(message));
    }
}

#[test]
fn error_response_hides_unrecognized_detail() {
    let handler = Handler;
    let response = handler.error_response(None);
    assert_eq!(response.title.as_deref(), Some("Error"));
    assert_eq!(response.description.as_deref(), Some("Something went wrong"));
}

#[test]
fn voice_state_update_ignores_other_members() {
    let handler = Handler;
    assert!(handler.voice_state_update(false, Some(7), true).is_none());
    assert!(handler.voice_state_update(true, None, true).is_none());
}

#[test]
fn voice_state_update_tears_down_link_then_player() {
    let handler = Handler;
    let actions = handler.voice_state_update(true, Some(7), true).unwrap();
    assert_eq!(actions.len(), 2);
    assert!(matches!(actions[0], Action::RemoveVoiceLink));
    assert!(matches!(actions[1], Action::DeletePlayer));
}

#[test]
fn voice_state_update_still_deletes_an_orphaned_player() {
    let handler = Handler;
    let actions = handler.voice_state_update(true, Some(7), false).unwrap();
    assert_eq!(actions.len(), 1);
    assert!(matches!(actions[0], Action::DeletePlayer));
}

#[test]
fn track_start_requeues_the_looping_track() {
    let mut register = LoopRegister::new();
    let current = track("Looped");
    register.toggle(&current);
    let requeued = track_start(&register, true).unwrap();
    assert_eq!(requeued.title, "Looped");
}

#[test]
fn track_start_without_loop_or_player_does_nothing() {
    let register = LoopRegister::new();
    assert!(track_start(&register, true).is_none());
    let mut looping = LoopRegister::new();
    looping.toggle(&track("Looped"));
    assert!(track_start(&looping, false).is_none());
}

#[test]
fn help_lists_every_command() {
    let response = help();
    assert_eq!(response.title.as_deref(), Some("Help"));
    assert_eq!(response.description.as_deref(), Some("Below is a list of commands"));
    let fields = response.fields.unwrap();
    assert_eq!(fields.len(), 12);
    assert_eq!(fields[0].0, "/join");
    assert_eq!(fields[9].0, "/goto {M:S}");
    assert_eq!(fields[11].0, "Version:");
}

#[test]
fn short_description_is_kept_whole() {
    assert_eq!(truncate_description("hello"), "hello");
}

#[test]
fn long_description_is_cut_to_the_budget() {
    let long = "x".repeat(MAX_DESCRIPTION_SIZE + 100);
    let cut = truncate_description(&long);
    assert_eq!(cut.chars().count(), MAX_DESCRIPTION_SIZE + 1);
    let exact = "y".repeat(MAX_DESCRIPTION_SIZE + 1);
    assert_eq!(truncate_description(&exact), exact);
}

#[test]
fn response_builder_sets_each_part() {
    let response = Response::new()
        .title("Title text")
        .description("Description text")
        .fields(vec![("Field title".to_string(), "Field value".to_string(), false)]);
    assert_eq!(response.title.as_deref(), Some("Title text"));
    assert_eq!(response.description.as_deref(), Some("Description text"));
    assert_eq!(response.fields.unwrap()[0].1, "Field value");

    let empty = Response::default();
    assert!(empty.title.is_none() && empty.fields.is_none() && empty.description.is_none());
}
