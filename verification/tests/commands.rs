use dj_ferris::FerrisError;
use dj_ferris::LoopRegister;
use dj_ferris::Track;
use dj_ferris::commands::Action;
use dj_ferris::commands::goto::goto;
use dj_ferris::commands::join::join;
use dj_ferris::commands::leave::leave;
use dj_ferris::commands::loop_track::loop_track;
use dj_ferris::commands::np::now_playing;
use dj_ferris::commands::play::TrackLoad;
use dj_ferris::commands::play::build_query;
use dj_ferris::commands::play::join_or_reuse;
use dj_ferris::commands::play::play;
use dj_ferris::commands::skip::skip;
use dj_ferris::commands::stop::stop;

fn track(title: &str, uri: Option<&str>) -> Track {
    Track { title: title.to_string(), uri: uri.map(|u| u.to_string()), length: 300_000 }
}

#[test]
fn join_on_connected_guild_is_refused_without_remote_calls() {
    assert!(matches!(join(true, Some(42)), Err(FerrisError::AlreadyOnCallError)));
}

#[test]
fn join_needs_the_user_in_a_voice_channel() {
    assert!(matches!(join(false, None), Err(FerrisError::NotOnCallError)));
}

#[test]
fn join_connects_then_creates_the_player() {
    let plan = join(false, Some(42)).unwrap();
    assert_eq!(plan.actions.len(), 2);
    assert!(matches!(plan.actions[0], Action::JoinVoice(42)));
    assert!(matches!(plan.actions[1], Action::CreatePlayer));
    assert_eq!(plan.response.description.as_deref(), Some("Joined <#42>"));
    assert!(plan.response.title.is_none());
}

#[test]
fn leave_without_voice_link_is_refused_without_remote_calls() {
    assert!(matches!(leave(false), Err(FerrisError::NotOnCallError)));
}

#[test]
fn leave_removes_the_voice_link_before_the_player() {
    let plan = leave(true).unwrap();
    assert_eq!(plan.actions.len(), 2);
    assert!(matches!(plan.actions[0], Action::RemoveVoiceLink));
    assert!(matches!(plan.actions[1], Action::DeletePlayer));
    assert_eq!(plan.response.description.as_deref(), Some("Left voice channel"));
}

#[test]
fn stop_without_player_is_refused() {
    assert!(matches!(stop(false), Err(FerrisError::LavalinkError)));
}

#[test]
fn stop_hard_stops_then_clears_the_queue() {
    let plan = stop(true).unwrap();
    assert_eq!(plan.actions.len(), 2);
    assert!(matches!(plan.actions[0], Action::StopPlayer));
    assert!(matches!(plan.actions[1], Action::ClearQueue));
    assert_eq!(plan.response.description.as_deref(), Some("Queue cleared"));
}

#[test]
fn skip_on_last_track_also_hard_stops() {
    let mut register = LoopRegister::new();
    let current = track("Last", None);
    let plan = skip(true, Some(&current), 0, &mut register).unwrap();
    assert_eq!(plan.actions.len(), 2);
    assert!(matches!(plan.actions[0], Action::Skip));
    assert!(matches!(plan.actions[1], Action::StopPlayer));
    assert_eq!(plan.response.description.as_deref(), Some("Skipped Last"));
}

#[test]
fn skip_with_more_tracks_only_skips() {
    let mut register = LoopRegister::new();
    let current = track("Current", None);
    let plan = skip(true, Some(&current), 3, &mut register).unwrap();
    assert_eq!(plan.actions.len(), 1);
    assert!(matches!(plan.actions[0], Action::Skip));
}

#[test]
fn skip_cancels_an_active_loop() {
    let mut register = LoopRegister::new();
    let current = track("Looped", None);
    register.toggle(&current);
    assert!(register.snapshot().is_some());
    skip(true, Some(&current), 2, &mut register).unwrap();
    assert!(register.snapshot().is_none());
}

#[test]
fn skip_with_nothing_playing_is_refused_and_keeps_the_loop() {
    let mut register = LoopRegister::new();
    let current = track("Looped", None);
    register.toggle(&current);
    assert!(matches!(
        skip(true, None, 0, &mut register),
        Err(FerrisError::QueueEmptyError)
    ));
    assert!(register.snapshot().is_some());
}

#[test]
fn loop_toggle_starts_then_stops_looping() {
    let mut register = LoopRegister::new();
    let current = track("Song", None);

    let start = loop_track(true, Some(&current), &mut register).unwrap();
    assert_eq!(start.actions.len(), 1);
    assert!(matches!(&start.actions[0], Action::PushFront(t) if t.title == "Song"));
    assert_eq!(start.response.description.as_deref(), Some("Start looping Song"));
    assert!(register.snapshot().is_some());

    let stop_looping = loop_track(true, Some(&current), &mut register).unwrap();
    assert!(stop_looping.actions.is_empty());
    assert_eq!(stop_looping.response.description.as_deref(), Some("Stop looping Song"));
    assert!(register.snapshot().is_none());
}

#[test]
fn loop_register_toggle_twice_reports_true_then_false() {
    let mut register = LoopRegister::new();
    let current = track("Song", None);
    let (first, affected_first) = register.toggle(&current);
    assert!(first);
    assert_eq!(affected_first.title, "Song");
    let (second, affected_second) = register.toggle(&current);
    assert!(!second);
    assert_eq!(affected_second.title, "Song");
    assert!(register.snapshot().is_none());
}

#[test]
fn loop_without_current_track_is_refused() {
    let mut register = LoopRegister::new();
    assert!(matches!(
        loop_track(true, None, &mut register),
        Err(FerrisError::QueueEmptyError)
    ));
    assert!(matches!(
        loop_track(false, None, &mut register),
        Err(FerrisError::LavalinkError)
    ));
}

#[test]
fn goto_seeks_to_the_resolved_position() {
    let plan = goto(true, "2:05", None, true).unwrap();
    assert_eq!(plan.actions.len(), 1);
    assert!(matches!(plan.actions[0], Action::Seek(125)));
    assert_eq!(plan.response.description.as_deref(), Some("Go to 02:05"));
}

#[test]
fn goto_relative_needs_a_current_position() {
    assert!(matches!(goto(true, "+30", None, true), Err(FerrisError::PositionError)));
    let plan = goto(true, "+30", Some(90), true).unwrap();
    assert!(matches!(plan.actions[0], Action::Seek(120)));
}

#[test]
fn goto_without_player_or_playing_track_is_refused() {
    assert!(matches!(goto(false, "1:00", None, true), Err(FerrisError::LavalinkError)));
    assert!(matches!(goto(true, "1:00", None, false), Err(FerrisError::QueueEmptyError)));
}

#[test]
fn now_playing_shows_title_and_progress() {
    let current = track("Song", None);
    let response = now_playing(true, Some(&current), 150_000).unwrap();
    assert_eq!(response.title.as_deref(), Some("Now playing"));
    let description = response.description.unwrap();
    assert!(description.starts_with("Song\n ["));
    assert!(description.ends_with("\t02:30/05:00"));
}

#[test]
fn now_playing_without_track_is_refused() {
    assert!(matches!(now_playing(true, None, 0), Err(FerrisError::QueueEmptyError)));
    assert!(matches!(now_playing(false, None, 0), Err(FerrisError::LavalinkError)));
}

#[test]
fn build_query_passes_urls_through() {
    assert_eq!(build_query("https://example.com/v"), "https://example.com/v");
    assert_eq!(build_query("http://example.com/v"), "http://example.com/v");
}

#[test]
fn build_query_wraps_search_terms() {
    assert_eq!(build_query("never gonna give you up"), "ytsearch:never gonna give you up");
    assert_eq!(build_query(""), "ytsearch:");
}

#[test]
fn join_or_reuse_swallows_only_already_connected() {
    assert_eq!(join_or_reuse(None), Ok(()));
    assert_eq!(join_or_reuse(Some(FerrisError::AlreadyOnCallError)), Ok(()));
    assert_eq!(
        join_or_reuse(Some(FerrisError::NotOnCallError)),
        Err(FerrisError::NotOnCallError)
    );
}

#[test]
fn play_queues_a_single_track() {
    let plan = play(TrackLoad::Single(track("Song", Some("https://example.com/s")))).unwrap();
    assert_eq!(plan.actions.len(), 1);
    assert!(matches!(&plan.actions[0], Action::Append(ts) if ts.len() == 1 && ts[0].title == "Song"));
    assert_eq!(
        plan.response.description.as_deref(),
        Some("Added [Song](https://example.com/s) to queue")
    );
}

#[test]
fn play_queues_only_the_first_search_result() {
    let results = vec![track("First", None), track("Second", None)];
    let plan = play(TrackLoad::Search(results)).unwrap();
    assert!(matches!(&plan.actions[0], Action::Append(ts) if ts.len() == 1 && ts[0].title == "First"));
    assert_eq!(plan.response.description.as_deref(), Some("Added First to queue"));
}

#[test]
fn play_queues_a_playlist_whole_and_names_it() {
    let tracks = vec![track("A", None), track("B", None), track("C", None)];
    let plan = play(TrackLoad::Playlist("Mix".to_string(), tracks)).unwrap();
    assert!(matches!(&plan.actions[0], Action::Append(ts) if ts.len() == 3 && ts[2].title == "C"));
    assert_eq!(plan.response.description.as_deref(), Some("Added Mix to queue"));
}

#[test]
fn play_fails_when_nothing_was_found() {
    assert!(matches!(play(TrackLoad::NotFound), Err(FerrisError::TrackNotFoundError)));
    assert!(matches!(
        play(TrackLoad::Search(Vec::new())),
        Err(FerrisError::TrackNotFoundError)
    ));
}
