use movie_bot::errors::{CoreError, Fault};
use movie_bot::playback::{
    movie_track_title, seek_outcome, show_track_title, volume_reply, PlaybackSession,
    SeekDecision, SessionTable, VolumeDecision,
};

#[test]
fn titles_are_synthesized() {
    assert_eq!(
        show_track_title("Breaking Bad", 2, 13, "tt0903747"),
        "Breaking Bad S2E13 (tt0903747)"
    );
    assert_eq!(movie_track_title("Inception", "tt1375666"), "Inception (tt1375666)");
}

#[test]
fn second_begin_replaces_the_first() {
    let mut session = PlaybackSession::new();
    assert_eq!(session.current_title(), None);
    assert_eq!(session.begin("A".to_string()), None);
    assert_eq!(session.begin("B".to_string()), Some("A".to_string()));
    assert_eq!(session.current_title(), Some("B".to_string()));
    assert!(session.is_playing());
    session.track_ended();
    assert_eq!(session.current_title(), None);
    assert!(!session.is_playing());
}

#[test]
fn stop_clears_the_title() {
    let mut session = PlaybackSession::new();
    assert_eq!(session.stop(), None);
    session.begin("A".to_string());
    assert_eq!(session.stop(), Some("A".to_string()));
    assert_eq!(session.current_title(), None);
    assert_eq!(session.now_playing(), "Nothing is currently playing.");
}

#[test]
fn now_playing_names_the_track() {
    let mut session = PlaybackSession::new();
    session.begin("Inception (tt1375666)".to_string());
    assert_eq!(session.now_playing(), "Currently playing: Inception (tt1375666)");
}

#[test]
fn volume_out_of_range_is_refused_and_changes_nothing() {
    let mut session = PlaybackSession::new();
    session.begin("A".to_string());
    assert_eq!(session.set_volume(150), Err(CoreError::Validation(Fault::VolumeRange)));
    assert_eq!(session.set_volume(-1), Err(CoreError::Validation(Fault::VolumeRange)));
    assert_eq!(session.set_volume(101), Err(CoreError::Validation(Fault::VolumeRange)));
    assert_eq!(session.current_title(), Some("A".to_string()));
    let idle = PlaybackSession::new();
    assert_eq!(idle.set_volume(150), Err(CoreError::Validation(Fault::VolumeRange)));
    assert_eq!(idle.set_volume(-1), Err(CoreError::Validation(Fault::VolumeRange)));
    assert_eq!(idle.current_title(), None);
}

#[test]
fn volume_with_nothing_playing_is_no_error() {
    let idle = PlaybackSession::new();
    assert_eq!(idle.set_volume(50), Ok(VolumeDecision::NothingPlaying));
    assert_eq!(volume_reply(idle.set_volume(50)), "Nothing is playing.");
}

#[test]
fn volume_in_range_is_applied() {
    let mut session = PlaybackSession::new();
    session.begin("A".to_string());
    assert_eq!(session.set_volume(0), Ok(VolumeDecision::Apply { percent: 0 }));
    assert_eq!(session.set_volume(50), Ok(VolumeDecision::Apply { percent: 50 }));
    assert_eq!(session.set_volume(100), Ok(VolumeDecision::Apply { percent: 100 }));
    assert_eq!(volume_reply(session.set_volume(50)), "Volume set to 50%.");
    assert_eq!(volume_reply(session.set_volume(150)), "Volume must be between 0 and 100.");
}

#[test]
fn seek_needs_a_track_and_a_seekable_stream() {
    let mut session = PlaybackSession::new();
    assert_eq!(session.seek_seconds(60), SeekDecision::NothingPlaying);
    session.begin("A".to_string());
    assert_eq!(session.seek_seconds(60), SeekDecision::Seek { seconds: 60 });
    assert_eq!(seek_outcome(true), Ok(()));
    assert_eq!(seek_outcome(false), Err(CoreError::Unsupported));
    assert_eq!(
        CoreError::Unsupported.message(),
        "Failed to skip. The stream might not be seekable."
    );
}

#[test]
fn contexts_do_not_touch_each_other() {
    let mut table = SessionTable::new();
    table.begin(1, "A".to_string());
    table.begin(1, "B".to_string());
    table.begin(2, "C".to_string());
    assert_eq!(table.current_title(1), Some("B".to_string()));
    assert_eq!(table.current_title(2), Some("C".to_string()));
    table.track_ended(1);
    assert_eq!(table.current_title(1), None);
    assert_eq!(table.current_title(2), Some("C".to_string()));
    table.stop(2);
    assert_eq!(table.current_title(2), None);
    table.track_ended(3);
    assert_eq!(table.current_title(3), None);
}

#[test]
fn every_failure_has_a_message() {
    assert_eq!(
        CoreError::Provider { status: Some(503) }.message(),
        "Something went wrong. Please try again later."
    );
    assert_eq!(CoreError::Provider { status: None }.message(), "Something went wrong. Please try again later.");
    assert_eq!(CoreError::NotFound.message(), "Nothing was found.");
    assert_eq!(CoreError::Timeout.message(), "No selection in time.");
    assert_eq!(
        CoreError::Validation(Fault::ExternalId).message(),
        "Invalid IMDB ID format. It should start with 'tt'."
    );
    assert_eq!(
        CoreError::Validation(Fault::VolumeRange).message(),
        "Volume must be between 0 and 100."
    );
    assert_eq!(
        CoreError::Validation(Fault::VolumeText).message(),
        "Invalid volume percentage. Please use a number (0-100)."
    );
    assert_eq!(
        CoreError::Validation(Fault::SeekText).message(),
        "Invalid time. Please provide seconds (e.g., `m!skip 60`)."
    );
    assert_eq!(CoreError::Validation(Fault::Choice).message(), "Invalid selection.");
    assert_eq!(
        CoreError::Validation(Fault::EmptyQuery).message(),
        "Please enter a search query."
    );
}

#[test]
fn status_outside_the_two_hundreds_is_a_provider_error() {
    assert_eq!(CoreError::check_status(200), Ok(()));
    assert_eq!(CoreError::check_status(204), Ok(()));
    assert_eq!(
        CoreError::check_status(404),
        Err(CoreError::Provider { status: Some(404) })
    );
    assert_eq!(
        CoreError::check_status(500),
        Err(CoreError::Provider { status: Some(500) })
    );
    assert_eq!(
        CoreError::check_status(199),
        Err(CoreError::Provider { status: Some(199) })
    );
}
