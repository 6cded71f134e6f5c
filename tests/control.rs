use mediaplayer::control::{
    ControlCommand, PlaybackTask, PlayerState, TaskEvent, TaskRole, TaskState,
};

#[test]
fn player_starts_playing() {
    assert!(PlayerState::new().is_playing());
}

#[test]
fn toggling_twice_pauses_then_resumes() {
    let mut p = PlayerState::new();
    let mut reported = Vec::new();
    let first = p.toggle_pause_playing();
    reported.push(p.is_playing());
    let second = p.toggle_pause_playing();
    reported.push(p.is_playing());
    assert_eq!(first, ControlCommand::Pause);
    assert_eq!(second, ControlCommand::Play);
    assert_eq!(reported, vec![false, true]);
}

#[test]
fn paused_worker_polls_nothing_until_play() {
    let mut t = PlaybackTask::new(TaskRole::Worker);
    assert!(t.polls_inner());
    t.on_event(TaskEvent::Control(ControlCommand::Pause));
    assert!(!t.polls_inner());
    for e in [
        TaskEvent::Control(ControlCommand::Pause),
        TaskEvent::InnerFinished,
        TaskEvent::Control(ControlCommand::Pause),
    ] {
        t.on_event(e);
        assert!(!t.polls_inner());
        assert_eq!(t.state(), TaskState::Paused);
    }
    t.on_event(TaskEvent::Control(ControlCommand::Play));
    assert!(t.polls_inner());
}

#[test]
fn control_closed_terminates_every_task() {
    for role in [TaskRole::Worker, TaskRole::Demuxer] {
        let mut playing = PlaybackTask::new(role);
        playing.on_event(TaskEvent::ControlClosed);
        assert!(playing.is_terminated());
        let mut paused = PlaybackTask::new(role);
        paused.on_event(TaskEvent::Control(ControlCommand::Pause));
        paused.on_event(TaskEvent::ControlClosed);
        assert!(paused.is_terminated());
        paused.on_event(TaskEvent::Control(ControlCommand::Play));
        assert!(paused.is_terminated());
        assert!(!paused.polls_inner());
    }
}

#[test]
fn worker_ends_when_its_packets_end() {
    let mut t = PlaybackTask::new(TaskRole::Worker);
    t.on_event(TaskEvent::InnerFinished);
    assert!(t.is_terminated());
}

#[test]
fn demuxer_stays_for_control_after_the_input_ends() {
    let mut t = PlaybackTask::new(TaskRole::Demuxer);
    t.on_event(TaskEvent::InnerFinished);
    assert_eq!(t.state(), TaskState::Ended);
    assert!(!t.polls_inner());
    assert_eq!(
        t.on_event(TaskEvent::Control(ControlCommand::Pause)),
        Some(ControlCommand::Pause)
    );
    assert_eq!(t.state(), TaskState::Ended);
    t.on_event(TaskEvent::ControlClosed);
    assert!(t.is_terminated());
}

#[test]
fn demuxer_forwards_commands_and_workers_do_not() {
    let mut d = PlaybackTask::new(TaskRole::Demuxer);
    assert_eq!(d.on_event(TaskEvent::Control(ControlCommand::Pause)), Some(ControlCommand::Pause));
    assert_eq!(d.on_event(TaskEvent::Control(ControlCommand::Play)), Some(ControlCommand::Play));
    assert_eq!(d.on_event(TaskEvent::ControlClosed), None);
    assert_eq!(d.on_event(TaskEvent::Control(ControlCommand::Play)), None);
    let mut w = PlaybackTask::new(TaskRole::Worker);
    assert_eq!(w.on_event(TaskEvent::Control(ControlCommand::Pause)), None);
}
