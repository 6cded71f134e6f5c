use vstd::prelude::*;

verus! {

/// A command sent to the playback tasks.
#[derive(Clone, Copy, Debug, PartialEq, Eq, Structural)]
pub enum ControlCommand {
    Play,
    Pause,
}

/// What a playback task does when its packet loop finishes: a decode
/// worker ends, the demuxer waits for control until it is shut down.
#[derive(Clone, Copy, Debug, PartialEq, Eq, Structural)]
pub enum TaskRole {
    Worker,
    Demuxer,
}

/// Where a playback task stands. Only a `Playing` task polls its packet
/// loop; a `Paused` one leaves it parked where it last stopped.
#[derive(Clone, Copy, Debug, PartialEq, Eq, Structural)]
pub enum TaskState {
    Playing,
    Paused,
    /// The demuxer's packet loop has read the whole input.
    Ended,
    Terminated,
}

/// What a playback task can observe when it waits.
#[derive(Clone, Copy, Debug, PartialEq, Eq, Structural)]
pub enum TaskEvent {
    /// A command came in on the control channel.
    Control(ControlCommand),
    /// The control channel was closed.
    ControlClosed,
    /// The packet loop finished: its packet source is closed or exhausted.
    InnerFinished,
}

/// The state a task moves to on an event.
pub open spec fn next_state(s: TaskState, e: TaskEvent, role: TaskRole) -> TaskState {
    match (s, e) {
        (TaskState::Terminated, _) => TaskState::Terminated,
        (_, TaskEvent::ControlClosed) => TaskState::Terminated,
        (TaskState::Ended, _) => TaskState::Ended,
        (_, TaskEvent::Control(ControlCommand::Play)) => TaskState::Playing,
        (_, TaskEvent::Control(ControlCommand::Pause)) => TaskState::Paused,
        (TaskState::Playing, TaskEvent::InnerFinished) => match role {
            TaskRole::Worker => TaskState::Terminated,
            TaskRole::Demuxer => TaskState::Ended,
        },
        (_, TaskEvent::InnerFinished) => s,
    }
}

/// The command the demuxer passes on to the decode workers.
pub open spec fn forwarded(s: TaskState, e: TaskEvent, role: TaskRole) -> Option<ControlCommand> {
    match (role, s, e) {
        (TaskRole::Demuxer, TaskState::Terminated, _) => None,
        (TaskRole::Demuxer, _, TaskEvent::Control(c)) => Some(c),
        _ => None,
    }
}

/// The state reached from `s` through `events` in turn.
pub open spec fn run_events(s: TaskState, events: Seq<TaskEvent>, role: TaskRole) -> TaskState
    decreases events.len(),
{
    if events.len() == 0 {
        s
    } else {
        run_events(next_state(s, events[0], role), events.drop_first(), role)
    }
}

/// The control loop of one playback task.
pub struct PlaybackTask {
    role: TaskRole,
    state: TaskState,
}

impl View for PlaybackTask {
    type V = (TaskRole, TaskState);

    closed spec fn view(&self) -> (TaskRole, TaskState) {
        (self.role, self.state)
    }
}

impl PlaybackTask {
    /// A task starts out playing.
    pub fn new(role: TaskRole) -> (r: PlaybackTask)
        ensures
            r@ == (role, TaskState::Playing),
    {
        PlaybackTask { role, state: TaskState::Playing }
    }

    pub fn state(&self) -> (r: TaskState)
        ensures
            r == self@.1,
    {
        self.state
    }

    /// Whether the packet loop is to be polled while waiting.
    pub fn polls_inner(&self) -> (r: bool)
        ensures
            r == (self@.1 == TaskState::Playing),
    {
        self.state == TaskState::Playing
    }

    pub fn is_terminated(&self) -> (r: bool)
        ensures
            r == (self@.1 == TaskState::Terminated),
    {
        self.state == TaskState::Terminated
    }

    /// Moves to the next state on `event`, and says which command, if any,
    /// is to be passed on to the decode workers.
    pub fn on_event(&mut self, event: TaskEvent) -> (r: Option<ControlCommand>)
        ensures
            final(self)@ == (old(self)@.0, next_state(old(self)@.1, event, old(self)@.0)),
            r == forwarded(old(self)@.1, event, old(self)@.0),
    {
        let forward = match (self.role, self.state, event) {
            (TaskRole::Demuxer, TaskState::Terminated, _) => None,
            (TaskRole::Demuxer, _, TaskEvent::Control(c)) => Some(c),
            _ => None,
        };
        self.state = match (self.state, event) {
            (TaskState::Terminated, _) => TaskState::Terminated,
            (_, TaskEvent::ControlClosed) => TaskState::Terminated,
            (TaskState::Ended, _) => TaskState::Ended,
            (_, TaskEvent::Control(ControlCommand::Play)) => TaskState::Playing,
            (_, TaskEvent::Control(ControlCommand::Pause)) => TaskState::Paused,
            (TaskState::Playing, TaskEvent::InnerFinished) => match self.role {
                TaskRole::Worker => TaskState::Terminated,
                TaskRole::Demuxer => TaskState::Ended,
            },
            (s, TaskEvent::InnerFinished) => s,
        };
        forward
    }
}

/// After a task has taken a Pause, it does not poll its packet loop again
/// (so submits nothing to its decoder, runs no scaler or resampler and
/// calls no frame callback) until a Play comes: whatever other events
/// follow, it is not playing after any prefix of them.
pub proof fn lemma_pause_quiescence(s: TaskState, role: TaskRole, events: Seq<TaskEvent>)
    requires
        forall|i: int| 0 <= i < events.len() ==> events[i] != TaskEvent::Control(
            ControlCommand::Play,
        ),
    ensures
        forall|j: int|
            0 <= j <= events.len() ==> run_events(
                next_state(s, TaskEvent::Control(ControlCommand::Pause), role),
                events.take(j),
                role,
            ) != TaskState::Playing,
{
    let paused = next_state(s, TaskEvent::Control(ControlCommand::Pause), role);
    assert forall|j: int| 0 <= j <= events.len() implies run_events(
        paused,
        events.take(j),
        role,
    ) != TaskState::Playing by {
        lemma_no_play_keeps_still(paused, role, events.take(j));
    }
}

proof fn lemma_no_play_keeps_still(s: TaskState, role: TaskRole, events: Seq<TaskEvent>)
    requires
        s != TaskState::Playing,
        forall|i: int| 0 <= i < events.len() ==> events[i] != TaskEvent::Control(
            ControlCommand::Play,
        ),
    ensures
        run_events(s, events, role) != TaskState::Playing,
    decreases events.len(),
{
    if events.len() > 0 {
        let rest = events.drop_first();
        assert forall|i: int| 0 <= i < rest.len() implies rest[i] != TaskEvent::Control(
            ControlCommand::Play,
        ) by {
            assert(rest[i] == events[i + 1]);
        }
        lemma_no_play_keeps_still(next_state(s, events[0], role), role, rest);
    }
}

/// The play/pause state of a player, as its user toggles it.
pub struct PlayerState {
    playing: bool,
}

impl View for PlayerState {
    type V = bool;

    closed spec fn view(&self) -> bool {
        self.playing
    }
}

impl PlayerState {
    /// A player starts out playing.
    pub fn new() -> (r: PlayerState)
        ensures
            r@,
    {
        PlayerState { playing: true }
    }

    pub fn is_playing(&self) -> (r: bool)
        ensures
            r == self@,
    {
        self.playing
    }

    /// Flips between playing and paused, and gives the command that tells
    /// the playback tasks so.
    pub fn toggle_pause_playing(&mut self) -> (r: ControlCommand)
        ensures
            final(self)@ == !old(self)@,
            r == if old(self)@ {
                ControlCommand::Pause
            } else {
                ControlCommand::Play
            },
    {
        if self.playing {
            self.playing = false;
            ControlCommand::Pause
        } else {
            self.playing = true;
            ControlCommand::Play
        }
    }
}

} // verus!
