//! The alarm state machine: motion edge detection, command handling,
//! timeouts, siren output and the durable projection of the state.
//!
//! Time is a monotonic millisecond counter handed in by the caller; the
//! configured timeouts are whole seconds.
use crate::ha_types::HAEntity;
use vstd::prelude::*;

verus! {

/// The live security state. The payload of the timed states is the moment
/// (in milliseconds) at which the state was entered.
#[derive(Debug, Clone, Copy, PartialEq, Eq, Structural)]
pub enum AlarmState {
    Disarmed,
    Arming(u64),
    Armed(u64),
    Pending(u64),
    Triggered,
}

/// The part of the security state that survives a restart.
#[derive(Debug, Clone, Copy, PartialEq, Eq, Structural)]
pub enum PersistedAlarmState {
    Disarmed,
    Armed,
    Triggered,
}

/// Configurable behaviour of the alarm; timeouts are in seconds.
#[derive(Debug, Clone, Copy, PartialEq, Eq, Structural)]
pub struct AlarmSettings {
    pub initial_state: PersistedAlarmState,
    pub arming_timeout: u16,
    pub pending_timeout: u16,
}

/// Commands accepted by the state machine, at most one per tick.
#[derive(Debug, Clone, Copy, PartialEq, Eq, Structural)]
pub enum AlarmCommand {
    Arm,
    ArmInstantly,
    Disarm,
    ManualTrigger,
    Untrigger,
    UpdateSettings(AlarmSettings),
}

/// A change of the input level of one motion sensor, by its index.
#[derive(Debug, Clone, Copy, PartialEq, Eq, Structural)]
pub struct MotionEdge {
    pub entity: usize,
    pub detected: bool,
}

pub open spec fn spec_default_settings() -> AlarmSettings {
    AlarmSettings { initial_state: PersistedAlarmState::Disarmed, arming_timeout: 90, pending_timeout: 30 }
}

/// Seconds between `Arm` and `Armed` unless configured otherwise.
pub fn default_arming_timeout() -> (r: u16)
    ensures
        r == 90,
{
    90
}

/// Seconds between motion and `Triggered` unless configured otherwise.
pub fn default_pending_timeout() -> (r: u16)
    ensures
        r == 30,
{
    30
}

/// State a fresh installation starts in unless configured otherwise.
pub fn default_alarm_state() -> (r: PersistedAlarmState)
    ensures
        r == PersistedAlarmState::Disarmed,
{
    PersistedAlarmState::Disarmed
}

impl Default for AlarmSettings {
    fn default() -> (r: AlarmSettings)
        ensures
            r == spec_default_settings(),
    {
        AlarmSettings {
            initial_state: default_alarm_state(),
            arming_timeout: default_arming_timeout(),
            pending_timeout: default_pending_timeout(),
        }
    }
}

/// Milliseconds since `start`; a clock reading before `start` counts as none.
pub open spec fn elapsed_ms(start: u64, now: u64) -> int {
    if now >= start {
        now - start
    } else {
        0
    }
}

pub open spec fn timed_out(start: u64, now: u64, timeout_secs: u16) -> bool {
    elapsed_ms(start, now) >= timeout_secs * 1000
}

/// The transition table's command rows.
pub open spec fn after_command(state: AlarmState, command: AlarmCommand, now: u64) -> AlarmState {
    match command {
        AlarmCommand::Arm => if state is Disarmed {
            AlarmState::Arming(now)
        } else {
            state
        },
        AlarmCommand::ArmInstantly => if state is Disarmed {
            AlarmState::Armed(now)
        } else {
            state
        },
        AlarmCommand::Disarm => AlarmState::Disarmed,
        AlarmCommand::ManualTrigger => if state is Armed {
            AlarmState::Triggered
        } else {
            state
        },
        AlarmCommand::Untrigger => if state is Pending || state is Triggered {
            AlarmState::Armed(now)
        } else {
            state
        },
        AlarmCommand::UpdateSettings(_) => state,
    }
}

pub open spec fn settings_after(settings: AlarmSettings, command: Option<AlarmCommand>) -> AlarmSettings {
    match command {
        Some(AlarmCommand::UpdateSettings(s)) => s,
        _ => settings,
    }
}

/// The transition table's timeout and motion rows.
pub open spec fn after_guard(state: AlarmState, settings: AlarmSettings, motion: bool, now: u64) -> AlarmState {
    match state {
        AlarmState::Arming(start) => if timed_out(start, now, settings.arming_timeout) {
            AlarmState::Armed(now)
        } else {
            state
        },
        AlarmState::Armed(_) => if motion {
            AlarmState::Pending(now)
        } else {
            state
        },
        AlarmState::Pending(start) => if timed_out(start, now, settings.pending_timeout) {
            AlarmState::Triggered
        } else {
            state
        },
        _ => state,
    }
}

/// One tick: the command (if any) first, then the guards under the settings
/// that hold after the command.
pub open spec fn next_state(
    state: AlarmState,
    settings: AlarmSettings,
    motion: bool,
    command: Option<AlarmCommand>,
    now: u64,
) -> AlarmState {
    let commanded = match command {
        Some(c) => after_command(state, c, now),
        None => state,
    };
    after_guard(commanded, settings_after(settings, command), motion, now)
}

/// Transient states collapse onto their stable neighbour.
pub open spec fn persisted_of(state: AlarmState) -> PersistedAlarmState {
    match state {
        AlarmState::Disarmed => PersistedAlarmState::Disarmed,
        AlarmState::Arming(_) | AlarmState::Armed(_) => PersistedAlarmState::Armed,
        AlarmState::Pending(_) | AlarmState::Triggered => PersistedAlarmState::Triggered,
    }
}

pub open spec fn restored(p: PersistedAlarmState, now: u64) -> AlarmState {
    match p {
        PersistedAlarmState::Disarmed => AlarmState::Disarmed,
        PersistedAlarmState::Armed => AlarmState::Armed(now),
        PersistedAlarmState::Triggered => AlarmState::Triggered,
    }
}

/// The settings used after startup: the stored ones, else the defaults.
pub open spec fn startup_settings<E>(loaded: Result<Option<AlarmSettings>, E>) -> AlarmSettings {
    match loaded {
        Ok(Some(s)) => s,
        _ => spec_default_settings(),
    }
}

/// The state recovered at startup: the stored one, else the configured
/// initial state, and `Disarmed` when the store could not be read.
pub open spec fn startup_state<E>(
    settings: AlarmSettings,
    persisted: Result<Option<PersistedAlarmState>, E>,
    now: u64,
) -> AlarmState {
    match persisted {
        Ok(Some(p)) => restored(p, now),
        Ok(None) => restored(settings.initial_state, now),
        Err(_) => AlarmState::Disarmed,
    }
}

/// The level changes among the first `n` sensors, in sensor order.
pub open spec fn edges_upto(prev: Seq<bool>, cur: Seq<bool>, n: nat) -> Seq<MotionEdge>
    decreases n,
{
    if n == 0 {
        Seq::empty()
    } else {
        let i = (n - 1) as nat;
        let before = edges_upto(prev, cur, i);
        if prev[i as int] != cur[i as int] {
            before.push(MotionEdge { entity: i as usize, detected: cur[i as int] })
        } else {
            before
        }
    }
}

pub open spec fn motion_edges(prev: Seq<bool>, cur: Seq<bool>) -> Seq<MotionEdge> {
    edges_upto(prev, cur, cur.len())
}

/// Whether some sensor went from inactive to active.
pub open spec fn any_rising(prev: Seq<bool>, cur: Seq<bool>) -> bool {
    exists|i: int| 0 <= i < cur.len() && !prev[i] && #[trigger] cur[i]
}

pub fn timeout_elapsed(start: u64, now: u64, timeout_secs: u16) -> (r: bool)
    ensures
        r == timed_out(start, now, timeout_secs),
{
    let limit: u64 = timeout_secs as u64 * 1000;
    if now >= start {
        now - start >= limit
    } else {
        limit == 0
    }
}

pub fn apply_command(state: AlarmState, command: AlarmCommand, now: u64) -> (r: AlarmState)
    ensures
        r == after_command(state, command, now),
{
    match command {
        AlarmCommand::Arm => if let AlarmState::Disarmed = state {
            AlarmState::Arming(now)
        } else {
            state
        },
        AlarmCommand::ArmInstantly => if let AlarmState::Disarmed = state {
            AlarmState::Armed(now)
        } else {
            state
        },
        AlarmCommand::Disarm => AlarmState::Disarmed,
        AlarmCommand::ManualTrigger => if let AlarmState::Armed(_) = state {
            AlarmState::Triggered
        } else {
            state
        },
        AlarmCommand::Untrigger => match state {
            AlarmState::Pending(_) | AlarmState::Triggered => AlarmState::Armed(now),
            _ => state,
        },
        AlarmCommand::UpdateSettings(_) => state,
    }
}

pub fn apply_guard(state: AlarmState, settings: &AlarmSettings, motion: bool, now: u64) -> (r: AlarmState)
    ensures
        r == after_guard(state, *settings, motion, now),
{
    match state {
        AlarmState::Arming(start) => if timeout_elapsed(start, now, settings.arming_timeout) {
            AlarmState::Armed(now)
        } else {
            state
        },
        AlarmState::Armed(_) => if motion {
            AlarmState::Pending(now)
        } else {
            state
        },
        AlarmState::Pending(start) => if timeout_elapsed(start, now, settings.pending_timeout) {
            AlarmState::Triggered
        } else {
            state
        },
        _ => state,
    }
}

impl AlarmState {
    /// The durable projection of this state.
    pub fn persisted(&self) -> (r: PersistedAlarmState)
        ensures
            r == persisted_of(*self),
    {
        match self {
            AlarmState::Disarmed => PersistedAlarmState::Disarmed,
            AlarmState::Arming(_) | AlarmState::Armed(_) => PersistedAlarmState::Armed,
            AlarmState::Pending(_) | AlarmState::Triggered => PersistedAlarmState::Triggered,
        }
    }

    /// The live state resumed from a durable one; `Armed` restarts its clock at `now`.
    pub fn from_persisted(p: PersistedAlarmState, now: u64) -> (r: AlarmState)
        ensures
            r == restored(p, now),
    {
        match p {
            PersistedAlarmState::Disarmed => AlarmState::Disarmed,
            PersistedAlarmState::Armed => AlarmState::Armed(now),
            PersistedAlarmState::Triggered => AlarmState::Triggered,
        }
    }
}

/// Outward events, consumed by the network side.
#[derive(Debug)]
pub enum AlarmEvent {
    MotionDetected(HAEntity),
    MotionCleared(HAEntity),
    AlarmStateChanged((HAEntity, AlarmState)),
}

/// The motion events for `edges`, one per edge and in the same order, each
/// naming the sensor entity at the edge's index.
pub fn motion_events(entities: &Vec<HAEntity>, edges: &Vec<MotionEdge>) -> (r: Vec<AlarmEvent>)
    requires
        forall|i: int| 0 <= i < edges@.len() ==> #[trigger] edges@[i].entity < entities@.len(),
    ensures
        r@.len() == edges@.len(),
        forall|i: int|
            0 <= i < edges@.len() ==> (#[trigger] r@[i] is MotionDetected) == edges@[i].detected,
        forall|i: int|
            0 <= i < edges@.len() ==> (#[trigger] r@[i] is MotionDetected) || r@[i] is MotionCleared,
{
    let mut events: Vec<AlarmEvent> = Vec::new();
    let mut i: usize = 0;
    while i < edges.len()
        invariant
            i <= edges@.len(),
            events@.len() == i,
            forall|k: int| 0 <= k < edges@.len() ==> #[trigger] edges@[k].entity < entities@.len(),
            forall|k: int| 0 <= k < i ==> (#[trigger] events@[k] is MotionDetected) == edges@[k].detected,
            forall|k: int| 0 <= k < i ==> (#[trigger] events@[k] is MotionDetected) || events@[k] is MotionCleared,
        decreases edges@.len() - i,
    {
        let edge = edges[i];
        let entity = entities[edge.entity].clone();
        if edge.detected {
            events.push(AlarmEvent::MotionDetected(entity));
        } else {
            events.push(AlarmEvent::MotionCleared(entity));
        }
        i = i + 1;
    }
    events
}

/// What one tick asks of its caller, in this order: emit `edges` as motion
/// events, drive the siren, persist `new_settings` if present, and when
/// `changed` holds a projection persist it and emit the new state.
#[derive(Debug)]
pub struct TickOutput {
    pub edges: Vec<MotionEdge>,
    pub siren_on: bool,
    pub new_settings: Option<AlarmSettings>,
    pub changed: Option<PersistedAlarmState>,
}

/// The alarm state machine with the last observed level of each motion sensor.
#[derive(Debug)]
pub struct AlarmController {
    state: AlarmState,
    settings: AlarmSettings,
    levels: Vec<bool>,
}

impl AlarmController {
    pub closed spec fn spec_state(&self) -> AlarmState {
        self.state
    }

    pub closed spec fn spec_settings(&self) -> AlarmSettings {
        self.settings
    }

    pub closed spec fn spec_levels(&self) -> Seq<bool> {
        self.levels@
    }

    /// Startup recovery from what the settings store returned: the stored
    /// settings (defaults when absent or unreadable), and the stored state,
    /// else the configured initial state, else `Disarmed` when the stored
    /// state could not be read. All sensors start inactive.
    pub fn start<E>(
        loaded_settings: Result<Option<AlarmSettings>, E>,
        persisted: Result<Option<PersistedAlarmState>, E>,
        sensor_count: usize,
        now: u64,
    ) -> (r: AlarmController)
        ensures
            r.spec_settings() == startup_settings(loaded_settings),
            r.spec_state() == startup_state(startup_settings(loaded_settings), persisted, now),
            r.spec_levels() == Seq::new(sensor_count as nat, |i: int| false),
    {
        let settings = match loaded_settings {
            Ok(Some(s)) => s,
            _ => AlarmSettings::default(),
        };
        let state = match persisted {
            Ok(Some(p)) => AlarmState::from_persisted(p, now),
            Ok(None) => AlarmState::from_persisted(settings.initial_state, now),
            Err(_) => AlarmState::Disarmed,
        };
        let mut levels: Vec<bool> = Vec::new();
        let mut i: usize = 0;
        while i < sensor_count
            invariant
                i <= sensor_count,
                levels@ == Seq::new(i as nat, |j: int| false),
            decreases sensor_count - i,
        {
            levels.push(false);
            i = i + 1;
        }
        assert(levels@ =~= Seq::new(sensor_count as nat, |j: int| false));
        AlarmController { state, settings, levels }
    }

    pub fn state(&self) -> (r: AlarmState)
        ensures
            r == self.spec_state(),
    {
        self.state
    }

    pub fn settings(&self) -> (r: AlarmSettings)
        ensures
            r == self.spec_settings(),
    {
        self.settings
    }

    /// Whether the siren is to sound in the current state.
    pub fn siren_on(&self) -> (r: bool)
        ensures
            r == (self.spec_state() is Triggered),
    {
        if let AlarmState::Triggered = self.state {
            true
        } else {
            false
        }
    }

    /// Compares each sensor's new level with the last one, records it, and
    /// reports the changes in sensor order and whether any sensor rose.
    pub fn sample_motion(&mut self, levels: &Vec<bool>) -> (r: (Vec<MotionEdge>, bool))
        requires
            levels@.len() == old(self).spec_levels().len(),
        ensures
            r.0@ == motion_edges(old(self).spec_levels(), levels@),
            r.1 == any_rising(old(self).spec_levels(), levels@),
            final(self).spec_levels() == levels@,
            final(self).spec_state() == old(self).spec_state(),
            final(self).spec_settings() == old(self).spec_settings(),
    {
        let ghost prev = self.levels@;
        let mut edges: Vec<MotionEdge> = Vec::new();
        let mut rising = false;
        let mut i: usize = 0;
        while i < levels.len()
            invariant
                levels@.len() == prev.len(),
                self.levels@.len() == prev.len(),
                i <= levels@.len(),
                forall|j: int| 0 <= j < i ==> self.levels@[j] == levels@[j],
                forall|j: int| i <= j < prev.len() ==> self.levels@[j] == prev[j],
                edges@ == edges_upto(prev, levels@, i as nat),
                rising == exists|j: int| 0 <= j < i && !prev[j] && #[trigger] levels@[j],
                self.state == old(self).state,
                self.settings == old(self).settings,
            decreases levels@.len() - i,
        {
            let level = levels[i];
            if self.levels[i] != level {
                edges.push(MotionEdge { entity: i, detected: level });
                if level {
                    rising = true;
                }
                self.levels.set(i, level);
            }
            i = i + 1;
        }
        assert(self.levels@ =~= levels@);
        (edges, rising)
    }

    /// One period of the polling loop: motion first, then at most one
    /// command, then the timeout and motion guards under the settings in
    /// force after the command.
    pub fn tick(&mut self, levels: &Vec<bool>, command: Option<AlarmCommand>, now: u64) -> (out: TickOutput)
        requires
            levels@.len() == old(self).spec_levels().len(),
        ensures
            final(self).spec_levels() == levels@,
            out.edges@ == motion_edges(old(self).spec_levels(), levels@),
            final(self).spec_settings() == settings_after(old(self).spec_settings(), command),
            final(self).spec_state() == next_state(
                old(self).spec_state(),
                old(self).spec_settings(),
                any_rising(old(self).spec_levels(), levels@),
                command,
                now,
            ),
            out.siren_on == (final(self).spec_state() is Triggered),
            out.new_settings == match command {
                Some(AlarmCommand::UpdateSettings(s)) => Some(s),
                _ => None,
            },
            out.changed == if final(self).spec_state() != old(self).spec_state() {
                Some(persisted_of(final(self).spec_state()))
            } else {
                None
            },
    {
        let (edges, motion) = self.sample_motion(levels);
        let entry_state = self.state;
        let mut new_settings: Option<AlarmSettings> = None;
        let mut state = entry_state;
        if let Some(c) = command {
            state = apply_command(state, c, now);
            if let AlarmCommand::UpdateSettings(s) = c {
                self.settings = s;
                new_settings = Some(s);
            }
        }
        state = apply_guard(state, &self.settings, motion, now);
        self.state = state;
        let changed = if state != entry_state {
            Some(state.persisted())
        } else {
            None
        };
        TickOutput { edges, siren_on: self.siren_on(), new_settings, changed }
    }
}

/// Arming completes: `Arm` from `Disarmed`, then a tick at least the arming
/// timeout later with no motion and no command, ends in `Armed`.
pub proof fn law_arm_then_wait(settings: AlarmSettings, t0: u64, t1: u64)
    requires
        t1 >= t0 + settings.arming_timeout * 1000,
    ensures
        next_state(
            next_state(AlarmState::Disarmed, settings, false, Some(AlarmCommand::Arm), t0),
            settings,
            false,
            None,
            t1,
        ) is Armed,
{
}

/// `Disarm` reaches `Disarmed` in the tick that handles it, from any state.
pub proof fn law_disarm_from_any(
    state: AlarmState,
    settings: AlarmSettings,
    motion: bool,
    now: u64,
)
    ensures
        next_state(state, settings, motion, Some(AlarmCommand::Disarm), now) == AlarmState::Disarmed,
{
}

/// Motion while `Armed` (and no command) moves to `Pending` at that moment.
pub proof fn law_motion_while_armed(since: u64, settings: AlarmSettings, now: u64)
    ensures
        next_state(AlarmState::Armed(since), settings, true, None, now) == AlarmState::Pending(now),
{
}

/// `Pending` becomes `Triggered` once the pending timeout has elapsed, unless
/// the tick's command is `Untrigger`, `Disarm` or a settings update.
pub proof fn law_pending_times_out(
    since: u64,
    settings: AlarmSettings,
    motion: bool,
    command: Option<AlarmCommand>,
    now: u64,
)
    requires
        now >= since + settings.pending_timeout * 1000,
        match command {
            Some(AlarmCommand::Untrigger) | Some(AlarmCommand::Disarm) | Some(
                AlarmCommand::UpdateSettings(_),
            ) => false,
            _ => true,
        },
    ensures
        next_state(AlarmState::Pending(since), settings, motion, command, now) == AlarmState::Triggered,
{
}

/// `Untrigger` from `Triggered` returns to `Armed` (never `Disarmed`), so the
/// siren is released in the same tick; without motion the state is `Armed(now)`.
pub proof fn law_untrigger(settings: AlarmSettings, motion: bool, now: u64)
    ensures
        !(next_state(AlarmState::Triggered, settings, motion, Some(AlarmCommand::Untrigger), now) is Triggered),
        !(next_state(AlarmState::Triggered, settings, motion, Some(AlarmCommand::Untrigger), now) is Disarmed),
        !motion ==> next_state(AlarmState::Triggered, settings, motion, Some(AlarmCommand::Untrigger), now)
            == AlarmState::Armed(now),
{
}

/// Crash recovery: an armed system persists `Armed`, resumes as `Armed` from
/// it whatever the settings say, and then stays put while nothing happens.
pub proof fn law_recover_armed<E>(
    since: u64,
    settings: AlarmSettings,
    boot: u64,
    later: u64,
)
    ensures
        persisted_of(AlarmState::Armed(since)) == PersistedAlarmState::Armed,
        startup_state(settings, Ok::<Option<PersistedAlarmState>, E>(Some(PersistedAlarmState::Armed)), boot)
            == AlarmState::Armed(boot),
        next_state(AlarmState::Armed(boot), settings, false, None, later) == AlarmState::Armed(boot),
{
}

/// New timeouts apply to the timeout evaluation of the very tick that
/// brings them: a pending alarm triggers exactly when the new pending
/// timeout has elapsed, and arming completes exactly when the new arming
/// timeout has.
pub proof fn law_settings_apply_at_once(
    since: u64,
    old_settings: AlarmSettings,
    new_settings: AlarmSettings,
    motion: bool,
    now: u64,
)
    ensures
        (next_state(
            AlarmState::Pending(since),
            old_settings,
            motion,
            Some(AlarmCommand::UpdateSettings(new_settings)),
            now,
        ) is Triggered) == timed_out(since, now, new_settings.pending_timeout),
        (next_state(
            AlarmState::Arming(since),
            old_settings,
            motion,
            Some(AlarmCommand::UpdateSettings(new_settings)),
            now,
        ) is Armed) == timed_out(since, now, new_settings.arming_timeout),
{
}

} // verus!
