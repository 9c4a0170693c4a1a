use rusty_esp_alarm::alarm::{
    default_alarm_state, default_arming_timeout, default_pending_timeout, motion_events, AlarmCommand,
    AlarmController, AlarmEvent, AlarmSettings, AlarmState, MotionEdge, PersistedAlarmState,
};
use rusty_esp_alarm::ha_types::{HAEntity, HAEntityVariant};
use rusty_esp_alarm::settings::SettingsError;

type Loaded<T> = Result<Option<T>, SettingsError>;

fn settings(arming: u16, pending: u16) -> AlarmSettings {
    AlarmSettings { initial_state: PersistedAlarmState::Disarmed, arming_timeout: arming, pending_timeout: pending }
}

fn controller(state: Loaded<PersistedAlarmState>, s: AlarmSettings, sensors: usize, now: u64) -> AlarmController {
    AlarmController::start(Ok(Some(s)), state, sensors, now)
}

fn entity(name: &str) -> HAEntity {
    HAEntity {
        name: name.to_string(),
        variant: HAEntityVariant::binary_sensor,
        unique_id: format!("{name}-id"),
        state_topic: format!("panel/{name}/state"),
        icon: None,
        availability: None,
        device: None,
        device_class: Some("motion".to_string()),
        entity_category: None,
        gpio_pin: Some(4),
    }
}

#[test]
fn defaults() {
    let d = AlarmSettings::default();
    assert_eq!(d, settings(90, 30));
    assert_eq!(default_arming_timeout(), 90);
    assert_eq!(default_pending_timeout(), 30);
    assert_eq!(default_alarm_state(), PersistedAlarmState::Disarmed);
}

#[test]
fn arm_then_wait_reaches_armed() {
    let mut c = controller(Ok(Some(PersistedAlarmState::Disarmed)), settings(90, 30), 1, 0);
    let idle = vec![false];
    let out = c.tick(&idle, Some(AlarmCommand::Arm), 1_000);
    assert_eq!(c.state(), AlarmState::Arming(1_000));
    assert_eq!(out.changed, Some(PersistedAlarmState::Armed));
    let out = c.tick(&idle, None, 90_999);
    assert_eq!(c.state(), AlarmState::Arming(1_000));
    assert_eq!(out.changed, None);
    let out = c.tick(&idle, None, 91_000);
    assert_eq!(c.state(), AlarmState::Armed(91_000));
    assert_eq!(out.changed, Some(PersistedAlarmState::Armed));
    assert!(!out.siren_on);
}

#[test]
fn arm_instantly_only_from_disarmed() {
    let mut c = controller(Ok(None), settings(90, 30), 0, 0);
    c.tick(&vec![], Some(AlarmCommand::ArmInstantly), 5);
    assert_eq!(c.state(), AlarmState::Armed(5));
    c.tick(&vec![], Some(AlarmCommand::Arm), 6);
    assert_eq!(c.state(), AlarmState::Armed(5));
}

#[test]
fn disarm_from_every_state() {
    let starts = [
        PersistedAlarmState::Disarmed,
        PersistedAlarmState::Armed,
        PersistedAlarmState::Triggered,
    ];
    for p in starts {
        let mut c = controller(Ok(Some(p)), settings(90, 30), 1, 0);
        let out = c.tick(&vec![true], Some(AlarmCommand::Disarm), 10);
        assert_eq!(c.state(), AlarmState::Disarmed);
        assert!(!out.siren_on);
    }
    // from arming and pending
    let mut c = controller(Ok(None), settings(90, 30), 1, 0);
    c.tick(&vec![false], Some(AlarmCommand::Arm), 0);
    c.tick(&vec![false], Some(AlarmCommand::Disarm), 1);
    assert_eq!(c.state(), AlarmState::Disarmed);
    let mut c = controller(Ok(Some(PersistedAlarmState::Armed)), settings(90, 30), 1, 0);
    c.tick(&vec![true], None, 1);
    assert_eq!(c.state(), AlarmState::Pending(1));
    c.tick(&vec![true], Some(AlarmCommand::Disarm), 2);
    assert_eq!(c.state(), AlarmState::Disarmed);
}

#[test]
fn motion_while_armed_goes_pending_then_triggered() {
    let mut c = controller(Ok(Some(PersistedAlarmState::Armed)), settings(90, 30), 2, 0);
    let out = c.tick(&vec![false, true], None, 500);
    assert_eq!(c.state(), AlarmState::Pending(500));
    assert_eq!(out.edges, vec![MotionEdge { entity: 1, detected: true }]);
    assert_eq!(out.changed, Some(PersistedAlarmState::Triggered));
    assert!(!out.siren_on);
    let out = c.tick(&vec![false, true], None, 30_499);
    assert_eq!(c.state(), AlarmState::Pending(500));
    assert!(!out.siren_on);
    let out = c.tick(&vec![false, false], None, 30_500);
    assert_eq!(c.state(), AlarmState::Triggered);
    assert!(out.siren_on);
    assert_eq!(out.edges, vec![MotionEdge { entity: 1, detected: false }]);
    let out = c.tick(&vec![false, false], None, 40_000);
    assert!(out.siren_on);
    assert_eq!(out.changed, None);
}

#[test]
fn falling_edge_does_not_trigger() {
    let mut c = controller(Ok(Some(PersistedAlarmState::Disarmed)), settings(90, 30), 1, 0);
    c.tick(&vec![true], None, 1);
    c.tick(&vec![true], Some(AlarmCommand::ArmInstantly), 2);
    let out = c.tick(&vec![false], None, 3);
    assert_eq!(c.state(), AlarmState::Armed(2));
    assert_eq!(out.edges, vec![MotionEdge { entity: 0, detected: false }]);
}

#[test]
fn manual_trigger_only_when_armed() {
    let mut c = controller(Ok(None), settings(90, 30), 0, 0);
    c.tick(&vec![], Some(AlarmCommand::ManualTrigger), 1);
    assert_eq!(c.state(), AlarmState::Disarmed);
    c.tick(&vec![], Some(AlarmCommand::ArmInstantly), 2);
    let out = c.tick(&vec![], Some(AlarmCommand::ManualTrigger), 3);
    assert_eq!(c.state(), AlarmState::Triggered);
    assert!(out.siren_on);
    assert_eq!(out.changed, Some(PersistedAlarmState::Triggered));
}

#[test]
fn untrigger_returns_to_armed_and_silences() {
    let mut c = controller(Ok(Some(PersistedAlarmState::Triggered)), settings(90, 30), 1, 0);
    assert!(c.siren_on());
    let out = c.tick(&vec![false], Some(AlarmCommand::Untrigger), 7_000);
    assert_eq!(c.state(), AlarmState::Armed(7_000));
    assert!(!out.siren_on);
    assert_eq!(out.changed, Some(PersistedAlarmState::Armed));
}

#[test]
fn untrigger_from_pending() {
    let mut c = controller(Ok(Some(PersistedAlarmState::Armed)), settings(90, 30), 1, 0);
    c.tick(&vec![true], None, 10);
    c.tick(&vec![true], Some(AlarmCommand::Untrigger), 20);
    assert_eq!(c.state(), AlarmState::Armed(20));
}

#[test]
fn crash_recovery_to_armed() {
    let mut before = controller(Ok(None), settings(90, 30), 1, 0);
    let out = before.tick(&vec![false], Some(AlarmCommand::ArmInstantly), 100);
    let persisted = out.changed.expect("state change is persisted");
    assert_eq!(persisted, PersistedAlarmState::Armed);
    // restart: only the persisted projection survives
    let mut after = controller(Ok(Some(persisted)), settings(90, 30), 1, 5);
    assert_eq!(after.state(), AlarmState::Armed(5));
    for t in 6..20u64 {
        let out = after.tick(&vec![false], None, t * 1_000);
        assert_eq!(out.changed, None);
        assert!(out.edges.is_empty());
    }
    assert_eq!(after.state(), AlarmState::Armed(5));
}

#[test]
fn startup_uses_initial_state_when_nothing_persisted() {
    let s = AlarmSettings { initial_state: PersistedAlarmState::Triggered, arming_timeout: 1, pending_timeout: 2 };
    let c = AlarmController::start::<SettingsError>(Ok(Some(s)), Ok(None), 0, 9);
    assert_eq!(c.state(), AlarmState::Triggered);
    assert_eq!(c.settings(), s);
}

#[test]
fn startup_falls_back_to_disarmed_on_read_error() {
    let s = AlarmSettings { initial_state: PersistedAlarmState::Armed, arming_timeout: 1, pending_timeout: 2 };
    let c = AlarmController::start(Ok(Some(s)), Err(SettingsError::CorruptOrInvalid), 0, 9);
    assert_eq!(c.state(), AlarmState::Disarmed);
}

#[test]
fn startup_uses_default_settings_on_error_or_absence() {
    let c = AlarmController::start::<SettingsError>(Err(SettingsError::NotReady), Ok(None), 0, 0);
    assert_eq!(c.settings(), AlarmSettings::default());
    assert_eq!(c.state(), AlarmState::Disarmed);
    let c = AlarmController::start::<SettingsError>(Ok(None), Ok(Some(PersistedAlarmState::Armed)), 0, 3);
    assert_eq!(c.settings(), AlarmSettings::default());
    assert_eq!(c.state(), AlarmState::Armed(3));
}

#[test]
fn update_settings_applies_on_next_evaluation() {
    let mut c = controller(Ok(Some(PersistedAlarmState::Armed)), settings(90, 30), 1, 0);
    c.tick(&vec![true], None, 1_000);
    assert_eq!(c.state(), AlarmState::Pending(1_000));
    let new = settings(90, 5);
    let out = c.tick(&vec![true], Some(AlarmCommand::UpdateSettings(new)), 6_000);
    assert_eq!(out.new_settings, Some(new));
    assert_eq!(c.settings(), new);
    assert_eq!(c.state(), AlarmState::Triggered);
    assert!(out.siren_on);
}

#[test]
fn update_settings_before_timeout_keeps_pending() {
    let mut c = controller(Ok(Some(PersistedAlarmState::Armed)), settings(90, 30), 1, 0);
    c.tick(&vec![true], None, 1_000);
    let out = c.tick(&vec![true], Some(AlarmCommand::UpdateSettings(settings(90, 5))), 5_999);
    assert_eq!(c.state(), AlarmState::Pending(1_000));
    assert_eq!(out.changed, None);
    c.tick(&vec![true], None, 6_000);
    assert_eq!(c.state(), AlarmState::Triggered);
}

#[test]
fn zero_arming_timeout_arms_in_the_same_tick() {
    let mut c = controller(Ok(None), settings(0, 30), 0, 0);
    c.tick(&vec![], Some(AlarmCommand::Arm), 42);
    assert_eq!(c.state(), AlarmState::Armed(42));
}

#[test]
fn clock_before_start_counts_as_no_time() {
    let mut c = controller(Ok(None), settings(1, 30), 0, 0);
    c.tick(&vec![], Some(AlarmCommand::Arm), 10_000);
    c.tick(&vec![], None, 5_000);
    assert_eq!(c.state(), AlarmState::Arming(10_000));
}

#[test]
fn persisted_projection() {
    assert_eq!(AlarmState::Disarmed.persisted(), PersistedAlarmState::Disarmed);
    assert_eq!(AlarmState::Arming(1).persisted(), PersistedAlarmState::Armed);
    assert_eq!(AlarmState::Armed(1).persisted(), PersistedAlarmState::Armed);
    assert_eq!(AlarmState::Pending(1).persisted(), PersistedAlarmState::Triggered);
    assert_eq!(AlarmState::Triggered.persisted(), PersistedAlarmState::Triggered);
    assert_eq!(AlarmState::from_persisted(PersistedAlarmState::Armed, 8), AlarmState::Armed(8));
    assert_eq!(AlarmState::from_persisted(PersistedAlarmState::Disarmed, 8), AlarmState::Disarmed);
    assert_eq!(AlarmState::from_persisted(PersistedAlarmState::Triggered, 8), AlarmState::Triggered);
}

#[test]
fn sample_motion_reports_edges_in_order() {
    let mut c = controller(Ok(None), settings(90, 30), 3, 0);
    let (edges, rising) = c.sample_motion(&vec![true, false, true]);
    assert!(rising);
    assert_eq!(
        edges,
        vec![MotionEdge { entity: 0, detected: true }, MotionEdge { entity: 2, detected: true }]
    );
    let (edges, rising) = c.sample_motion(&vec![false, false, true]);
    assert!(!rising);
    assert_eq!(edges, vec![MotionEdge { entity: 0, detected: false }]);
    let (edges, rising) = c.sample_motion(&vec![false, false, true]);
    assert!(!rising);
    assert!(edges.is_empty());
}

#[test]
fn motion_events_follow_edges() {
    let entities = vec![entity("hall"), entity("door")];
    let edges = vec![MotionEdge { entity: 1, detected: true }, MotionEdge { entity: 0, detected: false }];
    let events = motion_events(&entities, &edges);
    assert_eq!(events.len(), 2);
    match &events[0] {
        AlarmEvent::MotionDetected(e) => assert_eq!(e.name, "door"),
        other => panic!("unexpected {other:?}"),
    }
    match &events[1] {
        AlarmEvent::MotionCleared(e) => assert_eq!(e.name, "hall"),
        other => panic!("unexpected {other:?}"),
    }
}
