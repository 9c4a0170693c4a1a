//! Remote command payloads: the words accepted on the alarm's command
//! topic, the `key\0value` form of a settings update, and the payloads
//! published for state changes.
use crate::alarm::{AlarmCommand, AlarmState};
use crate::settings::{record_key, string_from_utf8, Records, Settings, SettingsError, StoreError};
use embedded_storage_async::nor_flash::NorFlash;
use vstd::prelude::*;
use vstd::slice::{slice_subrange, slice_to_vec};

verus! {

/// What a payload on the alarm's command topic asks for.
#[derive(Debug, Clone, Copy, PartialEq, Eq, Structural)]
pub enum RemoteCommand {
    Alarm(AlarmCommand),
    Reboot,
}

/// Names the upper-case form of a text.
pub uninterp spec fn upper_of(s: Seq<char>) -> Seq<char>;

/// Relies on `str::to_uppercase`: the result depends on the characters alone.
#[verifier::external_body]
fn uppercase(s: &str) -> (r: String)
    ensures
        r@ == upper_of(s@),
{
    s.to_uppercase()
}

/// The command an upper-case word names, if any.
pub open spec fn command_of(word: Seq<char>) -> Option<RemoteCommand> {
    if word == "ARM_AWAY"@ {
        Some(RemoteCommand::Alarm(AlarmCommand::Arm))
    } else if word == "ARM_CUSTOM_BYPASS"@ {
        Some(RemoteCommand::Alarm(AlarmCommand::ArmInstantly))
    } else if word == "DISARM"@ {
        Some(RemoteCommand::Alarm(AlarmCommand::Disarm))
    } else if word == "TRIGGER"@ {
        Some(RemoteCommand::Alarm(AlarmCommand::ManualTrigger))
    } else if word == "UNTRIGGER"@ {
        Some(RemoteCommand::Alarm(AlarmCommand::Untrigger))
    } else if word == "REBOOT"@ {
        Some(RemoteCommand::Reboot)
    } else {
        None
    }
}

/// Looks up an upper-case command word; unknown words give `None`.
pub fn command_from_word(word: String) -> (r: Option<RemoteCommand>)
    ensures
        r == command_of(word@),
{
    if word == "ARM_AWAY".to_owned() {
        Some(RemoteCommand::Alarm(AlarmCommand::Arm))
    } else if word == "ARM_CUSTOM_BYPASS".to_owned() {
        Some(RemoteCommand::Alarm(AlarmCommand::ArmInstantly))
    } else if word == "DISARM".to_owned() {
        Some(RemoteCommand::Alarm(AlarmCommand::Disarm))
    } else if word == "TRIGGER".to_owned() {
        Some(RemoteCommand::Alarm(AlarmCommand::ManualTrigger))
    } else if word == "UNTRIGGER".to_owned() {
        Some(RemoteCommand::Alarm(AlarmCommand::Untrigger))
    } else if word == "REBOOT".to_owned() {
        Some(RemoteCommand::Reboot)
    } else {
        None
    }
}

/// Reads a command payload, ignoring letter case.
pub fn parse_alarm_command(payload: &str) -> (r: Option<RemoteCommand>)
    ensures
        r == command_of(upper_of(payload@)),
{
    command_from_word(uppercase(payload))
}

pub open spec fn state_payload(state: AlarmState) -> Seq<char> {
    match state {
        AlarmState::Disarmed => "disarmed"@,
        AlarmState::Arming(_) => "arming"@,
        AlarmState::Armed(_) => "armed_away"@,
        AlarmState::Pending(_) => "pending"@,
        AlarmState::Triggered => "triggered"@,
    }
}

/// The payload that announces an alarm state.
pub fn alarm_state_payload(state: &AlarmState) -> (r: &'static str)
    ensures
        r@ == state_payload(*state),
{
    match state {
        AlarmState::Disarmed => "disarmed",
        AlarmState::Arming(_) => "arming",
        AlarmState::Armed(_) => "armed_away",
        AlarmState::Pending(_) => "pending",
        AlarmState::Triggered => "triggered",
    }
}

/// The payload that announces a binary sensor's state.
pub fn binary_sensor_payload(on: bool) -> (r: &'static str)
    ensures
        r@ == (if on {
            "ON"@
        } else {
            "OFF"@
        }),
{
    if on {
        "ON"
    } else {
        "OFF"
    }
}

/// Longest setting key accepted in a remote update, in bytes.
pub const MAX_SETTING_KEY_LEN: usize = 32;

#[derive(Debug, Clone, Copy, PartialEq, Eq, Structural)]
pub enum SetSettingError {
    /// No zero byte separates the key from the value.
    MissingSeparator,
    /// The key is longer than `MAX_SETTING_KEY_LEN`; its length.
    KeyTooLong(usize),
    /// The key is not UTF-8.
    KeyNotUtf8,
}

pub open spec fn zero_free(p: Seq<u8>, n: int) -> bool {
    forall|j: int| 0 <= j < n ==> #[trigger] p[j] != 0
}

/// `i` is the position of the first zero byte of `p`.
pub open spec fn first_zero_at(p: Seq<u8>, i: int) -> bool {
    0 <= i < p.len() && p[i] == 0 && zero_free(p, i)
}

/// Splits a settings update at its first zero byte into a UTF-8 key of at
/// most `MAX_SETTING_KEY_LEN` bytes and the raw value after the zero.
pub fn split_setting_payload(payload: &[u8]) -> (r: Result<(String, Vec<u8>), SetSettingError>)
    ensures
        r matches Err(SetSettingError::MissingSeparator) <==> zero_free(payload@, payload@.len() as int),
        r matches Err(SetSettingError::KeyTooLong(n)) ==> first_zero_at(payload@, n as int) && n
            > MAX_SETTING_KEY_LEN,
        r matches Err(SetSettingError::KeyNotUtf8) ==> exists|i: int|
            first_zero_at(payload@, i) && i <= MAX_SETTING_KEY_LEN && !vstd::utf8::valid_utf8(
                #[trigger] payload@.subrange(0, i),
            ),
        r matches Ok((key, value)) ==> exists|i: int|
            first_zero_at(payload@, i) && i <= MAX_SETTING_KEY_LEN && vstd::utf8::valid_utf8(
                #[trigger] payload@.subrange(0, i),
            ) && key@ == vstd::utf8::decode_utf8(payload@.subrange(0, i)) && value@ == payload@.subrange(
                i + 1,
                payload@.len() as int,
            ),
{
    let mut i: usize = 0;
    while i < payload.len() && payload[i] != 0
        invariant
            i <= payload@.len(),
            zero_free(payload@, i as int),
        decreases payload@.len() - i,
    {
        i = i + 1;
    }
    if i == payload.len() {
        return Err(SetSettingError::MissingSeparator);
    }
    assert(first_zero_at(payload@, i as int));
    if i > MAX_SETTING_KEY_LEN {
        return Err(SetSettingError::KeyTooLong(i));
    }
    let key_bytes = slice_to_vec(slice_subrange(payload, 0, i));
    let value = slice_to_vec(slice_subrange(payload, i + 1, payload.len()));
    match string_from_utf8(key_bytes) {
        Ok(key) => Ok((key, value)),
        Err(_) => Err(SetSettingError::KeyNotUtf8),
    }
}

/// Stores a remotely set setting.
pub fn handle_set_setting<S: NorFlash>(key: &str, val: &[u8], settings: &mut Settings<S>) -> (r: Result<(), SettingsError>)
    ensures
        final(settings).spec_start() == old(settings).spec_start(),
        final(settings).spec_end() == old(settings).spec_end(),
        final(settings).spec_buffer_len() == old(settings).spec_buffer_len(),
        r is Ok ==> final(settings).spec_records() == old(settings).spec_records().insert(
            record_key(key),
            Some(val@),
        ),
        val@.len() + 4 > old(settings).spec_buffer_len() ==> r == Err::<(), SettingsError>(
            SettingsError::InnerError(StoreError::Serialization),
        ) && final(settings).spec_records() == old(settings).spec_records(),
        r matches Err(e) ==> e is InnerError,
        r is Err && val@.len() + 4 <= old(settings).spec_buffer_len() ==> final(settings).spec_records()
            == Records::empty(),
{
    settings.set_blocking(key, val)
}

} // verus!
