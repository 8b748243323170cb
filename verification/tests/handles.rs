use fmod_studio::Bank;
use fmod_studio::EventDescription;
use fmod_studio::EventInstance;
use fmod_studio::FmodError;
use fmod_studio::LoadingState;
use fmod_studio::System;
use fmod_studio::SystemSetup;
use fmod_studio::system::initialization_outcome;

#[test]
fn handles_keep_the_wrapped_address() {
    assert_eq!(System::from_raw(0x1000).as_ptr(), 0x1000);
    assert_eq!(Bank::from_raw(0x2000).as_ptr(), 0x2000);
    assert_eq!(EventDescription::from_raw(0x3000).as_ptr(), 0x3000);
    assert_eq!(EventInstance::from_raw(0x4000).as_ptr(), 0x4000);
}

#[test]
fn copied_handles_alias_the_same_resource() {
    let bank = Bank::from_raw(0x2000);
    let alias = bank;
    assert_eq!(bank, alias);
    assert_eq!(bank.as_ptr(), alias.as_ptr());
}

#[test]
fn loading_states_translate_from_native_values() {
    assert_eq!(LoadingState::from_native(0), LoadingState::Unloading);
    assert_eq!(LoadingState::from_native(1), LoadingState::Unloaded);
    assert_eq!(LoadingState::from_native(2), LoadingState::Loading);
    assert_eq!(LoadingState::from_native(3), LoadingState::Loaded);
    assert_eq!(LoadingState::from_native(4), LoadingState::Error);
}

#[test]
fn loading_state_query_decodes_success_and_failure() {
    assert_eq!(LoadingState::decode_query(0, 3), Ok(LoadingState::Loaded));
    assert_eq!(LoadingState::decode_query(0, 2), Ok(LoadingState::Loading));
    assert_eq!(
        LoadingState::decode_query(30, 0),
        Err(FmodError::InvalidHandle)
    );
    assert_eq!(
        LoadingState::decode_query(18, 4),
        Err(FmodError::FileNotFound)
    );
}

#[test]
fn stop_mode_selects_immediate_or_fadeout() {
    assert_eq!(EventInstance::stop_mode(true), 1);
    assert_eq!(EventInstance::stop_mode(false), 0);
}

#[test]
fn init_flags_toggle_the_live_update_connection() {
    assert_eq!(System::studio_init_flags(false), 0);
    assert_eq!(System::studio_init_flags(true), 1);
}

#[test]
fn load_bank_flags_select_blocking_semantics() {
    assert_eq!(System::load_bank_flags(false), 0);
    assert_eq!(System::load_bank_flags(true), 1);
}

#[test]
fn bring_up_succeeds_only_when_both_steps_do() {
    assert_eq!(initialization_outcome(0, Some(0)), SystemSetup::Ready);
}

#[test]
fn failed_creation_surfaces_its_error() {
    assert_eq!(
        initialization_outcome(38, None),
        SystemSetup::FailedCreate(FmodError::Memory)
    );
    assert_eq!(
        initialization_outcome(26, None),
        SystemSetup::FailedCreate(FmodError::Initialization)
    );
}

#[test]
fn failed_initialization_demands_a_release() {
    assert_eq!(
        initialization_outcome(0, Some(26)),
        SystemSetup::FailedInitialize(FmodError::Initialization)
    );
    assert_eq!(
        initialization_outcome(0, Some(69)),
        SystemSetup::FailedInitialize(FmodError::Version)
    );
}
