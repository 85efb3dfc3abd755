use firmware_core::mode::{ModeSignal, SystemMode};
use firmware_core::store::{ConfigError, SharedStateStore, COUNTER_MODULUS};

#[test]
fn fresh_store_is_empty_zero_and_standalone() {
    let store: SharedStateStore<u8> = SharedStateStore::new();
    assert!(!store.has_button());
    assert!(store.button().is_none());
    assert_eq!(store.read_press_count(), 0);
    assert_eq!(store.read_mode(), SystemMode::Standalone);
}

#[test]
fn first_install_is_accepted() {
    let mut store: SharedStateStore<u8> = SharedStateStore::new();
    assert_eq!(store.install_button(13), Ok(()));
    assert!(store.has_button());
    assert_eq!(store.button(), Some(&13));
}

#[test]
fn second_install_is_rejected_and_keeps_the_first_handle() {
    let mut store: SharedStateStore<u8> = SharedStateStore::new();
    assert_eq!(store.install_button(13), Ok(()));
    assert_eq!(store.install_button(7), Err(ConfigError::ButtonAlreadyInstalled));
    assert_eq!(store.button(), Some(&13));
    assert_eq!(store.install_button(13), Err(ConfigError::ButtonAlreadyInstalled));
    assert_eq!(store.button(), Some(&13));
    assert_eq!(store.read_press_count(), 0);
    assert_eq!(store.read_mode(), SystemMode::Standalone);
}

#[test]
fn install_leaves_counter_and_mode_alone() {
    let mut store: SharedStateStore<u8> = SharedStateStore::new();
    store.record_press();
    store.record_press();
    store.write_mode(SystemMode::Continuous);
    assert_eq!(store.install_button(1), Ok(()));
    assert_eq!(store.read_press_count(), 2);
    assert_eq!(store.read_mode(), SystemMode::Continuous);
}

#[test]
fn button_mut_lends_the_installed_handle() {
    let mut store: SharedStateStore<u8> = SharedStateStore::new();
    assert!(store.button_mut().is_none());
    assert_eq!(store.install_button(13), Ok(()));
    if let Some(handle) = store.button_mut() {
        assert_eq!(*handle, 13);
        *handle = 14;
    } else {
        panic!("the installed handle was not lent");
    }
    assert_eq!(store.button(), Some(&14));
    assert_eq!(store.read_press_count(), 0);
}

#[test]
fn record_press_adds_one() {
    let mut store: SharedStateStore<u8> = SharedStateStore::new();
    store.record_press();
    assert_eq!(store.read_press_count(), 1);
    store.record_press();
    store.record_press();
    assert_eq!(store.read_press_count(), 3);
}

#[test]
fn record_press_touches_neither_button_nor_mode() {
    let mut store: SharedStateStore<u8> = SharedStateStore::new();
    assert_eq!(store.install_button(5), Ok(()));
    store.write_mode(SystemMode::Sleep);
    store.record_press();
    assert_eq!(store.button(), Some(&5));
    assert_eq!(store.read_mode(), SystemMode::Sleep);
}

#[test]
fn counter_modulus_is_two_to_the_thirty_two() {
    assert_eq!(COUNTER_MODULUS, 4_294_967_296);
    assert_eq!(COUNTER_MODULUS, u32::MAX as u64 + 1);
}

#[test]
fn write_mode_replaces_the_mode_only() {
    let mut store: SharedStateStore<u8> = SharedStateStore::new();
    store.record_press();
    for mode in [SystemMode::Sleep, SystemMode::Continuous, SystemMode::Standalone] {
        store.write_mode(mode);
        assert_eq!(store.read_mode(), mode);
        assert_eq!(store.read_press_count(), 1);
        assert!(!store.has_button());
    }
}

#[test]
fn apply_signal_follows_the_table() {
    let mut store: SharedStateStore<u8> = SharedStateStore::new();
    assert_eq!(store.apply_signal(ModeSignal::InactivityTimeout), SystemMode::Standalone);
    assert_eq!(store.read_mode(), SystemMode::Standalone);
    assert_eq!(store.apply_signal(ModeSignal::SustainedActivity), SystemMode::Continuous);
    assert_eq!(store.read_mode(), SystemMode::Continuous);
    assert_eq!(store.apply_signal(ModeSignal::ButtonEdge), SystemMode::Continuous);
    assert_eq!(store.apply_signal(ModeSignal::InactivityTimeout), SystemMode::Sleep);
    assert_eq!(store.read_mode(), SystemMode::Sleep);
    assert_eq!(store.apply_signal(ModeSignal::SustainedActivity), SystemMode::Sleep);
    assert_eq!(store.apply_signal(ModeSignal::ButtonEdge), SystemMode::Standalone);
    assert_eq!(store.read_mode(), SystemMode::Standalone);
    assert_eq!(store.read_press_count(), 0);
}

#[test]
fn handles_that_cannot_be_copied_are_accepted() {
    struct Line {
        number: u8,
    }
    let mut store: SharedStateStore<Line> = SharedStateStore::new();
    assert!(store.install_button(Line { number: 13 }).is_ok());
    assert_eq!(store.install_button(Line { number: 2 }), Err(ConfigError::ButtonAlreadyInstalled));
    assert_eq!(store.button().map(|line| line.number), Some(13));
}
