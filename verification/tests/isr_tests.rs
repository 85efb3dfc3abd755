use firmware_core::isr::service_edge;
use firmware_core::mode::SystemMode;
use firmware_core::store::SharedStateStore;

/// A button line held in memory: its pending flag and how often it was cleared.
struct SimButton {
    pending: bool,
    clears: u32,
}

fn store_with_button(pending: bool) -> SharedStateStore<SimButton> {
    let mut store = SharedStateStore::new();
    assert!(store.install_button(SimButton { pending, clears: 0 }).is_ok());
    store
}

fn deliver_edge(store: &mut SharedStateStore<SimButton>) {
    if let Some(button) = store.button_mut() {
        button.pending = true;
    }
    service_edge(
        store,
        |button: &SimButton| button.pending,
        |button: &mut SimButton| {
            button.pending = false;
            button.clears += 1;
        },
    );
}

#[test]
fn edge_with_raised_flag_is_cleared_and_counted() {
    let mut store = store_with_button(true);
    let mut queries = 0;
    service_edge(
        &mut store,
        |button: &SimButton| {
            queries += 1;
            button.pending
        },
        |button: &mut SimButton| {
            button.pending = false;
            button.clears += 1;
        },
    );
    assert_eq!(queries, 1);
    assert_eq!(store.read_press_count(), 1);
    let button = store.button().unwrap();
    assert!(!button.pending);
    assert_eq!(button.clears, 1);
}

#[test]
fn edge_with_flag_down_is_counted_but_not_cleared() {
    let mut store = store_with_button(false);
    let mut queries = 0;
    let mut clears = 0;
    service_edge(
        &mut store,
        |button: &SimButton| {
            queries += 1;
            button.pending
        },
        |_button: &mut SimButton| clears += 1,
    );
    assert_eq!(queries, 1);
    assert_eq!(clears, 0);
    assert_eq!(store.read_press_count(), 1);
    assert_eq!(store.button().unwrap().clears, 0);
    assert!(!store.button().unwrap().pending);
}

#[test]
fn edge_before_installation_is_counted_without_touching_the_line() {
    let mut store: SharedStateStore<SimButton> = SharedStateStore::new();
    let mut queries = 0;
    let mut clears = 0;
    service_edge(
        &mut store,
        |_button: &SimButton| {
            queries += 1;
            true
        },
        |_button: &mut SimButton| clears += 1,
    );
    assert_eq!(queries, 0);
    assert_eq!(clears, 0);
    assert_eq!(store.read_press_count(), 1);
    assert!(!store.has_button());
    // the next edge after installation is captured normally
    assert!(store.install_button(SimButton { pending: false, clears: 0 }).is_ok());
    deliver_edge(&mut store);
    assert_eq!(store.read_press_count(), 2);
    assert_eq!(store.button().unwrap().clears, 1);
}

#[test]
fn servicing_leaves_the_mode_alone() {
    for mode in [SystemMode::Sleep, SystemMode::Standalone, SystemMode::Continuous] {
        let mut store = store_with_button(false);
        store.write_mode(mode);
        deliver_edge(&mut store);
        assert_eq!(store.read_mode(), mode);
    }
}

#[test]
fn n_edges_advance_the_counter_by_n() {
    for n in [0u32, 1, 2, 17, 1000] {
        let mut store = store_with_button(false);
        let prior = store.read_press_count();
        for _ in 0..n {
            deliver_edge(&mut store);
        }
        assert_eq!(store.read_press_count(), prior.wrapping_add(n));
        assert_eq!(store.read_press_count(), n);
        assert_eq!(store.button().unwrap().clears, n);
    }
}

#[test]
fn uncleared_flag_shows_as_more_increments_not_a_failure() {
    // a line whose flag cannot be cleared re-triggers at once
    let mut store = store_with_button(true);
    for _ in 0..3 {
        service_edge(&mut store, |button: &SimButton| button.pending, |_button: &mut SimButton| {});
    }
    assert_eq!(store.read_press_count(), 3);
    assert!(store.button().unwrap().pending);
}
