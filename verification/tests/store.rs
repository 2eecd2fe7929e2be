use weather_panel::reading::{Measurement, Reading, Status};
use weather_panel::slot::Slot;
use weather_panel::store::LatestValueStore;

#[test]
fn get_before_any_set_is_none() {
    let store: LatestValueStore<u32> = LatestValueStore::new();
    assert_eq!(store.get(), None);
    assert_eq!(store.get(), None);
}

#[test]
fn default_store_is_empty() {
    let store: LatestValueStore<u32> = LatestValueStore::default();
    assert_eq!(store.get(), None);
}

#[test]
fn get_returns_the_value_set() {
    let store: LatestValueStore<u32> = LatestValueStore::new();
    store.set(7);
    assert_eq!(store.get(), Some(7));
}

#[test]
fn get_does_not_consume() {
    let store: LatestValueStore<u32> = LatestValueStore::new();
    store.set(7);
    assert_eq!(store.get(), Some(7));
    assert_eq!(store.get(), Some(7));
}

#[test]
fn latest_set_wins() {
    let store: LatestValueStore<u32> = LatestValueStore::new();
    store.set(1);
    store.set(2);
    store.set(3);
    assert_eq!(store.get(), Some(3));
}

#[test]
fn clone_shares_one_slot() {
    let store: LatestValueStore<f32> = LatestValueStore::new();
    let other = store.clone();
    other.set(21.5);
    assert_eq!(store.get(), Some(21.5));
    store.set(-3.25);
    assert_eq!(other.get(), Some(-3.25));
}

#[test]
fn separate_stores_are_independent() {
    let one: LatestValueStore<u32> = LatestValueStore::new();
    let other: LatestValueStore<u32> = LatestValueStore::new();
    one.set(5);
    assert_eq!(other.get(), None);
}

#[test]
fn store_outlives_the_first_handle() {
    let store: LatestValueStore<u32> = LatestValueStore::new();
    let other = store.clone();
    store.set(9);
    drop(store);
    assert_eq!(other.get(), Some(9));
}

#[test]
fn reads_between_writes_see_whole_readings_in_order() {
    let store: LatestValueStore<Reading<u64>> = LatestValueStore::new();
    let reader = store.clone();
    for n in 1..=2_000u64 {
        store.set(Reading::from_measurement(Measurement { temperature: n, humidity: n }, n));
        if n % 3 == 0 {
            let reading = reader.get().unwrap();
            assert_eq!(reading.temperature, n);
            assert_eq!(reading.humidity, n);
            assert_eq!(reading.taken_at_ms, n);
            assert_eq!(reading.status, Status::Valid);
        }
    }
    assert_eq!(reader.get().map(|reading| reading.taken_at_ms), Some(2_000));
}

#[test]
fn slot_starts_empty_and_keeps_the_last_value() {
    let mut slot: Slot<u8> = Slot::empty();
    assert_eq!(slot.latest(), None);
    slot.publish(1);
    assert_eq!(slot.latest(), Some(1));
    slot.publish(2);
    assert_eq!(slot.latest(), Some(2));
}

fn needs_send_and_sync<T: Send + Sync>(_: &T) {}

#[test]
fn store_handle_can_cross_threads() {
    let store: LatestValueStore<Reading<f32>> = LatestValueStore::new();
    needs_send_and_sync(&store);
    needs_send_and_sync(&store.clone());
}

#[test]
fn store_made_with_a_value_is_never_found_empty() {
    let store: LatestValueStore<u32> = LatestValueStore::holding(5);
    assert_eq!(store.get(), Some(5));
    assert_eq!(store.clone().get(), Some(5));
    store.set(6);
    assert_eq!(store.get(), Some(6));
}
