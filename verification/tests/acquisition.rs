use weather_panel::acquisition::{AcquisitionLoop, CycleReport, LoopState, DEFAULT_POLL_INTERVAL_MS};
use weather_panel::reading::{Measurement, Reading, Status};
use weather_panel::source::{
    Acquisition, AcquisitionError, DataSource, MockSource, ProviderError, SensorError, Transaction,
};
use weather_panel::store::LatestValueStore;

fn sample(temperature: f32, humidity: f32) -> Measurement<f32> {
    Measurement { temperature, humidity }
}

fn hardware_loop(store: &LatestValueStore<Reading<f32>>) -> AcquisitionLoop<f32> {
    AcquisitionLoop::new(DataSource::Hardware { pin: 13 }, store.clone(), DEFAULT_POLL_INTERVAL_MS)
}

#[test]
fn default_poll_interval_is_two_seconds() {
    assert_eq!(DEFAULT_POLL_INTERVAL_MS, 2000);
    let store = LatestValueStore::new();
    assert_eq!(hardware_loop(&store).poll_interval_ms(), 2000);
}

#[test]
fn loop_starts_polling_and_writes_nothing() {
    let store = LatestValueStore::new();
    let acquisition = hardware_loop(&store);
    assert_eq!(acquisition.state(), LoopState::Polling);
    assert_eq!(store.get(), None);
}

#[test]
fn begin_cycle_asks_the_source_and_writes_nothing() {
    let store = LatestValueStore::new();
    let mut acquisition = hardware_loop(&store);
    assert_eq!(acquisition.begin_cycle(), Acquisition::Pending(Transaction::ReadSensor { pin: 13 }));
    assert_eq!(acquisition.state(), LoopState::Polling);
    assert_eq!(store.get(), None);
}

#[test]
fn success_is_published_as_a_valid_reading() {
    let store = LatestValueStore::new();
    let mut acquisition = hardware_loop(&store);
    acquisition.begin_cycle();
    let report = acquisition.finish_cycle(Ok(sample(21.5, 40.0)), 1234);
    let expected =
        Reading { temperature: 21.5, humidity: 40.0, taken_at_ms: 1234, status: Status::Valid };
    assert_eq!(report, CycleReport::Published(expected));
    assert_eq!(store.get(), Some(expected));
    assert_eq!(acquisition.state(), LoopState::Sleeping);
}

#[test]
fn failure_before_any_success_leaves_the_store_empty() {
    let store = LatestValueStore::new();
    let mut acquisition = hardware_loop(&store);
    acquisition.begin_cycle();
    let error = AcquisitionError::Sensor(SensorError::NoResponse);
    assert_eq!(acquisition.finish_cycle(Err(error), 10), CycleReport::Dropped(error));
    assert_eq!(store.get(), None);
    assert_eq!(acquisition.state(), LoopState::Sleeping);
}

#[test]
fn repeated_failures_keep_the_last_good_reading() {
    let store = LatestValueStore::new();
    let mut acquisition = hardware_loop(&store);
    acquisition.begin_cycle();
    acquisition.finish_cycle(Ok(sample(19.0, 61.0)), 0);
    let good = Reading { temperature: 19.0, humidity: 61.0, taken_at_ms: 0, status: Status::Valid };
    let errors = [
        AcquisitionError::Sensor(SensorError::ChecksumMismatch),
        AcquisitionError::Sensor(SensorError::TimingViolation),
        AcquisitionError::Sensor(SensorError::NoResponse),
        AcquisitionError::Provider(ProviderError::Network),
        AcquisitionError::Provider(ProviderError::Unauthorized),
    ];
    for (n, error) in errors.iter().cycle().take(50).enumerate() {
        acquisition.begin_cycle();
        let now = (n as u64 + 1) * DEFAULT_POLL_INTERVAL_MS;
        assert_eq!(acquisition.finish_cycle(Err(*error), now), CycleReport::Dropped(*error));
        assert_eq!(store.get(), Some(good));
    }
}

#[test]
fn a_later_success_replaces_the_earlier_one() {
    let store = LatestValueStore::new();
    let mut acquisition = hardware_loop(&store);
    acquisition.finish_cycle(Ok(sample(19.0, 61.0)), 0);
    acquisition.finish_cycle(Err(AcquisitionError::Sensor(SensorError::NoResponse)), 2000);
    acquisition.finish_cycle(Ok(sample(20.0, 60.0)), 4000);
    assert_eq!(
        store.get(),
        Some(Reading { temperature: 20.0, humidity: 60.0, taken_at_ms: 4000, status: Status::Valid })
    );
}

#[test]
fn mock_loop_publishes_every_cycle() {
    let store = LatestValueStore::new();
    let mock = MockSource::cycling(vec![sample(1.0, 10.0), sample(2.0, 20.0)]).unwrap();
    let mut acquisition = AcquisitionLoop::new(DataSource::Mock(mock), store.clone(), 250);
    for n in 0..10u64 {
        let outcome = match acquisition.begin_cycle() {
            Acquisition::Ready(measurement) => Ok(measurement),
            Acquisition::Pending(_) => panic!("a mock asked for outside work"),
        };
        let report = acquisition.finish_cycle(outcome, n * 250);
        let expected = if n % 2 == 0 { sample(1.0, 10.0) } else { sample(2.0, 20.0) };
        let reading = Reading {
            temperature: expected.temperature,
            humidity: expected.humidity,
            taken_at_ms: n * 250,
            status: Status::Valid,
        };
        assert_eq!(report, CycleReport::Published(reading));
        assert_eq!(store.get(), Some(reading));
    }
    assert_eq!(acquisition.poll_interval_ms(), 250);
}

#[test]
fn reading_from_measurement_is_valid_and_stamped() {
    let reading = Reading::from_measurement(sample(21.5, 40.0), 61_999);
    assert_eq!(reading.temperature, 21.5);
    assert_eq!(reading.humidity, 40.0);
    assert_eq!(reading.taken_at_ms, 61_999);
    assert_eq!(reading.status, Status::Valid);
    assert!(reading.is_valid());
    let stale = Reading { status: Status::Error, ..reading };
    assert!(!stale.is_valid());
}

fn needs_send<T: Send>(_: &T) {}

#[test]
fn both_tasks_can_move_to_their_own_threads() {
    let panel = weather_panel::panel::Panel::start(
        DataSource::Mock(MockSource::fixed(sample(1.0, 2.0))),
        weather_panel::panel::Settings::default(),
    );
    needs_send(&panel.acquisition);
    needs_send(&panel.timer);
}
