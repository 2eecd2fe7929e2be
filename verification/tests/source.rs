use weather_panel::reading::Measurement;
use weather_panel::source::{Acquisition, DataSource, Descriptor, MockSource, Transaction};

fn sample(temperature: f32, humidity: f32) -> Measurement<f32> {
    Measurement { temperature, humidity }
}

fn florence() -> Descriptor {
    Descriptor {
        city_name: "Florence".to_string(),
        latitude_microdeg: 43_770_000,
        longitude_microdeg: 11_250_000,
    }
}

#[test]
fn fixed_mock_repeats_its_sample() {
    let mut mock = MockSource::fixed(sample(21.5, 40.0));
    for _ in 0..100 {
        assert_eq!(mock.next_sample(), sample(21.5, 40.0));
    }
}

#[test]
fn cycling_mock_replays_in_order_and_wraps() {
    let samples = vec![sample(1.0, 10.0), sample(2.0, 20.0), sample(3.0, 30.0)];
    let mut mock = MockSource::cycling(samples.clone()).unwrap();
    for round in 0..4 {
        for expected in &samples {
            assert_eq!(mock.next_sample(), *expected, "round {}", round);
        }
    }
}

#[test]
fn cycling_mock_needs_a_sample() {
    assert!(MockSource::<f32>::cycling(Vec::new()).is_none());
    assert!(MockSource::cycling(vec![sample(0.0, 0.0)]).is_some());
}

#[test]
fn mock_source_never_fails() {
    let mut source = DataSource::Mock(MockSource::cycling(vec![sample(1.0, 2.0), sample(3.0, 4.0)]).unwrap());
    for n in 0..1000 {
        match source.acquire() {
            Acquisition::Ready(got) => {
                let expected = if n % 2 == 0 { sample(1.0, 2.0) } else { sample(3.0, 4.0) };
                assert_eq!(got, expected);
            }
            Acquisition::Pending(_) => panic!("a mock asked for outside work"),
        }
    }
}

#[test]
fn mock_identity_is_the_placeholder_every_time() {
    let mut source = DataSource::Mock(MockSource::fixed(sample(1.0, 2.0)));
    let placeholder = Descriptor {
        city_name: "Nowhere".to_string(),
        latitude_microdeg: 0,
        longitude_microdeg: 0,
    };
    assert_eq!(source.identify(), Some(placeholder.clone()));
    source.acquire();
    source.acquire();
    assert_eq!(source.identify(), Some(placeholder.clone()));
    assert_eq!(source.identify(), Some(placeholder));
}

#[test]
fn hardware_source_has_no_identity() {
    let source: DataSource<f32> = DataSource::Hardware { pin: 13 };
    assert_eq!(source.identify(), None);
}

#[test]
fn hardware_source_asks_for_a_sensor_read() {
    let mut source: DataSource<f32> = DataSource::Hardware { pin: 13 };
    assert_eq!(source.acquire(), Acquisition::Pending(Transaction::ReadSensor { pin: 13 }));
    assert_eq!(source.acquire(), Acquisition::Pending(Transaction::ReadSensor { pin: 13 }));
}

#[test]
fn remote_source_reports_its_configured_location() {
    let source: DataSource<f32> =
        DataSource::Remote { location: florence(), api_key: "demo-key".to_string() };
    assert_eq!(source.identify(), Some(florence()));
    assert_eq!(source.identify(), Some(florence()));
}

#[test]
fn remote_source_asks_for_a_fetch() {
    let mut source: DataSource<f32> =
        DataSource::Remote { location: florence(), api_key: "demo-key".to_string() };
    let expected = Acquisition::Pending(Transaction::FetchWeather {
        location: florence(),
        api_key: "demo-key".to_string(),
    });
    assert_eq!(source.acquire(), expected);
    assert_eq!(source.acquire(), expected);
    assert_eq!(source.identify(), Some(florence()));
}

#[test]
fn select_takes_the_provider_when_a_key_is_configured() {
    let source = DataSource::select(
        Some("demo-key".to_string()),
        florence(),
        MockSource::fixed(sample(0.0, 0.0)),
    );
    match source {
        DataSource::Remote { location, api_key } => {
            assert_eq!(location, florence());
            assert_eq!(api_key, "demo-key");
        }
        _ => panic!("expected the remote provider"),
    }
}

#[test]
fn select_falls_back_to_the_mock_without_a_key() {
    let mut source = DataSource::select(None, florence(), MockSource::fixed(sample(18.0, 55.0)));
    assert!(matches!(source, DataSource::Mock(_)));
    assert_eq!(source.acquire(), Acquisition::Ready(sample(18.0, 55.0)));
    assert_eq!(source.identify().unwrap().city_name, "Nowhere");
}
