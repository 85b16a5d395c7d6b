use hs110_exporter::assembler::assemble_samples;
use hs110_exporter::device::{
    discovery_request, DeviceInfoResponse, EMeter, RealTimeEnergy, System, SystemInfo,
    DISCOVERY_REQUEST,
};
use hs110_exporter::hs110_client::{build_measurement, HS110Client, HS110ClientConfig, SOURCE};
use hs110_exporter::model::{
    Config, EntityType, Measurement, MetricType, Sample, SampleType, Timestamp,
};

fn client() -> HS110Client {
    HS110Client::new(HS110ClientConfig::new(10).unwrap())
}

fn config() -> Config {
    Config {
        location: "My Home".to_string(),
        entity_type: EntityType::Device,
        entity_name: "TP-Link HS110".to_string(),
    }
}

fn system(alias: &str) -> System {
    System {
        info: SystemInfo {
            alias: alias.to_string(),
            model: "HS110(EU)".to_string(),
            device_id: "8006E9854025B67C3F9D99BA1E66223914F0F3E9".to_string(),
            mac: "50:C7:BF:00:00:01".to_string(),
            relay_on: 1,
            on_time: 3600,
            rssi: -61,
        },
    }
}

fn e_meter(power_milli_watt: u32, total_watt_hour: u32) -> EMeter {
    EMeter {
        real_time: RealTimeEnergy {
            error_code: 0,
            power_milli_watt,
            voltage_milli_volt: 230_000,
            current_milli_ampere: 13,
            total_watt_hour,
        },
    }
}

fn device(alias: &str, power_milli_watt: u32, total_watt_hour: u32) -> DeviceInfoResponse {
    DeviceInfoResponse {
        system: Some(system(alias)),
        e_meter: Some(e_meter(power_milli_watt, total_watt_hour)),
    }
}

fn sample(name: &str, metric_type: MetricType, value_milli: u64) -> Sample {
    Sample {
        entity_type: EntityType::Device,
        entity_name: "TP-Link HS110".to_string(),
        sample_type: SampleType::ElectricityConsumption,
        sample_name: name.to_string(),
        metric_type,
        value_milli,
    }
}

fn at(seconds: i64) -> Timestamp {
    Timestamp { seconds, nanoseconds: 43_614_293 }
}

#[test]
fn discovery_request_is_the_fixed_document() {
    assert_eq!(
        DISCOVERY_REQUEST,
        "{\"system\":{\"get_sysinfo\":null},\"emeter\":{\"get_realtime\":null}}"
    );
    assert_eq!(discovery_request(), DISCOVERY_REQUEST.as_bytes().to_vec());
    assert_eq!(discovery_request().len(), 62);
}

#[test]
fn device_with_both_parts_gives_a_counter_and_a_gauge() {
    let samples = assemble_samples(&config(), &vec![device("Washing machine", 1500, 12)]);
    assert_eq!(
        samples,
        vec![
            sample("Washing machine", MetricType::Counter, 43_200_000),
            sample("Washing machine", MetricType::Gauge, 1500),
        ]
    );
}

#[test]
fn energy_is_converted_to_watt_seconds() {
    let samples = assemble_samples(&config(), &vec![device("a", 0, 1)]);
    assert_eq!(samples[0].value_milli, 3600 * 1000);
    let samples = assemble_samples(&config(), &vec![device("a", 0, 0)]);
    assert_eq!(samples[0].value_milli, 0);
    let samples = assemble_samples(&config(), &vec![device("a", 0, u32::MAX)]);
    assert_eq!(samples[0].value_milli, 4_294_967_295u64 * 3_600_000);
}

#[test]
fn power_is_converted_to_watts() {
    let samples = assemble_samples(&config(), &vec![device("a", 1234, 0)]);
    assert_eq!(samples[1].value_milli, 1234);
    let samples = assemble_samples(&config(), &vec![device("a", u32::MAX, 0)]);
    assert_eq!(samples[1].value_milli, 4_294_967_295);
}

#[test]
fn device_without_a_part_gives_no_samples() {
    let devices = vec![
        DeviceInfoResponse { system: Some(system("a")), e_meter: None },
        DeviceInfoResponse { system: None, e_meter: Some(e_meter(1, 2)) },
        DeviceInfoResponse { system: None, e_meter: None },
    ];
    assert_eq!(assemble_samples(&config(), &devices), vec![]);
    assert_eq!(assemble_samples(&config(), &vec![]), vec![]);
}

#[test]
fn devices_give_their_samples_in_order() {
    let devices = vec![
        device("first", 1, 1),
        DeviceInfoResponse { system: Some(system("skipped")), e_meter: None },
        device("second", 2, 2),
        device("first", 3, 3),
    ];
    let samples = assemble_samples(&config(), &devices);
    assert_eq!(
        samples,
        vec![
            sample("first", MetricType::Counter, 3_600_000),
            sample("first", MetricType::Gauge, 1),
            sample("second", MetricType::Counter, 7_200_000),
            sample("second", MetricType::Gauge, 2),
            sample("first", MetricType::Counter, 10_800_000),
            sample("first", MetricType::Gauge, 3),
        ]
    );
}

#[test]
fn samples_take_entity_from_the_config() {
    let config = Config {
        location: "Elsewhere".to_string(),
        entity_type: EntityType::Zone,
        entity_name: "Garage".to_string(),
    };
    let samples = assemble_samples(&config, &vec![device("a", 1, 1)]);
    assert_eq!(samples.len(), 2);
    for s in samples.iter() {
        assert_eq!(s.entity_type, EntityType::Zone);
        assert_eq!(s.entity_name, "Garage");
        assert_eq!(s.sample_type, SampleType::ElectricityConsumption);
        assert_eq!(s.sample_name, "a");
    }
}

#[test]
fn build_measurement_without_a_previous_one() {
    let measurement = build_measurement(
        "cc6e17bb-fd60-4dde-acc3-0cda7d752acc".to_string(),
        at(1_619_847_903),
        config(),
        vec![device("a", 1500, 12)],
        None,
    );
    assert_eq!(
        measurement,
        Measurement {
            id: "cc6e17bb-fd60-4dde-acc3-0cda7d752acc".to_string(),
            source: "jarvis-tp-link-hs-110-exporter".to_string(),
            location: "My Home".to_string(),
            samples: vec![
                sample("a", MetricType::Counter, 43_200_000),
                sample("a", MetricType::Gauge, 1500),
            ],
            measured_at_time: at(1_619_847_903),
        }
    );
}

#[test]
fn build_measurement_sanitizes_against_the_previous_one() {
    let last = Measurement {
        id: "previous".to_string(),
        source: SOURCE.to_string(),
        location: "My Home".to_string(),
        samples: vec![
            sample("a", MetricType::Counter, 36_000_000),
            sample("a", MetricType::Gauge, 10),
            sample("b", MetricType::Counter, 36_000_000),
        ],
        measured_at_time: at(1),
    };
    // a: 12 Wh against 10 Wh is 20 percent more; b: 11 Wh against 10 Wh is 10 percent more.
    let measurement = build_measurement(
        "id".to_string(),
        at(2),
        config(),
        vec![device("a", 1500, 12), device("b", 700, 11)],
        Some(last),
    );
    assert_eq!(measurement.id, "id");
    assert_eq!(measurement.measured_at_time, at(2));
    assert_eq!(
        measurement.samples,
        vec![
            sample("a", MetricType::Counter, 36_000_000),
            sample("a", MetricType::Gauge, 1500),
            sample("b", MetricType::Counter, 39_600_000),
            sample("b", MetricType::Gauge, 700),
        ]
    );
}

#[test]
fn build_measurement_with_an_empty_previous_one_changes_nothing() {
    let last = Measurement {
        id: "previous".to_string(),
        source: SOURCE.to_string(),
        location: "My Home".to_string(),
        samples: vec![],
        measured_at_time: at(1),
    };
    let with = build_measurement("id".to_string(), at(2), config(), vec![device("a", 5, 7)], Some(last));
    let without = build_measurement("id".to_string(), at(2), config(), vec![device("a", 5, 7)], None);
    assert_eq!(with, without);
}

#[test]
fn build_measurement_without_devices_has_no_samples() {
    let measurement = build_measurement("id".to_string(), at(2), config(), vec![], None);
    assert_eq!(measurement.samples, vec![]);
    assert_eq!(measurement.location, "My Home");
}

#[test]
fn get_measurement_fills_in_source_location_and_samples() {
    let measurement = client().get_measurement(config(), vec![device("a", 1500, 12)], None);
    assert_eq!(measurement.source, "jarvis-tp-link-hs-110-exporter");
    assert_eq!(measurement.location, "My Home");
    assert_eq!(
        measurement.samples,
        vec![
            sample("a", MetricType::Counter, 43_200_000),
            sample("a", MetricType::Gauge, 1500),
        ]
    );
}

#[test]
fn get_measurement_gives_each_measurement_an_id_of_its_own() {
    let first = client().get_measurement(config(), vec![], None);
    let second = client().get_measurement(config(), vec![], None);
    assert_ne!(first.id, second.id);
    assert_eq!(first.id.len(), 36);
    assert!(uuid::Uuid::parse_str(&first.id).is_ok());
    assert_eq!(uuid::Uuid::parse_str(&first.id).unwrap().get_version_num(), 4);
}

#[test]
fn get_measurement_is_stamped_with_the_current_time() {
    let before = chrono::Utc::now();
    let measurement = client().get_measurement(config(), vec![], None);
    let after = chrono::Utc::now();
    let stamp = chrono::DateTime::from_timestamp(
        measurement.measured_at_time.seconds,
        measurement.measured_at_time.nanoseconds,
    )
    .unwrap();
    assert!(before <= stamp);
    assert!(stamp <= after);
}

#[test]
fn get_measurement_sanitizes_against_the_previous_one() {
    let last = client().get_measurement(config(), vec![device("a", 1500, 10)], None);
    let measurement = client().get_measurement(config(), vec![device("a", 900, 12)], Some(last));
    assert_eq!(
        measurement.samples,
        vec![
            sample("a", MetricType::Counter, 36_000_000),
            sample("a", MetricType::Gauge, 900),
        ]
    );
}
