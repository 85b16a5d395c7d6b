//! The client for HS110 plugs: one measurement per polling cycle.

use vstd::prelude::*;
use crate::assembler::{assemble_samples, assemble_spec, lemma_assemble_len};
use crate::cipher::{decrypt_spec, encrypt_spec};
use crate::decimal::{decimal_value, parse_u64, parse_u64_spec};
use crate::device::{device_views, discovery_request_spec, DeviceInfoResponse, DeviceView};
use crate::error::ConfigError;
use crate::model::{
    sample_views,
    Config,
    ConfigView,
    Measurement,
    MeasurementView,
    Sample,
    SampleView,
    Timestamp,
};
use crate::sanitizer::{lemma_sanitize_without_previous, sanitize_spec};

verus! {

/// The producer that every measurement of this client names as its source.
pub const SOURCE: &'static str = "jarvis-tp-link-hs-110-exporter";

/// The timeout that holds where the environment names none.
pub const DEFAULT_TIMEOUT_SECONDS: &'static str = "10";

/// The settings of the client.
#[derive(Debug, PartialEq, Eq)]
pub struct HS110ClientConfig {
    /// How long a discovery round waits for replies.
    pub timeout_seconds: u64,
}

/// The text that is read as the timeout, given what the environment holds under
/// `TIMEOUT_SECONDS`.
pub open spec fn timeout_text(value: Option<String>) -> Seq<char> {
    match value {
        Some(text) => text@,
        None => DEFAULT_TIMEOUT_SECONDS@,
    }
}

/// The default timeout is ten seconds.
pub proof fn lemma_default_timeout()
    ensures
        parse_u64_spec(DEFAULT_TIMEOUT_SECONDS@) == Some(10u64),
{
    reveal_strlit("10");
    let text = DEFAULT_TIMEOUT_SECONDS@;
    assert(text.drop_last() =~= seq!['1']);
    assert(text.drop_last().drop_last() =~= Seq::<char>::empty());
    reveal_with_fuel(decimal_value, 3);
    assert(decimal_value(text) == 10);
}

impl HS110ClientConfig {
    /// A configuration with the given timeout. Every timeout is accepted.
    pub fn new(timeout_seconds: u64) -> (config: Result<Self, ConfigError>)
        ensures
            config == Ok::<Self, ConfigError>(HS110ClientConfig { timeout_seconds }),
    {
        Ok(HS110ClientConfig { timeout_seconds })
    }

    /// The configuration that the environment asks for, given the value of
    /// `TIMEOUT_SECONDS`, `None` where it is not set. The value is read as a
    /// decimal number of seconds; where there is none, the timeout is ten
    /// seconds.
    pub fn from_env(value: Option<String>) -> (config: Result<Self, ConfigError>)
        ensures
            config == match parse_u64_spec(timeout_text(value)) {
                Some(timeout_seconds) => Ok::<Self, ConfigError>(
                    HS110ClientConfig { timeout_seconds },
                ),
                None => Err::<Self, ConfigError>(ConfigError::InvalidTimeout),
            },
            value is None ==> config == Ok::<Self, ConfigError>(
                HS110ClientConfig { timeout_seconds: 10 },
            ),
    {
        proof {
            lemma_default_timeout();
        }
        let parsed = match value {
            Some(text) => parse_u64(text.as_str()),
            None => parse_u64(DEFAULT_TIMEOUT_SECONDS),
        };
        match parsed {
            Some(timeout_seconds) => Self::new(timeout_seconds),
            None => Err(ConfigError::InvalidTimeout),
        }
    }
}

/// The client itself.
#[derive(Debug, PartialEq, Eq)]
pub struct HS110Client {
    pub config: HS110ClientConfig,
}

/// The samples of a cycle: the assembled ones, sanitized against those of the
/// previous measurement where there is one, and unchanged where there is none.
pub open spec fn cycle_samples(
    config: ConfigView,
    devices: Seq<DeviceView>,
    previous: Option<Seq<SampleView>>,
) -> Seq<SampleView> {
    match previous {
        Some(last_samples) => sanitize_spec(assemble_spec(config, devices), last_samples),
        None => assemble_spec(config, devices),
    }
}

/// The measurement of a cycle, given its identifier and its instant.
pub open spec fn measurement_spec(
    id: Seq<char>,
    measured_at_time: Timestamp,
    config: ConfigView,
    devices: Seq<DeviceView>,
    previous: Option<Seq<SampleView>>,
) -> MeasurementView {
    MeasurementView {
        id,
        source: SOURCE@,
        location: config.location,
        samples: cycle_samples(config, devices, previous),
        measured_at_time,
    }
}

/// Without a previous measurement, and with one that holds no samples, the
/// assembled samples are published as they are.
pub proof fn lemma_cycle_without_previous(config: ConfigView, devices: Seq<DeviceView>)
    ensures
        cycle_samples(config, devices, None) == assemble_spec(config, devices),
        cycle_samples(config, devices, Some(Seq::empty())) == assemble_spec(config, devices),
{
    lemma_sanitize_without_previous(assemble_spec(config, devices));
}

/// A measurement holds at most two samples for each reply, whatever the previous
/// measurement held.
pub proof fn lemma_cycle_samples_len(
    config: ConfigView,
    devices: Seq<DeviceView>,
    previous: Option<Seq<SampleView>>,
)
    ensures
        cycle_samples(config, devices, previous).len() == assemble_spec(config, devices).len(),
        cycle_samples(config, devices, previous).len() <= 2 * devices.len(),
{
    lemma_assemble_len(config, devices);
}

/// The samples of the previous measurement, where there is one.
pub open spec fn previous_samples(last_measurement: Option<Measurement>) -> Option<
    Seq<SampleView>,
> {
    match last_measurement {
        Some(last) => Some(sample_views(last.samples@)),
        None => None,
    }
}

/// A fresh identifier: a random (version 4) UUID from `uuid::Uuid::new_v4`, in the
/// text form of its `Display`. Nothing is claimed of the value. The call panics
/// where the operating system gives no random bytes.
#[verifier::external_body]
fn new_measurement_id() -> (id: String) {
    uuid::Uuid::new_v4().to_string()
}

/// The current instant: `chrono::Utc::now`, as its `timestamp` and
/// `timestamp_subsec_nanos`. Nothing is claimed of the value. The call panics
/// where the system clock stands before 1970.
#[verifier::external_body]
fn utc_now() -> (now: Timestamp) {
    let now = chrono::Utc::now();
    Timestamp { seconds: now.timestamp(), nanoseconds: now.timestamp_subsec_nanos() }
}

/// The measurement with the given identifier and instant: the samples of
/// `devices`, sanitized against `last_measurement`.
pub fn build_measurement(
    id: String,
    measured_at_time: Timestamp,
    config: Config,
    devices: Vec<DeviceInfoResponse>,
    last_measurement: Option<Measurement>,
) -> (measurement: Measurement)
    ensures
        measurement@ == measurement_spec(
            id@,
            measured_at_time,
            config@,
            device_views(devices@),
            previous_samples(last_measurement),
        ),
{
    let assembled = assemble_samples(&config, &devices);
    let samples = match last_measurement {
        Some(last) => crate::sanitizer::sanitize_samples(assembled, &last.samples),
        None => assembled,
    };
    Measurement {
        id,
        source: SOURCE.to_owned(),
        location: config.location,
        samples,
        measured_at_time,
    }
}

impl HS110Client {
    pub fn new(config: HS110ClientConfig) -> (client: Self)
        ensures
            client.config == config,
    {
        HS110Client { config }
    }

    /// Encrypts `input` for the wire.
    pub fn encrypt(&self, input: Vec<u8>) -> (output: Vec<u8>)
        ensures
            output@ == encrypt_spec(input@),
    {
        crate::cipher::encrypt(input.as_slice())
    }

    /// Decrypts `b`, as it came from the wire.
    pub fn decrypt(&self, b: Vec<u8>) -> (output: Vec<u8>)
        ensures
            output@ == decrypt_spec(b@),
    {
        crate::cipher::decrypt(b.as_slice())
    }

    /// The datagram that a discovery round broadcasts: the encrypted request,
    /// without a length header.
    pub fn discovery_probe(&self) -> (datagram: Vec<u8>)
        ensures
            datagram@ == encrypt_spec(discovery_request_spec()),
    {
        let request = crate::device::discovery_request();
        crate::cipher::encrypt(request.as_slice())
    }

    /// Replaces every counter of `current_samples` that is more than 10 percent
    /// larger than the corresponding sample of `last_samples` by that sample.
    pub fn sanitize_samples(&self, current_samples: Vec<Sample>, last_samples: Vec<Sample>) -> (sanitized:
        Vec<Sample>)
        ensures
            sample_views(sanitized@) == sanitize_spec(
                sample_views(current_samples@),
                sample_views(last_samples@),
            ),
    {
        crate::sanitizer::sanitize_samples(current_samples, &last_samples)
    }

    /// The measurement of this cycle, from the replies that discovery collected.
    /// The identifier is fresh and the instant is now; everything else is as
    /// `measurement_spec` says.
    pub fn get_measurement(
        &self,
        config: Config,
        devices: Vec<DeviceInfoResponse>,
        last_measurement: Option<Measurement>,
    ) -> (measurement: Measurement)
        ensures
            measurement@ == measurement_spec(
                measurement.id@,
                measurement.measured_at_time,
                config@,
                device_views(devices@),
                previous_samples(last_measurement),
            ),
    {
        let id = new_measurement_id();
        let measured_at_time = utc_now();
        build_measurement(id, measured_at_time, config, devices, last_measurement)
    }
}

} // verus!
