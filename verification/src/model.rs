//! Measurements and their samples.
//!
//! Sample values are fixed-point numbers: `value_milli` counts thousandths of the
//! sample's unit. Every value this exporter produces (watt-seconds from whole
//! watt-hours, watts from whole milliwatts) is exact in that form.

use vstd::prelude::*;

verus! {

/// What kind of thing a sample was taken from.
#[derive(Clone, Copy, Debug, PartialEq, Eq, Structural)]
pub enum EntityType {
    Tariff,
    Zone,
    Device,
}

/// What a sample measures.
#[derive(Clone, Copy, Debug, PartialEq, Eq, Structural)]
pub enum SampleType {
    ElectricityConsumption,
    ElectricityProduction,
    GasConsumption,
    Temperature,
    Pressure,
    Flow,
    Humidity,
    Time,
}

/// How successive values of a sample relate: a counter never decreases, a gauge
/// is an instantaneous reading.
#[derive(Clone, Copy, Debug, PartialEq, Eq, Structural)]
pub enum MetricType {
    Counter,
    Gauge,
}

/// Which logical entity the discovered devices belong to.
#[derive(Debug, PartialEq, Eq)]
pub struct Config {
    pub location: String,
    pub entity_type: EntityType,
    pub entity_name: String,
}

/// A `Config` as contracts see it.
pub struct ConfigView {
    pub location: Seq<char>,
    pub entity_type: EntityType,
    pub entity_name: Seq<char>,
}

impl View for Config {
    type V = ConfigView;

    open spec fn view(&self) -> ConfigView {
        ConfigView {
            location: self.location@,
            entity_type: self.entity_type,
            entity_name: self.entity_name@,
        }
    }
}

/// One value of one metric of one entity.
#[derive(Debug, PartialEq, Eq)]
pub struct Sample {
    pub entity_type: EntityType,
    pub entity_name: String,
    pub sample_type: SampleType,
    pub sample_name: String,
    pub metric_type: MetricType,
    /// The value, in thousandths of the sample's unit.
    pub value_milli: u64,
}

/// A `Sample` as contracts see it.
pub struct SampleView {
    pub entity_type: EntityType,
    pub entity_name: Seq<char>,
    pub sample_type: SampleType,
    pub sample_name: Seq<char>,
    pub metric_type: MetricType,
    pub value_milli: u64,
}

impl View for Sample {
    type V = SampleView;

    open spec fn view(&self) -> SampleView {
        SampleView {
            entity_type: self.entity_type,
            entity_name: self.entity_name@,
            sample_type: self.sample_type,
            sample_name: self.sample_name@,
            metric_type: self.metric_type,
            value_milli: self.value_milli,
        }
    }
}

impl Clone for Sample {
    fn clone(&self) -> (copy: Self)
        ensures
            copy == *self,
    {
        Sample {
            entity_type: self.entity_type,
            entity_name: self.entity_name.clone(),
            sample_type: self.sample_type,
            sample_name: self.sample_name.clone(),
            metric_type: self.metric_type,
            value_milli: self.value_milli,
        }
    }
}

/// The views of a sequence of samples, in order.
pub open spec fn sample_views(samples: Seq<Sample>) -> Seq<SampleView> {
    Seq::new(samples.len(), |i: int| samples[i]@)
}

/// Two samples correspond when they agree in everything but the value.
pub open spec fn corresponds(a: SampleView, b: SampleView) -> bool {
    &&& a.entity_type == b.entity_type
    &&& a.entity_name == b.entity_name
    &&& a.sample_type == b.sample_type
    &&& a.sample_name == b.sample_name
    &&& a.metric_type == b.metric_type
}

impl Sample {
    /// Whether `self` and `other` agree in everything but the value.
    pub fn corresponds_to(&self, other: &Sample) -> (same: bool)
        ensures
            same == corresponds(self@, other@),
    {
        self.entity_type == other.entity_type && self.entity_name == other.entity_name
            && self.sample_type == other.sample_type && self.sample_name == other.sample_name
            && self.metric_type == other.metric_type
    }
}

/// An instant: seconds since the Unix epoch, and nanoseconds into that second.
#[derive(Clone, Copy, Debug, PartialEq, Eq, Structural)]
pub struct Timestamp {
    pub seconds: i64,
    pub nanoseconds: u32,
}

/// The samples of one polling cycle.
#[derive(Debug, PartialEq, Eq)]
pub struct Measurement {
    /// An opaque token, unique to this measurement.
    pub id: String,
    /// The name of the producer.
    pub source: String,
    pub location: String,
    pub samples: Vec<Sample>,
    pub measured_at_time: Timestamp,
}

/// A `Measurement` as contracts see it.
pub struct MeasurementView {
    pub id: Seq<char>,
    pub source: Seq<char>,
    pub location: Seq<char>,
    pub samples: Seq<SampleView>,
    pub measured_at_time: Timestamp,
}

impl View for Measurement {
    type V = MeasurementView;

    open spec fn view(&self) -> MeasurementView {
        MeasurementView {
            id: self.id@,
            source: self.source@,
            location: self.location@,
            samples: sample_views(self.samples@),
            measured_at_time: self.measured_at_time,
        }
    }
}

} // verus!
