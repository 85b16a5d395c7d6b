//! From device replies to samples.
//!
//! A plug that reports both its system information and its energy readings gives
//! two samples, named after its alias: a counter with the energy it has delivered,
//! in watt-seconds, and a gauge with the power it draws, in watts. A plug that
//! leaves either part out gives none.

use vstd::prelude::*;
use crate::device::{device_views, DeviceInfoResponse, DeviceView};
use crate::model::{sample_views, Config, ConfigView, MetricType, Sample, SampleType, SampleView};

verus! {

/// Watt-seconds in a watt-hour.
pub const SECONDS_PER_HOUR: u64 = 3600;

/// Thousandths in a unit: the scale of `value_milli`.
pub const MILLIS_PER_UNIT: u64 = 1000;

/// `total_watt_hour` watt-hours in thousandths of a watt-second: the watt-hours
/// times 3600.
pub open spec fn energy_value_milli(total_watt_hour: u32) -> int {
    total_watt_hour * SECONDS_PER_HOUR * MILLIS_PER_UNIT
}

/// `power_milli_watt` milliwatts in thousandths of a watt: the milliwatts divided
/// by 1000, which in thousandths is the same number.
pub open spec fn power_value_milli(power_milli_watt: u32) -> int {
    power_milli_watt as int
}

/// The samples that one reply gives: counter first, then gauge.
pub open spec fn device_samples(config: ConfigView, device: DeviceView) -> Seq<SampleView> {
    match (device.system, device.e_meter) {
        (Some(info), Some(real_time)) => seq![
            SampleView {
                entity_type: config.entity_type,
                entity_name: config.entity_name,
                sample_type: SampleType::ElectricityConsumption,
                sample_name: info.alias,
                metric_type: MetricType::Counter,
                value_milli: energy_value_milli(real_time.total_watt_hour) as u64,
            },
            SampleView {
                entity_type: config.entity_type,
                entity_name: config.entity_name,
                sample_type: SampleType::ElectricityConsumption,
                sample_name: info.alias,
                metric_type: MetricType::Gauge,
                value_milli: power_value_milli(real_time.power_milli_watt) as u64,
            },
        ],
        _ => Seq::empty(),
    }
}

/// The samples that the replies `devices` give, in the order of the replies.
pub open spec fn assemble_spec(config: ConfigView, devices: Seq<DeviceView>) -> Seq<SampleView>
    decreases devices.len(),
{
    if devices.len() == 0 {
        Seq::empty()
    } else {
        assemble_spec(config, devices.drop_last()) + device_samples(config, devices.last())
    }
}

/// Every value fits: the largest energy a reply can hold is far below the largest
/// value a sample can hold.
pub proof fn lemma_values_fit(total_watt_hour: u32, power_milli_watt: u32)
    ensures
        0 <= energy_value_milli(total_watt_hour) <= u64::MAX,
        0 <= power_value_milli(power_milli_watt) <= u64::MAX,
{
}

/// There are at most two samples for each reply, and none where there is no reply.
pub proof fn lemma_assemble_len(config: ConfigView, devices: Seq<DeviceView>)
    ensures
        assemble_spec(config, devices).len() <= 2 * devices.len(),
    decreases devices.len(),
{
    if devices.len() > 0 {
        lemma_assemble_len(config, devices.drop_last());
    }
}

/// The samples of `devices`, for the entity that `config` names.
pub fn assemble_samples(config: &Config, devices: &Vec<DeviceInfoResponse>) -> (samples: Vec<
    Sample,
>)
    ensures
        sample_views(samples@) == assemble_spec(config@, device_views(devices@)),
{
    let mut samples: Vec<Sample> = Vec::new();
    let ghost all = device_views(devices@);
    let mut i: usize = 0;
    assert(sample_views(samples@) =~= assemble_spec(config@, all.take(0)));
    while i < devices.len()
        invariant
            i <= devices.len(),
            all == device_views(devices@),
            sample_views(samples@) == assemble_spec(config@, all.take(i as int)),
        decreases devices.len() - i,
    {
        let device = &devices[i];
        let ghost before = sample_views(samples@);
        proof {
            assert(all.take(i + 1).drop_last() =~= all.take(i as int));
            assert(all.take(i + 1).last() == device@);
        }
        match (&device.system, &device.e_meter) {
            (Some(system), Some(e_meter)) => {
                proof {
                    lemma_values_fit(
                        e_meter.real_time.total_watt_hour,
                        e_meter.real_time.power_milli_watt,
                    );
                }
                let total: u64 = e_meter.real_time.total_watt_hour as u64;
                samples.push(
                    Sample {
                        entity_type: config.entity_type,
                        entity_name: config.entity_name.clone(),
                        sample_type: SampleType::ElectricityConsumption,
                        sample_name: system.info.alias.clone(),
                        metric_type: MetricType::Counter,
                        value_milli: total * SECONDS_PER_HOUR * MILLIS_PER_UNIT,
                    },
                );
                samples.push(
                    Sample {
                        entity_type: config.entity_type,
                        entity_name: config.entity_name.clone(),
                        sample_type: SampleType::ElectricityConsumption,
                        sample_name: system.info.alias.clone(),
                        metric_type: MetricType::Gauge,
                        value_milli: e_meter.real_time.power_milli_watt as u64,
                    },
                );
                assert(sample_views(samples@) =~= before + device_samples(config@, device@));
            },
            _ => {
                assert(sample_views(samples@) =~= before + device_samples(config@, device@));
            },
        }
        i = i + 1;
    }
    assert(all.take(i as int) =~= all);
    samples
}

} // verus!
