//! Guarding counters against spurious jumps between polling cycles.
//!
//! Each sample of the current cycle is held against the first sample of the
//! previous cycle that corresponds to it. A counter that has grown by more than a
//! tenth since then is not believed: the previous sample is published in its
//! place. Everything else passes through.

use vstd::prelude::*;
use crate::model::{corresponds, sample_views, MetricType, Sample, SampleView};

verus! {

/// Whether `current` is more than 10 percent larger than `previous`, that is,
/// whether `current / previous > 1.1`. Against a previous value of 0 every
/// current value but 0 is.
pub open spec fn exceeds_threshold(current: u64, previous: u64) -> bool {
    10 * current > 11 * previous
}

/// The first of `previous` that corresponds to `sample`, if any does.
pub open spec fn first_corresponding(sample: SampleView, previous: Seq<SampleView>) -> Option<
    SampleView,
>
    decreases previous.len(),
{
    if previous.len() == 0 {
        None
    } else if corresponds(sample, previous.first()) {
        Some(previous.first())
    } else {
        first_corresponding(sample, previous.drop_first())
    }
}

/// Whether `sample` is to be replaced by `matching`, the previous sample that
/// corresponds to it.
pub open spec fn suppressed(sample: SampleView, matching: SampleView) -> bool {
    sample.metric_type == MetricType::Counter && exceeds_threshold(
        sample.value_milli,
        matching.value_milli,
    )
}

/// What is published for `sample`, given the samples of the previous cycle.
pub open spec fn sanitize_sample(sample: SampleView, previous: Seq<SampleView>) -> SampleView {
    match first_corresponding(sample, previous) {
        Some(matching) => if suppressed(sample, matching) {
            matching
        } else {
            sample
        },
        None => sample,
    }
}

/// What is published for the samples `current`, given those of the previous cycle.
pub open spec fn sanitize_spec(current: Seq<SampleView>, previous: Seq<SampleView>) -> Seq<
    SampleView,
> {
    Seq::new(current.len(), |i: int| sanitize_sample(current[i], previous))
}

/// `first_corresponding` finds the corresponding sample of least index: it is
/// `None` exactly when no sample of `previous` corresponds, and otherwise the
/// sample at an index before which none corresponds.
pub proof fn lemma_first_corresponding(sample: SampleView, previous: Seq<SampleView>)
    ensures
        first_corresponding(sample, previous) is None <==> forall|j: int|
            0 <= j < previous.len() ==> !corresponds(sample, #[trigger] previous[j]),
        first_corresponding(sample, previous) is Some ==> exists|j: int|
            {
                &&& 0 <= j < previous.len()
                &&& first_corresponding(sample, previous) == Some(#[trigger] previous[j])
                &&& corresponds(sample, previous[j])
                &&& forall|k: int| 0 <= k < j ==> !corresponds(sample, #[trigger] previous[k])
            },
    decreases previous.len(),
{
    if previous.len() == 0 {
    } else if corresponds(sample, previous.first()) {
        assert(first_corresponding(sample, previous) == Some(previous[0]));
    } else {
        let rest = previous.drop_first();
        lemma_first_corresponding(sample, rest);
        assert(forall|j: int| 0 <= j < rest.len() ==> rest[j] == previous[j + 1]);
        if first_corresponding(sample, rest) is Some {
            let j = choose|j: int|
                {
                    &&& 0 <= j < rest.len()
                    &&& first_corresponding(sample, rest) == Some(#[trigger] rest[j])
                    &&& corresponds(sample, rest[j])
                    &&& forall|k: int| 0 <= k < j ==> !corresponds(sample, #[trigger] rest[k])
                };
            assert(first_corresponding(sample, previous) == Some(previous[j + 1]));
            assert forall|k: int| 0 <= k < j + 1 implies !corresponds(
                sample,
                #[trigger] previous[k],
            ) by {
                if k > 0 {
                    assert(previous[k] == rest[k - 1]);
                }
            }
        } else {
            assert forall|j: int| 0 <= j < previous.len() implies !corresponds(
                sample,
                #[trigger] previous[j],
            ) by {
                if j > 0 {
                    assert(previous[j] == rest[j - 1]);
                }
            }
        }
    }
}

/// With nothing to compare against, the samples pass through unchanged.
pub proof fn lemma_sanitize_without_previous(current: Seq<SampleView>)
    ensures
        sanitize_spec(current, Seq::empty()) == current,
{
    assert(sanitize_spec(current, Seq::empty()) =~= current);
}

/// No sample is dropped or added, and none changes its place: the result is as
/// long as `current`, and what stands at an index corresponds to what stood
/// there.
pub proof fn lemma_sanitize_keeps_shape(current: Seq<SampleView>, previous: Seq<SampleView>)
    ensures
        sanitize_spec(current, previous).len() == current.len(),
        forall|i: int|
            0 <= i < current.len() ==> corresponds(
                current[i],
                #[trigger] sanitize_spec(current, previous)[i],
            ),
{
    assert forall|i: int| 0 <= i < current.len() implies corresponds(
        current[i],
        #[trigger] sanitize_spec(current, previous)[i],
    ) by {
        lemma_first_corresponding(current[i], previous);
    }
}

/// A gauge is never replaced, whatever the previous cycle held.
pub proof fn lemma_sanitize_keeps_gauges(
    current: Seq<SampleView>,
    previous: Seq<SampleView>,
    i: int,
)
    requires
        0 <= i < current.len(),
        current[i].metric_type == MetricType::Gauge,
    ensures
        sanitize_spec(current, previous)[i] == current[i],
{
}

/// A counter is replaced exactly when it is more than 10 percent larger than the
/// first previous sample that corresponds to it, and then by that sample.
pub proof fn lemma_sanitize_counter(
    current: Seq<SampleView>,
    previous: Seq<SampleView>,
    i: int,
    j: int,
)
    requires
        0 <= i < current.len(),
        0 <= j < previous.len(),
        current[i].metric_type == MetricType::Counter,
        corresponds(current[i], previous[j]),
        forall|k: int| 0 <= k < j ==> !corresponds(current[i], #[trigger] previous[k]),
    ensures
        sanitize_spec(current, previous)[i] == if exceeds_threshold(
            current[i].value_milli,
            previous[j].value_milli,
        ) {
            previous[j]
        } else {
            current[i]
        },
{
    lemma_first_corresponding(current[i], previous);
}

/// The index of the first of `previous` that corresponds to `sample`.
fn find_corresponding(sample: &Sample, previous: &Vec<Sample>) -> (found: Option<usize>)
    ensures
        match found {
            Some(j) => j < previous.len() && first_corresponding(
                sample@,
                sample_views(previous@),
            ) == Some(previous@[j as int]@),
            None => first_corresponding(sample@, sample_views(previous@)) is None,
        },
{
    let ghost views = sample_views(previous@);
    let mut j: usize = 0;
    assert(views.skip(0) =~= views);
    while j < previous.len()
        invariant
            j <= previous.len(),
            views == sample_views(previous@),
            first_corresponding(sample@, views) == first_corresponding(
                sample@,
                views.skip(j as int),
            ),
        decreases previous.len() - j,
    {
        proof {
            assert(views.skip(j as int).first() == previous@[j as int]@);
            assert(views.skip(j as int).drop_first() =~= views.skip(j + 1));
        }
        if sample.corresponds_to(&previous[j]) {
            return Some(j);
        }
        j = j + 1;
    }
    assert(views.skip(j as int).len() == 0);
    None
}

/// Whether `current / previous > 1.1`, computed without overflow.
pub fn exceeds(current: u64, previous: u64) -> (over: bool)
    ensures
        over == exceeds_threshold(current, previous),
{
    (current as u128) * 10 > (previous as u128) * 11
}

/// Replaces every counter of `current_samples` that is more than 10 percent larger
/// than the corresponding sample of `last_samples` by that sample.
pub fn sanitize_samples(current_samples: Vec<Sample>, last_samples: &Vec<Sample>) -> (sanitized:
    Vec<Sample>)
    ensures
        sample_views(sanitized@) == sanitize_spec(
            sample_views(current_samples@),
            sample_views(last_samples@),
        ),
{
    let mut sanitized = current_samples;
    let ghost previous = sample_views(last_samples@);
    let mut i: usize = 0;
    while i < sanitized.len()
        invariant
            i <= sanitized.len(),
            sanitized.len() == current_samples.len(),
            previous == sample_views(last_samples@),
            forall|k: int|
                0 <= k < i ==> (#[trigger] sanitized@[k])@ == sanitize_sample(
                    current_samples@[k]@,
                    previous,
                ),
            forall|k: int| i <= k < sanitized.len() ==> #[trigger] sanitized@[k] == current_samples@[k],
        decreases sanitized.len() - i,
    {
        match find_corresponding(&sanitized[i], last_samples) {
            Some(j) => {
                let last_sample = &last_samples[j];
                if sanitized[i].metric_type == MetricType::Counter && exceeds(
                    sanitized[i].value_milli,
                    last_sample.value_milli,
                ) {
                    sanitized.set(i, last_sample.clone());
                }
            },
            None => {},
        }
        i = i + 1;
    }
    assert(sample_views(sanitized@) =~= sanitize_spec(sample_views(current_samples@), previous));
    sanitized
}

} // verus!
