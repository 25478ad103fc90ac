//! Metrics and the buffer that a collector fills.

use vstd::prelude::*;

use super::tags::MetricTags;

verus! {

/// A number as the host reports it.
#[derive(Clone, Copy, Debug, PartialEq, Eq, Structural)]
pub enum Reading {
    /// A whole number.
    Count(u64),
    /// A single-precision number, by its IEEE 754 bits.
    Float32(u32),
}

/// What a metric measures.
#[derive(Clone, Copy, Debug, PartialEq, Eq, Structural)]
pub enum MetricValue {
    /// A total that only grows.
    Counter { value: Reading },
    /// A value that goes up and down.
    Gauge { value: Reading },
}

/// A named, tagged measurement.
#[derive(Debug)]
pub struct Metric {
    pub name: &'static str,
    pub value: MetricValue,
    pub tags: MetricTags,
}

/// A metric, as contracts speak of it.
#[verifier::ext_equal]
pub struct MetricView {
    pub name: Seq<char>,
    pub value: MetricValue,
    pub tags: Map<Seq<char>, Seq<char>>,
}

impl View for Metric {
    type V = MetricView;

    open spec fn view(&self) -> MetricView {
        MetricView { name: self.name@, value: self.value, tags: self.tags@ }
    }
}

/// The metrics of a collection run, and the collector that adds to them.
#[derive(Debug)]
pub struct MetricsBuffer {
    pub metrics: Vec<Metric>,
    pub name: &'static str,
}

impl View for MetricsBuffer {
    type V = Seq<MetricView>;

    open spec fn view(&self) -> Seq<MetricView> {
        self.metrics@.map_values(|metric: Metric| metric@)
    }
}

impl MetricsBuffer {
    /// An empty buffer.
    pub fn new() -> (buffer: MetricsBuffer)
        ensures
            buffer@ == Seq::<MetricView>::empty(),
            buffer.name@ == ""@,
    {
        let buffer: MetricsBuffer = MetricsBuffer { metrics: Vec::new(), name: "" };
        assert(buffer@ =~= Seq::<MetricView>::empty());
        buffer
    }

    fn push(&mut self, name: &'static str, value: MetricValue, tags: MetricTags)
        ensures
            final(self)@ == old(self)@.push(MetricView { name: name@, value, tags: tags@ }),
            final(self).name == old(self).name,
    {
        self.metrics.push(Metric { name, value, tags });
        assert(self@ =~= old(self)@.push(MetricView { name: name@, value, tags: tags@ }));
    }

    /// Adds a counter.
    pub fn counter(&mut self, name: &'static str, value: Reading, tags: MetricTags)
        ensures
            final(self)@ == old(self)@.push(
                MetricView { name: name@, value: MetricValue::Counter { value }, tags: tags@ },
            ),
            final(self).name == old(self).name,
    {
        self.push(name, MetricValue::Counter { value }, tags);
    }

    /// Adds a gauge.
    pub fn gauge(&mut self, name: &'static str, value: Reading, tags: MetricTags)
        ensures
            final(self)@ == old(self)@.push(
                MetricView { name: name@, value: MetricValue::Gauge { value }, tags: tags@ },
            ),
            final(self).name == old(self).name,
    {
        self.push(name, MetricValue::Gauge { value }, tags);
    }
}

/// A buffer shows all its metrics in their order, each with its name, its value and its tags.
pub proof fn buffers_show_all_metrics(buffer: MetricsBuffer)
    ensures
        buffer@.len() == buffer.metrics@.len(),
        forall|i: int|
            0 <= i < buffer.metrics@.len() ==> {
                &&& (#[trigger] buffer@[i]).name == buffer.metrics@[i].name@
                &&& buffer@[i].value == buffer.metrics@[i].value
                &&& buffer@[i].tags == buffer.metrics@[i].tags@
            },
{
}

}
