//! The poll scheduler: one independent prober per catalog entry.
use vstd::prelude::*;
use crate::catalog::{EndpointModel, EndpointSpec};
use crate::config::{UserInput, effective_interval_spec};
use crate::prober::{Phase, Prober, ProberModel};

verus! {

/// The prober that the scheduler starts for an endpoint.
pub open spec fn initial_prober(e: EndpointModel, interval: u64) -> ProberModel {
    ProberModel { endpoint: e, interval, phase: Phase::Waiting }
}

/// Makes one prober per catalog entry, in catalog order, each waiting for the
/// effective interval of the input.
pub fn plan_probers(catalog: Vec<EndpointSpec>, input: &UserInput) -> (r: Vec<Prober>)
    ensures
        r@.len() == catalog@.len(),
        forall|i: int|
            0 <= i < r@.len() ==> (#[trigger] r@[i])@ == initial_prober(
                catalog@[i]@,
                effective_interval_spec(input.duration),
            ),
{
    let interval = input.interval();
    let ghost entries = catalog@;
    let mut rest = catalog;
    let mut reversed: Vec<EndpointSpec> = Vec::new();
    while rest.len() > 0
        invariant
            rest@.len() + reversed@.len() == entries.len(),
            rest@ == entries.subrange(0, rest@.len() as int),
            forall|j: int| 0 <= j < reversed@.len() ==> #[trigger] reversed@[j] == entries[entries.len() - 1 - j],
        decreases rest@.len(),
    {
        let e = rest.pop().unwrap();
        reversed.push(e);
    }
    let mut out: Vec<Prober> = Vec::new();
    while reversed.len() > 0
        invariant
            reversed@.len() + out@.len() == entries.len(),
            forall|j: int| 0 <= j < reversed@.len() ==> #[trigger] reversed@[j] == entries[entries.len() - 1 - j],
            interval == effective_interval_spec(input.duration),
            forall|i: int|
                0 <= i < out@.len() ==> (#[trigger] out@[i])@ == initial_prober(entries[i]@, interval),
        decreases reversed@.len(),
    {
        let e = reversed.pop().unwrap();
        out.push(Prober::new(e, interval));
    }
    out
}

} // verus!
