//! The effect of a job on the stockyard.

use vstd::prelude::*;
use crate::job::Job;
use crate::stock::producer_consumer::{Rates, StockyardProducerConsumer};
use crate::stock::StockPerSecond;

verus! {

/// Marks the effect of a job.
#[derive(Debug, Clone, Copy)]
pub struct JobSpc;

impl Default for JobSpc {
    fn default() -> JobSpc {
        JobSpc
    }
}

/// What `count` followers change who each change what the list says.
pub open spec fn rates_of(list: Seq<StockPerSecond>, count: u32) -> Rates {
    Seq::new(list.len(), |i: int| (list[i].kind, list[i].per_second.spec_times(count)))
}

/// What `count` followers change who each change what the list says.
fn rates_for(list: &Vec<StockPerSecond>, count: u32) -> (r: Vec<(crate::stock::StockKind, crate::fixed::PerSecond)>)
    ensures
        r@ == rates_of(list@, count),
{
    let mut out: Vec<(crate::stock::StockKind, crate::fixed::PerSecond)> = Vec::new();
    let mut i: usize = 0;
    while i < list.len()
        invariant
            i <= list.len(),
            out@.len() == i,
            forall|k: int| 0 <= k < i ==> out@[k] == rates_of(list@, count)[k],
        decreases list.len() - i,
    {
        let scaled: StockPerSecond = list[i].times(count);
        out.push((scaled.kind, scaled.per_second));
        i = i + 1;
    }
    proof {
        assert(out@ =~= rates_of(list@, count));
    }
    out
}

/// Before consumption: the job asks for what its followers use.
pub fn preconsume(job: &Job, spc: &mut StockyardProducerConsumer)
    ensures
        final(spc).consumes@ == rates_of(job.consumes@, job.followers_assigned),
        final(spc).produces == old(spc).produces,
        final(spc).fulfillment() == old(spc).fulfillment(),
        final(spc).multiplier() == old(spc).multiplier(),
{
    spc.consumes = rates_for(&job.consumes, job.followers_assigned);
}

/// After consumption: the job makes what its followers make when they get
/// all that they use. The production step cuts it down to what they got.
pub fn postconsume(job: &Job, spc: &mut StockyardProducerConsumer)
    ensures
        final(spc).produces@ == rates_of(job.produces@, job.followers_assigned),
        final(spc).consumes == old(spc).consumes,
        final(spc).fulfillment() == old(spc).fulfillment(),
        final(spc).multiplier() == old(spc).multiplier(),
{
    spc.produces = rates_for(&job.produces, job.followers_assigned);
}

} // verus!
