//! The jobs of the followers.

pub mod spc;

use vstd::prelude::*;
use crate::fixed::{PerSecond, UNIT};
use crate::stock::producer_consumer::StockyardProducerConsumer;
use crate::stock::stockyard::Stockyard;
use crate::stock::{StockKind, StockPerSecond};

verus! {

/// The number of kinds of job.
pub const JOB_COUNT: usize = 4;

/// A kind of job that a follower can be given.
#[derive(Debug, Clone, Copy, PartialEq, Eq, Structural, Hash)]
pub enum JobKind {
    ChopWood,
    Hunt,
    RenderCarcass,
    Cook,
}

impl JobKind {
    /// The place of the kind in the list of jobs.
    pub open spec fn spec_index(self) -> int {
        match self {
            JobKind::ChopWood => 0,
            JobKind::Hunt => 1,
            JobKind::RenderCarcass => 2,
            JobKind::Cook => 3,
        }
    }

    /// The kinds of stock that one follower in the job makes a unit of in
    /// a second.
    pub open spec fn spec_made(self) -> Seq<StockKind> {
        match self {
            JobKind::ChopWood => seq![StockKind::Wood],
            JobKind::Hunt => seq![StockKind::Carcass],
            JobKind::RenderCarcass => seq![StockKind::Meat, StockKind::Bone],
            JobKind::Cook => seq![StockKind::Food],
        }
    }

    /// The kinds of stock that one follower in the job uses a unit of in a
    /// second.
    pub open spec fn spec_used(self) -> Seq<StockKind> {
        match self {
            JobKind::ChopWood => seq![],
            JobKind::Hunt => seq![],
            JobKind::RenderCarcass => seq![StockKind::Carcass],
            JobKind::Cook => seq![StockKind::Meat, StockKind::Wood],
        }
    }

    /// Every kind of job, in the order in which the player sees them.
    pub fn list() -> (r: [JobKind; 4])
        ensures
            r@ == seq![JobKind::ChopWood, JobKind::Hunt, JobKind::RenderCarcass, JobKind::Cook],
            forall|i: int| 0 <= i < 4 ==> (#[trigger] r@[i]).spec_index() == i,
    {
        [JobKind::ChopWood, JobKind::Hunt, JobKind::RenderCarcass, JobKind::Cook]
    }

    /// The place of the kind in the list of jobs.
    pub fn index(self) -> (r: usize)
        ensures
            r == self.spec_index(),
            r < JOB_COUNT,
    {
        match self {
            JobKind::ChopWood => 0,
            JobKind::Hunt => 1,
            JobKind::RenderCarcass => 2,
            JobKind::Cook => 3,
        }
    }

    /// What one follower in the job makes and what it uses, in that order:
    /// one unit in a second of each kind named.
    pub fn base_production_consumption(&self) -> (r: (Vec<StockPerSecond>, Vec<StockPerSecond>))
        ensures
            whole_rates(r.0@, self.spec_made()),
            whole_rates(r.1@, self.spec_used()),
    {
        let mut made: Vec<StockPerSecond> = Vec::new();
        let mut used: Vec<StockPerSecond> = Vec::new();
        match self {
            JobKind::ChopWood => {
                made.push(StockPerSecond::new(StockKind::Wood, PerSecond(1_000_000)));
            },
            JobKind::Hunt => {
                made.push(StockPerSecond::new(StockKind::Carcass, PerSecond(1_000_000)));
            },
            JobKind::RenderCarcass => {
                made.push(StockPerSecond::new(StockKind::Meat, PerSecond(1_000_000)));
                made.push(StockPerSecond::new(StockKind::Bone, PerSecond(1_000_000)));
                used.push(StockPerSecond::new(StockKind::Carcass, PerSecond(1_000_000)));
            },
            JobKind::Cook => {
                made.push(StockPerSecond::new(StockKind::Food, PerSecond(1_000_000)));
                used.push(StockPerSecond::new(StockKind::Meat, PerSecond(1_000_000)));
                used.push(StockPerSecond::new(StockKind::Wood, PerSecond(1_000_000)));
            },
        }
        (made, used)
    }

    /// The name of the job as the player reads it.
    pub fn name(&self) -> (r: &'static str)
        ensures
            r@ == self.spec_name(),
    {
        match self {
            JobKind::ChopWood => "Chop Wood",
            JobKind::Hunt => "Hunt",
            JobKind::RenderCarcass => "Render Carcasses",
            JobKind::Cook => "Cook",
        }
    }

    /// The name of the job as the player reads it.
    pub open spec fn spec_name(self) -> Seq<char> {
        match self {
            JobKind::ChopWood => "Chop Wood"@,
            JobKind::Hunt => "Hunt"@,
            JobKind::RenderCarcass => "Render Carcasses"@,
            JobKind::Cook => "Cook"@,
        }
    }
}

/// Whether a list holds one unit in a second of each of the kinds, in
/// their order.
pub open spec fn whole_rates(list: Seq<StockPerSecond>, kinds: Seq<StockKind>) -> bool {
    &&& list.len() == kinds.len()
    &&& forall|i: int|
        0 <= i < list.len() ==> (#[trigger] list[i]).kind == kinds[i] && list[i].per_second.0
            == UNIT
}

/// A job with the followers that do it.
#[derive(Debug)]
pub struct Job {
    pub kind: JobKind,
    pub followers_assigned: u32,
    /// What one follower makes.
    pub produces: Vec<StockPerSecond>,
    /// What one follower uses.
    pub consumes: Vec<StockPerSecond>,
}

/// Whether a list of jobs holds each kind of job once, at its place.
pub open spec fn jobs_in_order(jobs: Seq<Job>) -> bool {
    &&& jobs.len() == JOB_COUNT
    &&& forall|i: int| 0 <= i < JOB_COUNT ==> (#[trigger] jobs[i]).kind.spec_index() == i
}

/// The number of followers that do any job.
pub open spec fn followers_in_jobs(jobs: Seq<Job>) -> nat
    decreases jobs.len(),
{
    if jobs.len() == 0 {
        0
    } else {
        followers_in_jobs(jobs.drop_last()) + jobs.last().followers_assigned as nat
    }
}

/// The number of followers that do any job, written out for the four
/// jobs.
pub proof fn lemma_followers_in_jobs(jobs: Seq<Job>)
    requires
        jobs.len() == JOB_COUNT,
    ensures
        followers_in_jobs(jobs) == jobs[0].followers_assigned + jobs[1].followers_assigned
            + jobs[2].followers_assigned + jobs[3].followers_assigned,
{
    let three = jobs.drop_last();
    let two = three.drop_last();
    let one = two.drop_last();
    let none = one.drop_last();
    assert(none.len() == 0);
    assert(followers_in_jobs(none) == 0);
    assert(one.last() == jobs[0]);
    assert(two.last() == jobs[1]);
    assert(three.last() == jobs[2]);
    assert(jobs.last() == jobs[3]);
    assert(followers_in_jobs(one) == followers_in_jobs(none) + one.last().followers_assigned);
    assert(followers_in_jobs(one) == jobs[0].followers_assigned);
    assert(followers_in_jobs(two) == followers_in_jobs(one) + jobs[1].followers_assigned);
    assert(followers_in_jobs(three) == followers_in_jobs(two) + jobs[2].followers_assigned);
}

/// The jobs before the first tick, each with no follower and with its own
/// effect, which asks for nothing yet.
pub fn initialize_jobs() -> (r: (Vec<Job>, Vec<StockyardProducerConsumer>))
    ensures
        jobs_in_order(r.0@),
        r.1@.len() == JOB_COUNT,
        forall|i: int|
            0 <= i < JOB_COUNT ==> {
                &&& (#[trigger] r.0@[i]).followers_assigned == 0
                &&& whole_rates(r.0@[i].produces@, r.0@[i].kind.spec_made())
                &&& whole_rates(r.0@[i].consumes@, r.0@[i].kind.spec_used())
                &&& r.1@[i].wf()
                &&& r.1@[i].consumes@.len() == 0
                &&& r.1@[i].produces@.len() == 0
            },
        followers_in_jobs(r.0@) == 0,
{
    let kinds: [JobKind; 4] = JobKind::list();
    let mut jobs: Vec<Job> = Vec::new();
    let mut effects: Vec<StockyardProducerConsumer> = Vec::new();
    let mut i: usize = 0;
    while i < 4
        invariant
            i <= 4,
            kinds@ == seq![JobKind::ChopWood, JobKind::Hunt, JobKind::RenderCarcass, JobKind::Cook],
            jobs@.len() == i,
            effects@.len() == i,
            forall|k: int|
                0 <= k < i ==> {
                    &&& (#[trigger] jobs@[k]).kind.spec_index() == k
                    &&& jobs@[k].followers_assigned == 0
                    &&& whole_rates(jobs@[k].produces@, jobs@[k].kind.spec_made())
                    &&& whole_rates(jobs@[k].consumes@, jobs@[k].kind.spec_used())
                    &&& effects@[k].wf()
                    &&& effects@[k].consumes@.len() == 0
                    &&& effects@[k].produces@.len() == 0
                },
        decreases 4 - i,
    {
        let kind: JobKind = kinds[i];
        let (production, consumption) = kind.base_production_consumption();
        jobs.push(Job { kind, followers_assigned: 0, produces: production, consumes: consumption });
        effects.push(StockyardProducerConsumer::default());
        i = i + 1;
    }
    proof {
        lemma_followers_in_jobs(jobs@);
    }
    (jobs, effects)
}

/// The number of followers that do any job. It never exceeds the number of
/// followers in the stockyard when a follower is given a job.
#[derive(Debug, Clone, Copy)]
pub struct FollowersAssigned(pub u32);

impl Default for FollowersAssigned {
    fn default() -> (r: FollowersAssigned)
        ensures
            r.0 == 0,
    {
        FollowersAssigned(0)
    }
}

/// A follower is to be given a job.
#[derive(Debug, Clone, Copy)]
pub struct AssignFollower {
    pub job_kind: JobKind,
}

/// A follower is to be taken from a job.
#[derive(Debug, Clone, Copy)]
pub struct UnassignFollower {
    pub job_kind: JobKind,
}

/// Whether a follower is free to be given a job: more followers are held,
/// counted in whole, than do a job, and one more can be counted.
pub open spec fn follower_free(stockyard: Stockyard, assigned: u32) -> bool {
    stockyard.stock(StockKind::Followers).current() > assigned * UNIT && assigned < u32::MAX
}

/// Whether a list of jobs is `before` with `change` applied to the number
/// of followers in the job of a kind, and to nothing else.
pub open spec fn jobs_changed(before: Seq<Job>, after: Seq<Job>, kind: JobKind, change: int) -> bool {
    &&& after.len() == before.len()
    &&& forall|i: int|
        0 <= i < before.len() ==> {
            &&& (#[trigger] after[i]).kind == before[i].kind
            &&& after[i].produces == before[i].produces
            &&& after[i].consumes == before[i].consumes
            &&& after[i].followers_assigned == if i == kind.spec_index() {
                before[i].followers_assigned + change
            } else {
                before[i].followers_assigned as int
            }
        }
}

/// Gives a follower the job of the event, if a follower is free, and tells
/// whether it did.
pub fn on_assign_follower(
    event: &AssignFollower,
    followers_assigned: &mut FollowersAssigned,
    stockyard: &Stockyard,
    jobs: &mut Vec<Job>,
) -> (assigned: bool)
    requires
        stockyard.wf(),
        jobs_in_order(old(jobs)@),
        followers_in_jobs(old(jobs)@) == old(followers_assigned).0,
    ensures
        jobs_in_order(final(jobs)@),
        followers_in_jobs(final(jobs)@) == final(followers_assigned).0,
        assigned == follower_free(*stockyard, old(followers_assigned).0),
        assigned ==> final(followers_assigned).0 == old(followers_assigned).0 + 1
            && jobs_changed(old(jobs)@, final(jobs)@, event.job_kind, 1),
        !assigned ==> final(followers_assigned).0 == old(followers_assigned).0 && jobs_changed(
            old(jobs)@,
            final(jobs)@,
            event.job_kind,
            0,
        ),
{
    let total: u32 = followers_assigned.0;
    let held: u64 = stockyard.get(StockKind::Followers).amount();
    if held <= (total as u64) * 1_000_000 || total == u32::MAX {
        return false;
    }
    proof {
        lemma_followers_in_jobs(jobs@);
    }
    followers_assigned.0 = total + 1;
    let place: usize = event.job_kind.index();
    let before: u32 = jobs[place].followers_assigned;
    jobs[place].followers_assigned = before + 1;
    proof {
        lemma_followers_in_jobs(jobs@);
    }
    true
}

/// Takes a follower from the job of the event, if one does it, and tells
/// whether it did.
pub fn on_unassign_follower(
    event: &UnassignFollower,
    followers_assigned: &mut FollowersAssigned,
    jobs: &mut Vec<Job>,
) -> (unassigned: bool)
    requires
        jobs_in_order(old(jobs)@),
        followers_in_jobs(old(jobs)@) == old(followers_assigned).0,
    ensures
        jobs_in_order(final(jobs)@),
        followers_in_jobs(final(jobs)@) == final(followers_assigned).0,
        unassigned == (old(jobs)@[event.job_kind.spec_index()].followers_assigned > 0),
        unassigned ==> final(followers_assigned).0 == old(followers_assigned).0 - 1
            && jobs_changed(old(jobs)@, final(jobs)@, event.job_kind, -1),
        !unassigned ==> final(followers_assigned).0 == old(followers_assigned).0
            && jobs_changed(old(jobs)@, final(jobs)@, event.job_kind, 0),
{
    let place: usize = event.job_kind.index();
    let before: u32 = jobs[place].followers_assigned;
    if before == 0 {
        return false;
    }
    proof {
        lemma_followers_in_jobs(jobs@);
    }
    jobs[place].followers_assigned = before - 1;
    followers_assigned.0 = followers_assigned.0 - 1;
    proof {
        lemma_followers_in_jobs(jobs@);
    }
    true
}

} // verus!
