//! The load sampler: the mean depth of the per-core run queues.

use vstd::prelude::*;

verus! {

/// The most entries that a table of run queues reserves room for at start.
pub const MAX_CORES: usize = 65536;

/// The table of run-queue depths, keyed by core id. It wraps the hash map
/// `rustc_hash::FxHashMap<usize, usize>`, which the verifier does not look into.
#[verifier::external_body]
pub struct Queues {
    map: rustc_hash::FxHashMap<usize, usize>,
}

/// The depth that a table holds for each core.
pub uninterp spec fn queue_table(q: Queues) -> Map<usize, usize>;

impl Queues {
    /// `HashMap::with_capacity_and_hasher`: a map without entries, with
    /// room for `cores` of them.
    #[verifier::external_body]
    fn with_capacity(cores: usize) -> (q: Queues)
        requires
            cores <= MAX_CORES,
        ensures
            queue_table(q) == no_depths(),
    {
        Queues { map: rustc_hash::FxHashMap::with_capacity_and_hasher(cores, Default::default()) }
    }

    /// `HashMap::insert`: afterwards the map holds `depth` under `core`, and
    /// the other entries are as before.
    #[verifier::external_body]
    fn insert(&mut self, core: usize, depth: usize)
        ensures
            queue_table(*final(self)) == queue_table(*old(self)).insert(core, depth),
    {
        self.map.insert(core, depth);
    }

    /// `HashMap::clone`: a map with the same entries.
    #[verifier::external_body]
    fn duplicate(&self) -> (q: Queues)
        ensures
            queue_table(q) == queue_table(*self),
    {
        Queues { map: self.map.clone() }
    }

    /// `HashMap::iter`: every entry of the map once, in the order in which
    /// the map happens to be walked.
    #[verifier::external_body]
    fn entries(&self) -> (entries: Vec<(usize, usize)>)
        ensures
            lists(entries@, queue_table(*self)),
    {
        self.map.iter().map(|(core, depth)| (*core, *depth)).collect()
    }
}

/// The table in which no core has a depth.
pub open spec fn no_depths() -> Map<usize, usize> {
    Map::empty()
}

/// `entries` names every key of `depths` once, each with its depth.
pub open spec fn lists(entries: Seq<(usize, usize)>, depths: Map<usize, usize>) -> bool {
    &&& forall|i: int|
        0 <= i < entries.len() ==> depths.contains_pair((#[trigger] entries[i]).0, entries[i].1)
    &&& forall|i: int, j: int|
        0 <= i < j < entries.len() ==> (#[trigger] entries[i]).0 != (#[trigger] entries[j]).0
    &&& forall|core: usize| #[trigger]
        depths.contains_key(core) ==> exists|i: int|
            0 <= i < entries.len() && (#[trigger] entries[i]).0 == core
}

/// The depths of a listing, in its order.
pub open spec fn depths_of(entries: Seq<(usize, usize)>) -> Seq<usize> {
    Seq::new(entries.len(), |i: int| entries[i].1)
}

/// The sum of the depths, wrapping around at the width of the machine word.
pub open spec fn wrapped_sum(depths: Seq<usize>) -> usize
    decreases depths.len(),
{
    if depths.len() == 0 {
        0
    } else {
        wrapped_sum(depths.drop_last()).wrapping_add(depths.last())
    }
}

/// The mean queue depth over `cores` cores; zero where there is no core.
pub open spec fn spec_mean(depths: Seq<usize>, cores: usize) -> usize {
    if cores == 0 {
        0
    } else {
        (wrapped_sum(depths) / cores) as usize
    }
}

/// What the scheduler knows of the load.
pub struct Stats {
    global_run_queue: usize,
    mean_level: usize,
    smp_queues: Queues,
}

impl Stats {
    /// The length of the global run queue.
    pub closed spec fn spec_global_run_queue(&self) -> usize {
        self.global_run_queue
    }

    /// The mean depth that the sampler published last.
    pub closed spec fn spec_mean_level(&self) -> usize {
        self.mean_level
    }

    /// The depth of each core's run queue.
    pub closed spec fn queues(&self) -> Map<usize, usize> {
        queue_table(self.smp_queues)
    }

    /// The length of the global run queue.
    pub fn global_run_queue(&self) -> (n: usize)
        ensures
            n == self.spec_global_run_queue(),
    {
        self.global_run_queue
    }

    /// The mean depth that the sampler published last.
    pub fn mean_level(&self) -> (n: usize)
        ensures
            n == self.spec_mean_level(),
    {
        self.mean_level
    }

    /// Publishes the length of the global run queue.
    pub fn set_global_run_queue(&mut self, n: usize)
        ensures
            final(self).spec_global_run_queue() == n,
            final(self).spec_mean_level() == old(self).spec_mean_level(),
            final(self).queues() == old(self).queues(),
    {
        self.global_run_queue = n;
    }

    /// Publishes a mean depth.
    pub fn set_mean_level(&mut self, mean: usize)
        ensures
            final(self).spec_mean_level() == mean,
            final(self).spec_global_run_queue() == old(self).spec_global_run_queue(),
            final(self).queues() == old(self).queues(),
    {
        self.mean_level = mean;
    }

    /// Publishes the depth of one core's run queue.
    pub fn set_queue_depth(&mut self, core: usize, depth: usize)
        ensures
            final(self).queues() == old(self).queues().insert(core, depth),
            final(self).spec_mean_level() == old(self).spec_mean_level(),
            final(self).spec_global_run_queue() == old(self).spec_global_run_queue(),
    {
        self.smp_queues.insert(core, depth);
    }

    /// The depths of all run queues, each core's once, in no particular order.
    pub fn queue_depths(&self) -> (depths: Vec<usize>)
        ensures
            exists|entries: Seq<(usize, usize)>| #[trigger]
                lists(entries, self.queues()) && depths@ == depths_of(entries),
    {
        let entries = self.smp_queues.entries();
        let mut depths: Vec<usize> = Vec::new();
        let mut i: usize = 0;
        while i < entries.len()
            invariant
                0 <= i <= entries.len(),
                depths@ == depths_of(entries@.take(i as int)),
            decreases entries.len() - i,
        {
            depths.push(entries[i].1);
            i += 1;
            assert(depths@ =~= depths_of(entries@.take(i as int)));
        }
        assert(entries@.take(i as int) =~= entries@);
        assert(lists(entries@, self.queues()) && depths@ == depths_of(entries@));
        depths
    }
}

impl Clone for Stats {
    /// A copy with the same counters and the same depths.
    fn clone(&self) -> (s: Self)
        ensures
            s.spec_global_run_queue() == self.spec_global_run_queue(),
            s.spec_mean_level() == self.spec_mean_level(),
            s.queues() == self.queues(),
    {
        Stats {
            global_run_queue: self.global_run_queue,
            mean_level: self.mean_level,
            smp_queues: self.smp_queues.duplicate(),
        }
    }
}

/// The statistics at start: nothing queued anywhere, with room reserved for
/// `cores` cores, as far as the table reserves room at all.
pub fn stats(cores: usize) -> (s: Stats)
    ensures
        s.spec_global_run_queue() == 0,
        s.spec_mean_level() == 0,
        s.queues() == no_depths(),
{
    let room = if cores <= MAX_CORES {
        cores
    } else {
        MAX_CORES
    };
    Stats { global_run_queue: 0, mean_level: 0, smp_queues: Queues::with_capacity(room) }
}

/// The sampler of the run queues' load.
pub struct LoadBalancer();

impl LoadBalancer {
    /// The mean of the given queue depths over `cores` cores. The sum wraps
    /// around, and no core at all gives zero.
    pub fn mean(depths: &Vec<usize>, cores: usize) -> (m: usize)
        ensures
            m == spec_mean(depths@, cores),
    {
        let mut sum: usize = 0;
        let mut i: usize = 0;
        while i < depths.len()
            invariant
                0 <= i <= depths.len(),
                sum == wrapped_sum(depths@.take(i as int)),
            decreases depths.len() - i,
        {
            assert(depths@.take(i + 1).drop_last() =~= depths@.take(i as int));
            sum = sum.wrapping_add(depths[i]);
            i += 1;
        }
        assert(depths@.take(i as int) =~= depths@);
        if cores == 0 {
            0
        } else {
            sum / cores
        }
    }

    /// One round of sampling: reads the queue depths and publishes their
    /// mean over `cores` cores.
    pub fn sample(stats: &mut Stats, cores: usize)
        ensures
            final(stats).queues() == old(stats).queues(),
            final(stats).spec_global_run_queue() == old(stats).spec_global_run_queue(),
            exists|entries: Seq<(usize, usize)>| #[trigger]
                lists(entries, old(stats).queues()) && final(stats).spec_mean_level() == spec_mean(
                    depths_of(entries),
                    cores,
                ),
    {
        let depths = stats.queue_depths();
        let m = LoadBalancer::mean(&depths, cores);
        stats.set_mean_level(m);
    }
}

} // verus!
