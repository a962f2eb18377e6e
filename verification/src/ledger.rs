//! The node's capacity ledger: what is left of each resource, and which tasks
//! and files hold reserved capacity.
//!
//! Every change goes through a method that takes the ledger by `&mut`: a check
//! and the deduction that follows it are one step, and no two of them overlap.

use vstd::prelude::*;
use crate::config::NodeConfig;
use crate::idset::IdSet;

verus! {

broadcast use vstd::seq_lib::seq_to_set_is_finite;

/// The number of bytes in one gigabyte of storage.
pub const BYTES_PER_GB: u64 = 0x4000_0000;

/// A copy of the ledger's counters and the node's identity, taken at one
/// point in time.
#[derive(Debug, Clone, PartialEq, Eq)]
pub struct ResourceOfferFields {
    pub cpu_cores: u8,
    pub memory_mb: u32,
    pub storage_gb: u32,
    pub bandwidth_mbps: u32,
    pub node_id: String,
}

/// The gigabytes that a file of `size_bytes` bytes occupies: its size rounded
/// up to whole gigabytes, and one gigabyte at least.
pub open spec fn storage_units(size_bytes: u64) -> int {
    if size_bytes == 0 {
        1
    } else {
        (size_bytes + BYTES_PER_GB - 1) / (BYTES_PER_GB as int)
    }
}

/// `storage_units` is the least number of gigabytes, one or more, that holds
/// the bytes: it holds them, and no `g` that does is smaller.
pub proof fn lemma_storage_units_least(size_bytes: u64, g: int)
    ensures
        storage_units(size_bytes) >= 1,
        storage_units(size_bytes) * BYTES_PER_GB >= size_bytes,
        g >= 1 && g * BYTES_PER_GB >= size_bytes ==> storage_units(size_bytes) <= g,
{
    let u = storage_units(size_bytes);
    if g >= 1 && g * BYTES_PER_GB >= size_bytes && u > g {
        assert((u - 1) * BYTES_PER_GB >= g * BYTES_PER_GB) by (nonlinear_arith)
            requires
                u - 1 >= g,
        ;
    }
}

/// The mathematical state of a ledger.
pub struct LedgerView {
    pub node_id: Seq<char>,
    pub max_cpu: u8,
    pub available_cpu: u8,
    pub available_memory_mb: u32,
    pub available_storage_gb: u32,
    pub available_bandwidth_mbps: u32,
    pub active_tasks: Set<Seq<char>>,
    pub stored_files: Set<Seq<char>>,
}

impl LedgerView {
    /// What every ledger satisfies: no more CPU is free than the node was
    /// configured with, and the sets of tasks and files are finite.
    pub open spec fn wf(self) -> bool {
        &&& self.available_cpu <= self.max_cpu
        &&& self.active_tasks.finite()
        &&& self.stored_files.finite()
    }

    /// The state of a fresh ledger.
    pub open spec fn initial(node_id: Seq<char>, config: NodeConfig) -> LedgerView {
        LedgerView {
            node_id,
            max_cpu: config.max_cpu_percent,
            available_cpu: config.max_cpu_percent,
            available_memory_mb: config.memory_mb,
            available_storage_gb: config.max_storage_gb,
            available_bandwidth_mbps: config.max_bandwidth_mbps,
            active_tasks: Set::empty(),
            stored_files: Set::empty(),
        }
    }

    /// Whether `amount` of CPU can be reserved.
    pub open spec fn grants_cpu(self, amount: u8) -> bool {
        self.available_cpu >= amount
    }

    /// The state after an attempt to reserve `amount` of CPU.
    pub open spec fn reserve_cpu(self, amount: u8) -> LedgerView {
        if self.grants_cpu(amount) {
            LedgerView { available_cpu: (self.available_cpu - amount) as u8, ..self }
        } else {
            self
        }
    }

    /// The state after `amount` of CPU was given back: the amount is added,
    /// up to the configured maximum.
    pub open spec fn release_cpu(self, amount: u8) -> LedgerView {
        if self.available_cpu + amount <= self.max_cpu {
            LedgerView { available_cpu: (self.available_cpu + amount) as u8, ..self }
        } else {
            LedgerView { available_cpu: self.max_cpu, ..self }
        }
    }

    /// Whether a file of `size_bytes` bytes can be stored.
    pub open spec fn grants_storage(self, size_bytes: u64) -> bool {
        self.available_storage_gb >= storage_units(size_bytes)
    }

    /// The state after an attempt to reserve storage for a file.
    pub open spec fn reserve_storage(self, size_bytes: u64, file_id: Seq<char>) -> LedgerView {
        if self.grants_storage(size_bytes) {
            LedgerView {
                available_storage_gb: (self.available_storage_gb - storage_units(
                    size_bytes,
                )) as u32,
                stored_files: self.stored_files.insert(file_id),
                ..self
            }
        } else {
            self
        }
    }

    /// The state after a task was recorded as running.
    pub open spec fn task_started(self, task_id: Seq<char>) -> LedgerView {
        LedgerView { active_tasks: self.active_tasks.insert(task_id), ..self }
    }

    /// The state after a task was recorded as done.
    pub open spec fn task_finished(self, task_id: Seq<char>) -> LedgerView {
        LedgerView { active_tasks: self.active_tasks.remove(task_id), ..self }
    }

    /// The state after the admission decision on a task: where the CPU is
    /// granted it is deducted and the task recorded, in one step.
    pub open spec fn admit_task(self, task_id: Seq<char>, cpu_cores: u8) -> LedgerView {
        if self.grants_cpu(cpu_cores) {
            self.reserve_cpu(cpu_cores).task_started(task_id)
        } else {
            self
        }
    }

    /// The state after an admitted task completed.
    pub open spec fn complete_task(self, task_id: Seq<char>, cpu_cores: u8) -> LedgerView {
        self.release_cpu(cpu_cores).task_finished(task_id)
    }
}

/// One step on the CPU counter.
pub enum CpuOp {
    Reserve(u8),
    Release(u8),
}

impl LedgerView {
    /// The state after one step on the CPU counter.
    pub open spec fn apply(self, op: CpuOp) -> LedgerView {
        match op {
            CpuOp::Reserve(amount) => self.reserve_cpu(amount),
            CpuOp::Release(amount) => self.release_cpu(amount),
        }
    }

    /// The state after a sequence of steps on the CPU counter.
    pub open spec fn run(self, ops: Seq<CpuOp>) -> LedgerView
        decreases ops.len(),
    {
        if ops.len() == 0 {
            self
        } else {
            self.run(ops.drop_last()).apply(ops.last())
        }
    }

    /// The CPU that a sequence of steps has reserved and not released: what
    /// its granted reservations took, less what its releases gave back.
    pub open spec fn held(self, ops: Seq<CpuOp>) -> int
        decreases ops.len(),
    {
        if ops.len() == 0 {
            0
        } else {
            let before = self.held(ops.drop_last());
            match ops.last() {
                CpuOp::Reserve(amount) => if self.run(ops.drop_last()).grants_cpu(amount) {
                    before + amount
                } else {
                    before
                },
                CpuOp::Release(amount) => before - amount,
            }
        }
    }

    /// Whether every release in the sequence gives back only what was
    /// reserved before it and is still held.
    pub open spec fn matched(self, ops: Seq<CpuOp>) -> bool {
        forall|n: int| 0 <= n <= ops.len() ==> self.held(#[trigger] ops.take(n)) >= 0
    }

    /// The state after the admission decisions on a sequence of tasks, each
    /// given by its id and the CPU it asks for.
    pub open spec fn admit_all(self, requests: Seq<(Seq<char>, u8)>) -> LedgerView
        decreases requests.len(),
    {
        if requests.len() == 0 {
            self
        } else {
            self.admit_all(requests.drop_last()).admit_task(
                requests.last().0,
                requests.last().1,
            )
        }
    }

    /// How many of a sequence of tasks are admitted.
    pub open spec fn admitted(self, requests: Seq<(Seq<char>, u8)>) -> nat
        decreases requests.len(),
    {
        if requests.len() == 0 {
            0
        } else {
            let before = self.admitted(requests.drop_last());
            if self.admit_all(requests.drop_last()).grants_cpu(requests.last().1) {
                before + 1
            } else {
                before
            }
        }
    }
}

/// Conservation of CPU: along any sequence of reservations and releases in
/// which each release gives back what was reserved before, the free CPU is
/// what it was at the start less what is still held. It is never negative and
/// never above its value at the start, and once everything reserved has been
/// released it is back at that value.
pub proof fn lemma_cpu_conservation(s: LedgerView, ops: Seq<CpuOp>)
    requires
        s.wf(),
        s.matched(ops),
    ensures
        s.run(ops).available_cpu == s.available_cpu - s.held(ops),
        0 <= s.run(ops).available_cpu <= s.available_cpu,
        s.held(ops) == 0 ==> s.run(ops).available_cpu == s.available_cpu,
        s.run(ops).max_cpu == s.max_cpu,
    decreases ops.len(),
{
    assert(ops.take(ops.len() as int) =~= ops);
    if ops.len() > 0 {
        let front = ops.drop_last();
        assert forall|n: int| 0 <= n <= front.len() implies s.held(#[trigger] front.take(n))
            >= 0 by {
            assert(front.take(n) =~= ops.take(n));
        }
        lemma_cpu_conservation(s, front);
    }
}

/// Conservation holds at every point on the way: after each prefix of a
/// matched sequence, the free CPU is its value at the start less what the
/// prefix still holds, and so neither negative nor above that value.
pub proof fn lemma_cpu_conservation_prefix(s: LedgerView, ops: Seq<CpuOp>, n: int)
    requires
        s.wf(),
        s.matched(ops),
        0 <= n <= ops.len(),
    ensures
        s.run(ops.take(n)).available_cpu == s.available_cpu - s.held(ops.take(n)),
        0 <= s.run(ops.take(n)).available_cpu <= s.available_cpu,
{
    let prefix = ops.take(n);
    assert forall|m: int| 0 <= m <= prefix.len() implies s.held(#[trigger] prefix.take(m))
        >= 0 by {
        assert(prefix.take(m) =~= ops.take(m));
    }
    lemma_cpu_conservation(s, prefix);
}

/// A reservation that was granted, followed by the release of the same
/// amount, leaves the free CPU as it was.
pub proof fn lemma_reserve_then_release(s: LedgerView, amount: u8)
    requires
        s.wf(),
        s.grants_cpu(amount),
    ensures
        s.reserve_cpu(amount).release_cpu(amount) == s,
{
}

/// For whole numbers with `c` positive, `k * c <= total` says the same as
/// `k <= total / c`.
proof fn lemma_multiples_within(k: int, c: int, total: int)
    requires
        c > 0,
        k >= 0,
        total >= 0,
    ensures
        k * c <= total <==> k <= total / c,
{
    assert(k * c <= total <==> k <= total / c) by (nonlinear_arith)
        requires
            c > 0,
            k >= 0,
            total >= 0,
    ;
}

/// No over-admission: of any sequence of tasks that each ask for `c` of CPU,
/// exactly as many are admitted as fit into the CPU that was free, the
/// others are denied, and the CPU left is what the admitted ones did not
/// take.
pub proof fn lemma_no_over_admission(s: LedgerView, requests: Seq<(Seq<char>, u8)>, c: u8)
    requires
        c > 0,
        forall|i: int| 0 <= i < requests.len() ==> (#[trigger] requests[i]).1 == c,
    ensures
        s.admitted(requests) <= s.available_cpu / c,
        s.admitted(requests) == if requests.len() <= s.available_cpu / c {
            requests.len()
        } else {
            (s.available_cpu / c) as nat
        },
        s.admit_all(requests).available_cpu == s.available_cpu - s.admitted(requests) * c,
        s.admit_all(requests).available_cpu >= 0,
    decreases requests.len(),
{
    if requests.len() > 0 {
        let front = requests.drop_last();
        lemma_no_over_admission(s, front, c);
        assert(requests.last().1 == c);
        let k = s.admitted(front) as int;
        lemma_multiples_within(k + 1, c as int, s.available_cpu as int);
        assert((k + 1) * c == k * c + c) by (nonlinear_arith);
    }
}

/// The free share of a CPU budget.
struct CpuBudget {
    limit: u8,
    available: u8,
}

impl CpuBudget {
    #[verifier::type_invariant]
    spec fn within_limit(&self) -> bool {
        self.available <= self.limit
    }

    fn reserve(&mut self, amount: u8) -> (granted: bool)
        ensures
            granted == (old(self).available >= amount),
            final(self).limit == old(self).limit,
            final(self).available == if granted {
                (old(self).available - amount) as u8
            } else {
                old(self).available
            },
    {
        if self.available >= amount {
            proof {
                use_type_invariant(&*self);
            }
            self.available = self.available - amount;
            true
        } else {
            false
        }
    }

    fn release(&mut self, amount: u8)
        ensures
            final(self).limit == old(self).limit,
            old(self).available <= old(self).limit,
            final(self).available == if old(self).available + amount <= old(self).limit {
                (old(self).available + amount) as u8
            } else {
                old(self).limit
            },
    {
        proof {
            use_type_invariant(&*self);
        }
        if amount <= self.limit - self.available {
            self.available = self.available + amount;
        } else {
            self.available = self.limit;
        }
    }
}

/// The node's authoritative capacity state.
pub struct ResourceLedger {
    node_id: String,
    cpu: CpuBudget,
    available_memory_mb: u32,
    available_storage_gb: u32,
    available_bandwidth_mbps: u32,
    active_tasks: IdSet,
    stored_files: IdSet,
}

impl View for ResourceLedger {
    type V = LedgerView;

    closed spec fn view(&self) -> LedgerView {
        LedgerView {
            node_id: self.node_id@,
            max_cpu: self.cpu.limit,
            available_cpu: self.cpu.available,
            available_memory_mb: self.available_memory_mb,
            available_storage_gb: self.available_storage_gb,
            available_bandwidth_mbps: self.available_bandwidth_mbps,
            active_tasks: self.active_tasks@,
            stored_files: self.stored_files@,
        }
    }
}

impl ResourceLedger {
    /// Creates the ledger of a node from its configuration: all of the
    /// configured capacity is free, and nothing runs or is stored.
    pub fn new(node_id: String, config: &NodeConfig) -> (r: ResourceLedger)
        ensures
            r@ == LedgerView::initial(node_id@, *config),
            r@.wf(),
    {
        ResourceLedger {
            node_id,
            cpu: CpuBudget { limit: config.max_cpu_percent, available: config.max_cpu_percent },
            available_memory_mb: config.memory_mb,
            available_storage_gb: config.max_storage_gb,
            available_bandwidth_mbps: config.max_bandwidth_mbps,
            active_tasks: IdSet::new(),
            stored_files: IdSet::new(),
        }
    }

    /// Reserves `amount` of CPU if that much is free. Returns whether it did;
    /// where it did not, nothing changes.
    pub fn reserve_cpu(&mut self, amount: u8) -> (granted: bool)
        ensures
            granted == old(self)@.grants_cpu(amount),
            final(self)@ == old(self)@.reserve_cpu(amount),
            final(self)@.wf(),
    {
        let granted = self.cpu.reserve(amount);
        proof {
            use_type_invariant(&self.cpu);
        }
        granted
    }

    /// Gives `amount` of CPU back. The free CPU never rises above the
    /// configured maximum, so a release that no reservation stands behind
    /// cannot create capacity.
    pub fn release_cpu(&mut self, amount: u8)
        ensures
            final(self)@ == old(self)@.release_cpu(amount),
            final(self)@.wf(),
    {
        self.cpu.release(amount);
        proof {
            use_type_invariant(&self.cpu);
        }
    }

    /// Reserves storage for a file of `size_bytes` bytes, in whole gigabytes,
    /// if that much is free, and records the file. Returns whether it did;
    /// where it did not, nothing changes.
    pub fn reserve_storage(&mut self, size_bytes: u64, file_id: &str) -> (granted: bool)
        ensures
            granted == old(self)@.grants_storage(size_bytes),
            final(self)@ == old(self)@.reserve_storage(size_bytes, file_id@),
            final(self)@.wf(),
    {
        let whole: u64 = size_bytes / BYTES_PER_GB;
        let needed: u64 = if size_bytes == 0 {
            1
        } else if size_bytes % BYTES_PER_GB == 0 {
            whole
        } else {
            whole + 1
        };
        assert(needed == storage_units(size_bytes));
        let granted = self.available_storage_gb as u64 >= needed;
        if granted {
            self.available_storage_gb = self.available_storage_gb - (needed as u32);
            self.stored_files.insert(file_id);
        }
        proof {
            use_type_invariant(&self.cpu);
        }
        granted
    }

    /// Records a task as running.
    pub fn task_started(&mut self, task_id: &str)
        ensures
            final(self)@ == old(self)@.task_started(task_id@),
            final(self)@.wf(),
    {
        self.active_tasks.insert(task_id);
        proof {
            use_type_invariant(&self.cpu);
        }
    }

    /// Records a task as done.
    pub fn task_finished(&mut self, task_id: &str)
        ensures
            final(self)@ == old(self)@.task_finished(task_id@),
            final(self)@.wf(),
    {
        self.active_tasks.remove(task_id);
        proof {
            use_type_invariant(&self.cpu);
        }
    }

    /// Decides on the admission of a task: where `cpu_cores` of CPU is free it
    /// is deducted and the task recorded as running, in one step. Returns
    /// whether the task was admitted; where it was not, nothing changes.
    pub fn admit_task(&mut self, task_id: &str, cpu_cores: u8) -> (admitted: bool)
        ensures
            admitted == old(self)@.grants_cpu(cpu_cores),
            final(self)@ == old(self)@.admit_task(task_id@, cpu_cores),
            final(self)@.wf(),
    {
        if self.reserve_cpu(cpu_cores) {
            self.task_started(task_id);
            true
        } else {
            false
        }
    }

    /// Settles a task that was admitted and has run: its CPU is given back
    /// and the task is no longer recorded as running.
    pub fn complete_task(&mut self, task_id: &str, cpu_cores: u8)
        ensures
            final(self)@ == old(self)@.complete_task(task_id@, cpu_cores),
            final(self)@.wf(),
    {
        self.release_cpu(cpu_cores);
        self.task_finished(task_id);
    }

    /// Copies the counters and the node's identity, all at one point in time.
    pub fn snapshot(&self) -> (r: ResourceOfferFields)
        ensures
            r.cpu_cores == self@.available_cpu,
            r.memory_mb == self@.available_memory_mb,
            r.storage_gb == self@.available_storage_gb,
            r.bandwidth_mbps == self@.available_bandwidth_mbps,
            r.node_id@ == self@.node_id,
            self@.wf(),
    {
        proof {
            use_type_invariant(&self.cpu);
        }
        ResourceOfferFields {
            cpu_cores: self.cpu.available,
            memory_mb: self.available_memory_mb,
            storage_gb: self.available_storage_gb,
            bandwidth_mbps: self.available_bandwidth_mbps,
            node_id: self.node_id.clone(),
        }
    }

    /// The node's identity.
    pub fn node_id(&self) -> (r: &str)
        ensures
            r@ == self@.node_id,
    {
        self.node_id.as_str()
    }

    /// The number of tasks recorded as running.
    pub fn active_task_count(&self) -> (r: usize)
        ensures
            self@.active_tasks.finite(),
            r == self@.active_tasks.len(),
    {
        self.active_tasks.len()
    }

    /// The number of files recorded as stored.
    pub fn stored_file_count(&self) -> (r: usize)
        ensures
            self@.stored_files.finite(),
            r == self@.stored_files.len(),
    {
        self.stored_files.len()
    }

    /// Whether a task is recorded as running.
    pub fn is_active(&self, task_id: &str) -> (r: bool)
        ensures
            r == self@.active_tasks.contains(task_id@),
    {
        self.active_tasks.contains(task_id)
    }

    /// Whether a file is recorded as stored.
    pub fn is_stored(&self, file_id: &str) -> (r: bool)
        ensures
            r == self@.stored_files.contains(file_id@),
    {
        self.stored_files.contains(file_id)
    }
}

} // verus!
