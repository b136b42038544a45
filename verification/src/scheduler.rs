//! Preemptive round-robin scheduler: a fixed slot table of tasks, a FIFO run
//! queue of slot indices, and a cursor identifying the running task.
//!
//! Every timer tick rotates the cursor through the run queue; the scheduler
//! decides *when* and *which* task runs next, while the architecture layer
//! performs the actual register restore. Task exit and blocking are not
//! modelled; tasks live for the life of the scheduler.

use vstd::prelude::*;

use vstd::set_lib::{lemma_int_range, lemma_len_subset, set_int_range};

verus! {

/// Capacity of the slot table and of the run queue.
pub const MAX_TASKS: usize = 16;

/// All 16 general-purpose registers plus `rip` and `rflags`, as saved by
/// software on a context switch.
#[derive(Debug, Clone, Copy, PartialEq, Eq, Structural)]
pub struct RegisterState {
    pub rax: u64,
    pub rbx: u64,
    pub rcx: u64,
    pub rdx: u64,
    pub rsi: u64,
    pub rdi: u64,
    pub rbp: u64,
    pub rsp: u64,
    pub r8: u64,
    pub r9: u64,
    pub r10: u64,
    pub r11: u64,
    pub r12: u64,
    pub r13: u64,
    pub r14: u64,
    pub r15: u64,
    pub rip: u64,
    pub rflags: u64,
}

/// The all-zero register set except `rflags = 0x202` (IF = 1 and the
/// always-set reserved bit).
pub open spec fn spec_empty_registers() -> RegisterState {
    RegisterState {
        rax: 0,
        rbx: 0,
        rcx: 0,
        rdx: 0,
        rsi: 0,
        rdi: 0,
        rbp: 0,
        rsp: 0,
        r8: 0,
        r9: 0,
        r10: 0,
        r11: 0,
        r12: 0,
        r13: 0,
        r14: 0,
        r15: 0,
        rip: 0,
        rflags: 0x202,
    }
}

impl RegisterState {
    /// The default register set for a fresh task: all zero but for
    /// `rflags = 0x202`.
    pub fn empty() -> (r: Self)
        ensures
            r == spec_empty_registers(),
    {
        Self {
            rax: 0,
            rbx: 0,
            rcx: 0,
            rdx: 0,
            rsi: 0,
            rdi: 0,
            rbp: 0,
            rsp: 0,
            r8: 0,
            r9: 0,
            r10: 0,
            r11: 0,
            r12: 0,
            r13: 0,
            r14: 0,
            r15: 0,
            rip: 0,
            rflags: 0x202,
        }
    }
}

/// The process-wide source of task ids: a monotonically increasing counter
/// starting at 1, so ids are unique for the kernel's run.
pub struct TaskIdCounter {
    next_id: u64,
}

impl TaskIdCounter {
    /// The id the next created task will receive.
    pub closed spec fn spec_next_id(self) -> u64 {
        self.next_id
    }

    /// A fresh counter: the first task gets id 1.
    pub fn new() -> (r: TaskIdCounter)
        ensures
            r.spec_next_id() == 1,
    {
        TaskIdCounter { next_id: 1 }
    }
}

/// One task: its id, cached stack pointer, and saved register snapshot.
#[derive(Debug, Clone, Copy, PartialEq, Eq, Structural)]
pub struct Task {
    pub id: u64,
    pub stack_pointer: u64,
    pub registers: RegisterState,
}

impl Task {
    /// Creates a task that will start at `entry_ip` with its stack at
    /// `stack_pointer`, drawing the next id from the counter.
    pub fn new(entry_ip: u64, stack_pointer: u64, ids: &mut TaskIdCounter) -> (r: Self)
        requires
            old(ids).spec_next_id() < u64::MAX,
        ensures
            final(ids).spec_next_id() == old(ids).spec_next_id() + 1,
            r.id == old(ids).spec_next_id(),
            r.stack_pointer == stack_pointer,
            r.registers == (RegisterState { rip: entry_ip, rsp: stack_pointer, ..spec_empty_registers() }),
    {
        let id = ids.next_id;
        ids.next_id = ids.next_id + 1;
        let mut regs = RegisterState::empty();
        regs.rip = entry_ip;
        regs.rsp = stack_pointer;

        Self { id, stack_pointer, registers: regs }
    }
}

/// The decision a timer tick produces when the scheduler rotates: which task
/// was running and which runs next.
#[derive(Debug, Clone, Copy, PartialEq, Eq, Structural)]
pub struct ContextSwitch {
    pub previous_task: u64,
    pub next_task: u64,
}

/// Fixed-capacity round-robin scheduler.
pub struct RoundRobinScheduler {
    tasks: [Option<Task>; 16],
    run_queue: [usize; 16],
    queue_len: usize,
    current_pos: usize,
}

impl RoundRobinScheduler {
    /// The slot table.
    pub closed spec fn spec_tasks(self) -> Seq<Option<Task>> {
        self.tasks@
    }

    /// The populated prefix of the run queue: slot indices in FIFO order.
    pub closed spec fn spec_queue(self) -> Seq<usize> {
        self.run_queue@.take(self.queue_len as int)
    }

    /// Number of queued tasks.
    pub closed spec fn spec_queue_len(self) -> int {
        self.queue_len as int
    }

    /// Cursor into the run queue: the currently running task.
    pub closed spec fn spec_current_pos(self) -> int {
        self.current_pos as int
    }

    /// The scheduler invariants: the queue fits the capacity, every queue
    /// entry points at a distinct occupied slot, every occupied slot is
    /// queued, and the cursor is in range exactly when the queue is
    /// non-empty.
    pub open spec fn wf(self) -> bool {
        &&& self.spec_tasks().len() == 16
        &&& 0 <= self.spec_queue_len() <= 16
        &&& self.spec_queue().len() == self.spec_queue_len()
        &&& forall|i: int|
            0 <= i < self.spec_queue_len() ==> #[trigger] self.spec_queue()[i] < 16
                && self.spec_tasks()[self.spec_queue()[i] as int] is Some
        &&& forall|i: int, j: int|
            0 <= i < j < self.spec_queue_len() ==> self.spec_queue()[i] != self.spec_queue()[j]
        &&& forall|s: int|
            0 <= s < 16 && self.spec_tasks()[s] is Some ==> exists|i: int|
                0 <= i < self.spec_queue_len() && #[trigger] self.spec_queue()[i] == s
        &&& self.spec_queue_len() > 0 ==> 0 <= self.spec_current_pos() < self.spec_queue_len()
        &&& self.spec_queue_len() == 0 ==> self.spec_current_pos() == 0
    }

    /// An empty scheduler: no tasks, empty queue, cursor at zero.
    pub fn new() -> (r: Self)
        ensures
            r.wf(),
            r.spec_queue_len() == 0,
            forall|s: int| 0 <= s < 16 ==> r.spec_tasks()[s] is None,
    {
        Self { tasks: [None; 16], run_queue: [0; 16], queue_len: 0, current_pos: 0 }
    }

    /// Adds a task: stores it in the lowest free slot and appends that slot
    /// to the run queue.
    ///
    /// Fails with "run queue full" exactly when 16 tasks are queued. Because
    /// slot-table and queue capacities match and every occupied slot is
    /// queued, a free slot always exists otherwise, so "task table full" is
    /// unreachable and admission is owed whenever the queue has room.
    pub fn add_task(&mut self, task: Task) -> (r: Result<u64, &'static str>)
        requires
            old(self).wf(),
        ensures
            final(self).wf(),
            old(self).spec_queue_len() == 16 ==> r == Err::<u64, &'static str>(
                "run queue full",
            ) && *final(self) == *old(self),
            old(self).spec_queue_len() < 16 ==> (r matches Ok(id) && {
                &&& id == task.id
                &&& final(self).spec_queue_len() == old(self).spec_queue_len() + 1
                &&& final(self).spec_current_pos() == old(self).spec_current_pos()
                &&& final(self).spec_queue() == old(self).spec_queue().push(
                    final(self).spec_queue().last(),
                )
                &&& final(self).spec_tasks() == old(self).spec_tasks().update(
                    final(self).spec_queue().last() as int,
                    Some(task),
                )
                &&& old(self).spec_tasks()[final(self).spec_queue().last() as int] is None
                &&& final(self).spec_queue().last() < 16
                &&& forall|k: int|
                    0 <= k < final(self).spec_queue().last() ==> old(self).spec_tasks()[k]
                        is Some
                &&& final(self).spec_tasks()[final(self).spec_queue().last() as int] == Some(
                    task,
                )
                &&& forall|s: int|
                    0 <= s < 16 && s != final(self).spec_queue().last() ==> final(self).spec_tasks()[s] == old(self).spec_tasks()[s]
                &&& forall|i: int|
                    0 <= i < old(self).spec_queue_len() ==> final(self).spec_queue()[i] == old(self).spec_queue()[i]
            }),
    {
        if self.queue_len >= MAX_TASKS {
            return Err("run queue full");
        }

        let slot = match self.find_free_slot() {
            Some(slot) => slot,
            None => {
                proof {
                    self.lemma_queued_slots_cover_occupied();
                }
                return Err("task table full");
            },
        };
        self.tasks[slot] = Some(task);
        self.run_queue[self.queue_len] = slot;
        self.queue_len = self.queue_len + 1;
        proof {
            assert(self.spec_queue() =~= old(self).spec_queue().push(slot));
            assert(self.spec_tasks() =~= old(self).spec_tasks().update(slot as int, Some(task)));
            let oldq = old(self).spec_queue();
            let newq = self.spec_queue();
            let oldlen = old(self).spec_queue_len();
            assert forall|i: int|
                0 <= i < self.spec_queue_len() implies #[trigger] newq[i] < 16 && self.spec_tasks()[
                newq[i] as int
            ] is Some by {
                if i < oldlen {
                    assert(oldq[i] < 16);
                    assert(old(self).spec_tasks()[oldq[i] as int] is Some);
                } else {
                    assert(newq[i] == slot);
                }
            }
            assert forall|i: int, j: int|
                0 <= i < j < self.spec_queue_len() implies newq[i] != newq[j] by {
                if j < oldlen {
                    assert(oldq[i] != oldq[j]);
                } else {
                    assert(old(self).spec_tasks()[oldq[i] as int] is Some);
                    assert(newq[j] == slot);
                }
            }
            assert forall|s: int|
                0 <= s < 16 && self.spec_tasks()[s] is Some implies exists|i: int|
                0 <= i < self.spec_queue_len() && #[trigger] newq[i] == s by {
                if s == slot {
                    assert(newq[oldlen] == s);
                } else {
                    assert(old(self).spec_tasks()[s] is Some);
                    let i = choose|i: int| 0 <= i < oldlen && #[trigger] oldq[i] == s;
                    assert(newq[i] == s);
                }
            }
        }
        Ok(task.id)
    }

    /// A scheduler whose 16 slots are all occupied has 16 queued entries:
    /// the queue covers every occupied slot and its entries are distinct, so
    /// a shorter queue would leave some slot free.
    proof fn lemma_queued_slots_cover_occupied(self)
        requires
            self.wf(),
            forall|s: int| 0 <= s < 16 ==> self.spec_tasks()[s] is Some,
        ensures
            self.spec_queue_len() == 16,
    {
        let q = Seq::new(self.spec_queue_len() as nat, |i: int| self.spec_queue()[i] as int);
        assert(q.no_duplicates());
        broadcast use vstd::seq_lib::seq_to_set_is_finite;

        q.unique_seq_to_set();
        lemma_int_range(0, 16);
        assert forall|s: int| set_int_range(0, 16).contains(s) implies q.to_set().contains(
            s,
        ) by {
            assert(self.spec_tasks()[s] is Some);
            let i = choose|i: int|
                0 <= i < self.spec_queue_len() && #[trigger] self.spec_queue()[i] == s;
            assert(q[i] == s);
            assert(q.contains(s));
        }
        assert(set_int_range(0, 16).subset_of(q.to_set()));
        lemma_len_subset(set_int_range(0, 16), q.to_set());
    }

    /// Rotates the run queue by one on a timer tick and reports the switch;
    /// with fewer than two queued tasks there is nothing to rotate and no
    /// switch happens.
    pub fn on_timer_tick(&mut self) -> (r: Option<ContextSwitch>)
        requires
            old(self).wf(),
        ensures
            final(self).wf(),
            final(self).spec_tasks() == old(self).spec_tasks(),
            final(self).spec_queue() == old(self).spec_queue(),
            old(self).spec_queue_len() <= 1 ==> r is None && *final(self) == *old(self),
            old(self).spec_queue_len() >= 2 ==> (r matches Some(switch) && {
                let prev_slot = old(self).spec_queue()[old(self).spec_current_pos()];
                let new_pos = (old(self).spec_current_pos() + 1) % old(self).spec_queue_len();
                let next_slot = old(self).spec_queue()[new_pos];
                &&& final(self).spec_current_pos() == new_pos
                &&& switch.previous_task == old(self).spec_tasks()[
                    prev_slot as int
                ].unwrap().id
                &&& switch.next_task == old(self).spec_tasks()[next_slot as int].unwrap().id
            }),
    {
        if self.queue_len <= 1 {
            return None;
        }

        let prev_slot = self.run_queue[self.current_pos];
        self.current_pos = (self.current_pos + 1) % self.queue_len;
        let next_slot = self.run_queue[self.current_pos];

        let prev = self.tasks[prev_slot].unwrap();
        let next = self.tasks[next_slot].unwrap();

        Some(ContextSwitch { previous_task: prev.id, next_task: next.id })
    }

    /// Copies `regs` into the currently running task and refreshes its
    /// cached stack pointer from `regs.rsp`. A no-op with no tasks.
    pub fn save_current_registers(&mut self, regs: RegisterState)
        requires
            old(self).wf(),
        ensures
            final(self).wf(),
            old(self).spec_queue_len() == 0 ==> *final(self) == *old(self),
            old(self).spec_queue_len() > 0 ==> {
                let slot = old(self).spec_queue()[old(self).spec_current_pos()] as int;
                let saved = Task {
                    id: old(self).spec_tasks()[slot].unwrap().id,
                    stack_pointer: regs.rsp,
                    registers: regs,
                };
                &&& final(self).spec_tasks() == old(self).spec_tasks().update(slot, Some(saved))
                &&& final(self).spec_queue() == old(self).spec_queue()
                &&& final(self).spec_current_pos() == old(self).spec_current_pos()
            },
    {
        if self.queue_len == 0 {
            return ;
        }

        let slot = self.run_queue[self.current_pos];
        let current = self.tasks[slot].unwrap();
        let saved = Task { id: current.id, stack_pointer: regs.rsp, registers: regs };
        self.tasks[slot] = Some(saved);
        proof {
            assert(self.spec_queue() =~= old(self).spec_queue());
        }
    }

    /// The task the cursor points at, if any.
    pub fn current_task(&self) -> (r: Option<Task>)
        requires
            self.wf(),
        ensures
            self.spec_queue_len() == 0 ==> r is None,
            self.spec_queue_len() > 0 ==> r == self.spec_tasks()[self.spec_queue()[
                self.spec_current_pos()
            ] as int] && r is Some,
    {
        if self.queue_len == 0 {
            return None;
        }

        proof {
            assert(self.spec_queue()[self.spec_current_pos()] < 16);
        }
        self.tasks[self.run_queue[self.current_pos]]
    }

    /// The register snapshot the architecture layer must restore next.
    pub fn load_next_registers(&self) -> (r: Option<RegisterState>)
        requires
            self.wf(),
        ensures
            self.spec_queue_len() == 0 ==> r is None,
            self.spec_queue_len() > 0 ==> r == Some(
                self.spec_tasks()[self.spec_queue()[
                    self.spec_current_pos()
                ] as int].unwrap().registers,
            ),
    {
        match self.current_task() {
            Some(task) => Some(task.registers),
            None => None,
        }
    }

    /// The lowest-index free slot in the task table, if one exists.
    fn find_free_slot(&self) -> (r: Option<usize>)
        ensures
            r matches Some(slot) ==> slot < 16 && self.spec_tasks()[slot as int] is None
                && (forall|k: int| 0 <= k < slot ==> self.spec_tasks()[k] is Some),
            r is None ==> forall|s: int| 0 <= s < 16 ==> self.spec_tasks()[s] is Some,
    {
        let mut i: usize = 0;
        while i < MAX_TASKS
            invariant
                i <= 16,
                forall|s: int| 0 <= s < i ==> self.spec_tasks()[s] is Some,
            decreases 16 - i,
        {
            if self.tasks[i].is_none() {
                return Some(i);
            }
            i = i + 1;
        }
        None
    }
}

/// Rotation law for the run queue. With the cursor at `pos` in a queue of
/// distinct slots, two consecutive rotations visit
/// `queue[(pos + 1) % len]` and then `queue[(pos + 2) % len]`: distinct
/// slots whenever the queue holds more than two entries. With exactly two
/// entries the rotations strictly alternate — the second visits `queue[pos]`
/// again.
pub proof fn lemma_round_robin_rotation(queue: Seq<usize>, pos: int)
    requires
        2 <= queue.len(),
        0 <= pos < queue.len(),
        forall|i: int, j: int| 0 <= i < j < queue.len() ==> queue[i] != queue[j],
    ensures
        ({
            let len = queue.len() as int;
            let first = (pos + 1) % len;
            let second = (first + 1) % len;
            &&& queue.len() > 2 ==> queue[first] != queue[second]
            &&& queue.len() == 2 ==> queue[second] == queue[pos] && queue[first] != queue[pos]
        }),
{
    let len = queue.len() as int;
    let first = (pos + 1) % len;
    let second = (first + 1) % len;
    if pos + 1 < len {
        vstd::arithmetic::div_mod::lemma_small_mod((pos + 1) as nat, len as nat);
    } else {
        vstd::arithmetic::div_mod::lemma_mod_self_0(len);
    }
    if first + 1 < len {
        vstd::arithmetic::div_mod::lemma_small_mod((first + 1) as nat, len as nat);
    } else {
        vstd::arithmetic::div_mod::lemma_mod_self_0(len);
    }
    assert(0 <= first < len && 0 <= second < len && first != second || len == 2);
}

/// The rotation law lifted to task ids, which is what a `ContextSwitch`
/// reports. When the queued tasks carry pairwise distinct ids — as tasks
/// drawn from one `TaskIdCounter` do — two consecutive rotations from cursor
/// position `pos` visit `queue[(pos + 1) % len]` and then
/// `queue[(pos + 2) % len]`, and report distinct `next_task` ids whenever
/// the queue holds more than two entries. With exactly two entries the
/// rotations strictly alternate: the second visits position `pos` again, so
/// its `next_task` is the first rotation's `previous_task`.
pub proof fn lemma_round_robin_distinct_task_ids(s: RoundRobinScheduler)
    requires
        s.wf(),
        2 <= s.spec_queue_len(),
        forall|i: int, j: int|
            #![trigger s.spec_queue()[i], s.spec_queue()[j]]
            0 <= i < j < s.spec_queue_len() ==> s.spec_tasks()[
                s.spec_queue()[i] as int
            ].unwrap().id != s.spec_tasks()[s.spec_queue()[j] as int].unwrap().id,
    ensures
        ({
            let len = s.spec_queue_len();
            let pos = s.spec_current_pos();
            let first = (pos + 1) % len;
            let second = (first + 1) % len;
            &&& len > 2 ==> s.spec_tasks()[s.spec_queue()[first] as int].unwrap().id
                != s.spec_tasks()[s.spec_queue()[second] as int].unwrap().id
            &&& len == 2 ==> second == pos && first != pos
        }),
{
    let len = s.spec_queue_len();
    let pos = s.spec_current_pos();
    let first = (pos + 1) % len;
    let second = (first + 1) % len;
    if pos + 1 < len {
        vstd::arithmetic::div_mod::lemma_small_mod((pos + 1) as nat, len as nat);
    } else {
        vstd::arithmetic::div_mod::lemma_mod_self_0(len);
    }
    if first + 1 < len {
        vstd::arithmetic::div_mod::lemma_small_mod((first + 1) as nat, len as nat);
    } else {
        vstd::arithmetic::div_mod::lemma_mod_self_0(len);
    }
    if len > 2 {
        assert(0 <= first < len && 0 <= second < len && first != second);
        if first < second {
            assert(s.spec_tasks()[s.spec_queue()[first] as int].unwrap().id != s.spec_tasks()[
                s.spec_queue()[second] as int
            ].unwrap().id);
        } else {
            assert(s.spec_tasks()[s.spec_queue()[second] as int].unwrap().id != s.spec_tasks()[
                s.spec_queue()[first] as int
            ].unwrap().id);
        }
    }
}

} // verus!
