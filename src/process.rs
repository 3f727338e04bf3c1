use vstd::prelude::*;

verus! {

/// Where a process stands in its lifecycle.
#[derive(Debug, Clone, Copy, PartialEq, Eq, Structural)]
pub enum ProcessState {
    /// Created, not yet admitted to the ready queue.
    New,
    /// Waiting for a CPU.
    Ready,
    /// Executing on a CPU.
    Running,
    /// Waiting for the event named by its wait target.
    Blocked,
    /// Paused by the system; kept but not schedulable.
    Suspended,
    /// Finished; awaiting cleanup by its parent.
    Terminated,
}

/// What a blocked process waits for.
#[derive(Debug, Clone, Copy, PartialEq, Eq, Structural)]
pub enum WaitTarget {
    /// Another process, by its pid.
    PID(u64),
    /// An I/O device, by its id.
    IODevice(u32),
    /// A timer; the process also records when it wakes up.
    Timer,
    /// A semaphore, by its id.
    Semaphore(u32),
    /// A message queue, by its id.
    MessageQueue(u32),
}

/// One virtual-memory segment: its base address and the most bytes it may span.
#[derive(Debug, Clone, Copy, PartialEq, Eq, Structural)]
pub struct VmRegion {
    pub base: usize,
    pub max_size: usize,
}

/// The CPU state saved while a process is off the CPU.
#[derive(Debug, Clone, Copy)]
pub struct SavedContext {
    /// General-purpose and system registers.
    pub regs: [u64; 32],
    /// Instruction pointer to resume at.
    pub pc: usize,
    /// Stack pointer to resume with.
    pub sp: usize,
    /// Saved flags register.
    pub flags: u64,
}

/// Pending signals and the addresses of their user handlers.
#[derive(Debug, Clone, Copy)]
pub struct SignalTable {
    /// Bit `n` is set while signal `n` is pending.
    pub pending: u64,
    /// Handler address of each signal; zero where none is installed.
    pub handlers: [usize; 32],
}

/// A process control block: everything the kernel keeps of one process.
#[derive(Debug)]
pub struct Process {
    pub pid: u64,
    pub ppid: u64,
    /// ASCII name, padded with zero bytes.
    pub name: [u8; 32],
    pub state: ProcessState,
    /// Scheduling priority; 0 is the highest.
    pub priority: u8,
    /// Scheduling quantum.
    pub timeslice: u32,
    /// Set once, when the process terminates.
    pub exit_code: Option<i32>,
    pub code: VmRegion,
    pub data: VmRegion,
    pub heap: VmRegion,
    pub stack: VmRegion,
    /// Physical address of the root page table.
    pub page_table_root: usize,
    /// Meaningful only while the process is not running.
    pub context: SavedContext,
    /// What the process waits for; set exactly while it is blocked.
    pub waiting_on: Option<WaitTarget>,
    /// When a process blocked on a timer wakes up.
    pub wakeup_time: Option<u64>,
    /// Open descriptor handles; `None` marks a free slot.
    pub file_descriptors: [Option<u32>; 64],
    pub signals: SignalTable,
    pub created_at: u64,
    pub cpu_time: u64,
    pub last_scheduled: u64,
    /// Base address of the process's kernel stack.
    pub kernel_stack: usize,
}

/// A request to move a process along its lifecycle.
#[derive(Debug, Clone, Copy, PartialEq, Eq, Structural)]
pub enum Transition {
    /// New to Ready, once its address space and descriptors are set up.
    Admit,
    /// Ready to Running.
    Dispatch,
    /// Running to Ready.
    Preempt,
    /// Running to Blocked, waiting on `target`; a wake-up time only for a timer.
    Block { target: WaitTarget, wakeup_time: Option<u64> },
    /// Blocked to Ready, once the target is satisfied.
    Wake,
    /// Running, Ready or Blocked to Suspended.
    Suspend,
    /// Suspended to Ready.
    Resume,
    /// Running, Blocked or Suspended to Terminated, with an exit code.
    Exit(i32),
}

/// A transition that the process's state does not allow.
#[derive(Debug, Clone, Copy, PartialEq, Eq, Structural)]
pub struct IllegalTransition {
    pub from: ProcessState,
    pub to: ProcessState,
}

/// The lifecycle's edges.
pub open spec fn is_edge(from: ProcessState, to: ProcessState) -> bool {
    match (from, to) {
        (ProcessState::New, ProcessState::Ready) => true,
        (ProcessState::Ready, ProcessState::Running) => true,
        (ProcessState::Running, ProcessState::Ready) => true,
        (ProcessState::Running, ProcessState::Blocked) => true,
        (ProcessState::Blocked, ProcessState::Ready) => true,
        (ProcessState::Running, ProcessState::Suspended) => true,
        (ProcessState::Ready, ProcessState::Suspended) => true,
        (ProcessState::Blocked, ProcessState::Suspended) => true,
        (ProcessState::Suspended, ProcessState::Ready) => true,
        (ProcessState::Running, ProcessState::Terminated) => true,
        (ProcessState::Blocked, ProcessState::Terminated) => true,
        (ProcessState::Suspended, ProcessState::Terminated) => true,
        _ => false,
    }
}

/// The state a transition leads to.
pub open spec fn target_state(t: Transition) -> ProcessState {
    match t {
        Transition::Admit => ProcessState::Ready,
        Transition::Dispatch => ProcessState::Running,
        Transition::Preempt => ProcessState::Ready,
        Transition::Block { .. } => ProcessState::Blocked,
        Transition::Wake => ProcessState::Ready,
        Transition::Suspend => ProcessState::Suspended,
        Transition::Resume => ProcessState::Ready,
        Transition::Exit(_) => ProcessState::Terminated,
    }
}

/// Whether a process in `state` may take transition `t`.
pub open spec fn enabled(state: ProcessState, t: Transition) -> bool {
    match t {
        Transition::Admit => state == ProcessState::New,
        Transition::Dispatch => state == ProcessState::Ready,
        Transition::Preempt => state == ProcessState::Running,
        Transition::Block { target, wakeup_time } => state == ProcessState::Running && (
        wakeup_time is Some ==> target == WaitTarget::Timer),
        Transition::Wake => state == ProcessState::Blocked,
        Transition::Suspend => state == ProcessState::Running || state == ProcessState::Ready
            || state == ProcessState::Blocked,
        Transition::Resume => state == ProcessState::Suspended,
        Transition::Exit(_) => state == ProcessState::Running || state == ProcessState::Blocked
            || state == ProcessState::Suspended,
    }
}

/// The process after transition `t`; unchanged where `t` is not enabled.
pub open spec fn apply(p: Process, t: Transition) -> Process {
    if !enabled(p.state, t) {
        p
    } else {
        match t {
            Transition::Block { target, wakeup_time } => Process {
                state: ProcessState::Blocked,
                waiting_on: Some(target),
                wakeup_time: wakeup_time,
                ..p
            },
            Transition::Exit(code) => Process {
                state: ProcessState::Terminated,
                exit_code: Some(code),
                waiting_on: None,
                wakeup_time: None,
                ..p
            },
            _ => Process { state: target_state(t), waiting_on: None, wakeup_time: None, ..p },
        }
    }
}

/// The process after the transitions `ts`, taken in order.
pub open spec fn run(p: Process, ts: Seq<Transition>) -> Process
    decreases ts.len(),
{
    if ts.len() == 0 {
        p
    } else {
        apply(run(p, ts.drop_last()), ts.last())
    }
}

impl Process {
    /// The invariants that tie the wait and exit fields to the state.
    pub open spec fn wf(&self) -> bool {
        &&& (self.waiting_on is Some <==> self.state == ProcessState::Blocked)
        &&& (self.wakeup_time is Some ==> self.waiting_on == Some(WaitTarget::Timer))
        &&& (self.exit_code is Some <==> self.state == ProcessState::Terminated)
    }

    /// A process as created: New, waiting on nothing, with no exit code.
    pub open spec fn is_fresh(&self) -> bool {
        &&& self.state == ProcessState::New
        &&& self.waiting_on is None
        &&& self.wakeup_time is None
        &&& self.exit_code is None
    }
}

/// Whether the lifecycle has an edge from `from` to `to`.
pub fn is_valid_transition(from: ProcessState, to: ProcessState) -> (r: bool)
    ensures
        r == is_edge(from, to),
{
    match (from, to) {
        (ProcessState::New, ProcessState::Ready) => true,
        (ProcessState::Ready, ProcessState::Running) => true,
        (ProcessState::Ready, ProcessState::Suspended) => true,
        (ProcessState::Running, ProcessState::Ready) => true,
        (ProcessState::Running, ProcessState::Blocked) => true,
        (ProcessState::Running, ProcessState::Suspended) => true,
        (ProcessState::Running, ProcessState::Terminated) => true,
        (ProcessState::Blocked, ProcessState::Ready) => true,
        (ProcessState::Blocked, ProcessState::Suspended) => true,
        (ProcessState::Blocked, ProcessState::Terminated) => true,
        (ProcessState::Suspended, ProcessState::Ready) => true,
        (ProcessState::Suspended, ProcessState::Terminated) => true,
        _ => false,
    }
}

/// Whether a process in `state` may take transition `t`.
pub fn is_enabled(state: ProcessState, t: Transition) -> (r: bool)
    ensures
        r == enabled(state, t),
{
    match t {
        Transition::Admit => state == ProcessState::New,
        Transition::Dispatch => state == ProcessState::Ready,
        Transition::Preempt => state == ProcessState::Running,
        Transition::Block { target, wakeup_time } => state == ProcessState::Running && (
        wakeup_time.is_none() || target == WaitTarget::Timer),
        Transition::Wake => state == ProcessState::Blocked,
        Transition::Suspend => state == ProcessState::Running || state == ProcessState::Ready
            || state == ProcessState::Blocked,
        Transition::Resume => state == ProcessState::Suspended,
        Transition::Exit(_) => state == ProcessState::Running || state == ProcessState::Blocked
            || state == ProcessState::Suspended,
    }
}

/// The state a transition leads to.
pub fn transition_target(t: Transition) -> (r: ProcessState)
    ensures
        r == target_state(t),
{
    match t {
        Transition::Admit => ProcessState::Ready,
        Transition::Dispatch => ProcessState::Running,
        Transition::Preempt => ProcessState::Ready,
        Transition::Block { .. } => ProcessState::Blocked,
        Transition::Wake => ProcessState::Ready,
        Transition::Suspend => ProcessState::Suspended,
        Transition::Resume => ProcessState::Ready,
        Transition::Exit(_) => ProcessState::Terminated,
    }
}

/// Every transition follows an edge of the lifecycle, and one that the state
/// does not allow leaves the process as it was.
pub proof fn lemma_transition_follows_edges(p: Process, t: Transition)
    ensures
        enabled(p.state, t) ==> is_edge(p.state, apply(p, t).state),
        !enabled(p.state, t) ==> apply(p, t) == p,
        !is_edge(p.state, target_state(t)) ==> apply(p, t) == p,
{
}

/// A transition keeps the wait and exit fields in agreement with the state,
/// and the exit code only ever goes from none to some, on reaching Terminated.
pub proof fn lemma_transition_preserves_wf(p: Process, t: Transition)
    requires
        p.wf(),
    ensures
        apply(p, t).wf(),
        p.exit_code is Some ==> apply(p, t).exit_code == p.exit_code,
        apply(p, t).exit_code != p.exit_code ==> p.exit_code is None && p.state
            != ProcessState::Terminated && apply(p, t).state == ProcessState::Terminated,
{
}

/// Every process reached from a new one by transitions is waiting on something
/// exactly while blocked, and has an exit code exactly while terminated.
pub proof fn lemma_reachable_wf(p: Process, ts: Seq<Transition>)
    requires
        p.is_fresh(),
    ensures
        run(p, ts).wf(),
        run(p, ts).waiting_on is Some <==> run(p, ts).state == ProcessState::Blocked,
        run(p, ts).exit_code is Some <==> run(p, ts).state == ProcessState::Terminated,
    decreases ts.len(),
{
    if ts.len() > 0 {
        lemma_reachable_wf(p, ts.drop_last());
        lemma_transition_preserves_wf(run(p, ts.drop_last()), ts.last());
    }
}

/// Once a process reached from a new one has an exit code, every later
/// transition keeps that same code.
pub proof fn lemma_exit_code_kept(p: Process, ts: Seq<Transition>, j: int)
    requires
        p.is_fresh(),
        0 <= j <= ts.len(),
        run(p, ts.take(j)).exit_code is Some,
    ensures
        run(p, ts).exit_code == run(p, ts.take(j)).exit_code,
    decreases ts.len(),
{
    if j == ts.len() {
        assert(ts.take(j) =~= ts);
    } else {
        assert(ts.drop_last().take(j) =~= ts.take(j));
        lemma_exit_code_kept(p, ts.drop_last(), j);
        lemma_reachable_wf(p, ts.drop_last());
        lemma_transition_preserves_wf(run(p, ts.drop_last()), ts.last());
    }
}

impl Process {
    /// A new process: state New, no wait target, no exit code, empty
    /// segments, context, descriptor table and signal table, and no CPU time.
    pub fn new(
        pid: u64,
        ppid: u64,
        name: [u8; 32],
        priority: u8,
        timeslice: u32,
        created_at: u64,
    ) -> (r: Process)
        ensures
            r.is_fresh(),
            r.wf(),
            r.pid == pid,
            r.ppid == ppid,
            r.name == name,
            r.priority == priority,
            r.timeslice == timeslice,
            r.created_at == created_at,
            r.cpu_time == 0,
            r.last_scheduled == 0,
            forall|i: int| 0 <= i < 64 ==> r.file_descriptors@[i] is None,
            r.signals.pending == 0,
            forall|i: int| 0 <= i < 32 ==> r.signals.handlers@[i] == 0,
            forall|i: int| 0 <= i < 32 ==> r.context.regs@[i] == 0,
            r.context.pc == 0 && r.context.sp == 0 && r.context.flags == 0,
            r.code == (VmRegion { base: 0, max_size: 0 }),
            r.data == (VmRegion { base: 0, max_size: 0 }),
            r.heap == (VmRegion { base: 0, max_size: 0 }),
            r.stack == (VmRegion { base: 0, max_size: 0 }),
            r.page_table_root == 0,
            r.kernel_stack == 0,
    {
        let empty = VmRegion { base: 0, max_size: 0 };
        Process {
            pid,
            ppid,
            name,
            state: ProcessState::New,
            priority,
            timeslice,
            exit_code: None,
            code: empty,
            data: empty,
            heap: empty,
            stack: empty,
            page_table_root: 0,
            context: SavedContext { regs: [0u64; 32], pc: 0, sp: 0, flags: 0 },
            waiting_on: None,
            wakeup_time: None,
            file_descriptors: [None; 64],
            signals: SignalTable { pending: 0, handlers: [0usize; 32] },
            created_at,
            cpu_time: 0,
            last_scheduled: 0,
            kernel_stack: 0,
        }
    }

    /// Moves the process along transition `t`. Where the current state does
    /// not allow it, the process is left unchanged and the refused move is
    /// returned.
    pub fn transition(&mut self, t: Transition) -> (r: Result<(), IllegalTransition>)
        ensures
            r is Ok <==> enabled(old(self).state, t),
            *final(self) == apply(*old(self), t),
            r is Err ==> r == Err::<(), IllegalTransition>(
                IllegalTransition { from: old(self).state, to: target_state(t) },
            ),
    {
        if !is_enabled(self.state, t) {
            return Err(IllegalTransition { from: self.state, to: transition_target(t) });
        }
        match t {
            Transition::Block { target, wakeup_time } => {
                self.state = ProcessState::Blocked;
                self.waiting_on = Some(target);
                self.wakeup_time = wakeup_time;
            },
            Transition::Exit(code) => {
                self.state = ProcessState::Terminated;
                self.exit_code = Some(code);
                self.waiting_on = None;
                self.wakeup_time = None;
            },
            _ => {
                self.state = transition_target(t);
                self.waiting_on = None;
                self.wakeup_time = None;
            },
        }
        Ok(())
    }

    /// Whether the wait and exit fields agree with the state.
    pub fn is_consistent(&self) -> (r: bool)
        ensures
            r == self.wf(),
    {
        let blocked = self.state == ProcessState::Blocked;
        let terminated = self.state == ProcessState::Terminated;
        let timer_ok = match self.wakeup_time {
            None => true,
            Some(_) => match self.waiting_on {
                Some(WaitTarget::Timer) => true,
                _ => false,
            },
        };
        self.waiting_on.is_some() == blocked && timer_ok && self.exit_code.is_some() == terminated
    }
}

} // verus!
