//! Mathematical model of the registry: its content as maps and sequences,
//! and what each operation makes of it.

use crate::frame_model::AllocatorState;
use crate::types::{
    Allocation, KernelError, KernelMessage, Message, RegisterState, Thread, ThreadState,
    TrackedMessage,
};
use crate::wire::wire_format;
use vstd::prelude::*;

verus! {

/// The mathematical content of a process.
#[verifier::ext_equal]
pub struct ProcessView {
    pub pid: u64,
    /// The threads of the process, oldest first.
    pub tids: Seq<u64>,
    /// The pending messages; the one at index 0 is received next.
    pub messages: Seq<Message>,
    /// The buffers that the process accounts for, in the order they came.
    pub allocations: Seq<Allocation>,
    /// The buffers of the messages delivered to the process and not yet acknowledged.
    pub message_allocations: Seq<TrackedMessage>,
    /// The providers that the process has registered.
    pub providers: Seq<u64>,
}

/// The mathematical content of the registry.
#[verifier::ext_equal]
pub struct SchedulerView {
    /// The process registered for each interrupt line.
    pub irq_handlers: Map<u8, u64>,
    /// The entity each live message came from.
    pub message_sources: Map<u64, u64>,
    pub processes: Map<u64, ProcessView>,
    pub threads: Map<u64, Thread>,
    /// The process behind each registered provider.
    pub providers: Map<u64, u64>,
    pub current_pid: Option<u64>,
    pub current_tid: Option<u64>,
    /// The identifier that the next message gets.
    pub next_msg_id: u64,
    pub next_pid: u64,
    pub next_tid: u64,
}

/// The first interrupt vector that belongs to a hardware line.
pub const IRQ_VECTOR_BASE: u64 = 0x20;

/// The highest legacy interrupt line.
pub const MAX_IRQ: u64 = 0xDF;

/// The index of the first occurrence of `x` in `s` at or after `from`.
pub open spec fn position(s: Seq<u64>, x: u64, from: int) -> Option<int>
    decreases s.len() - from,
{
    if from < 0 || from >= s.len() {
        None
    } else if s[from] == x {
        Some(from)
    } else {
        position(s, x, from + 1)
    }
}

/// The index of the first buffer at address `addr`, at or after `from`.
pub open spec fn allocation_at(s: Seq<Allocation>, addr: u64, from: int) -> Option<int>
    decreases s.len() - from,
{
    if from < 0 || from >= s.len() {
        None
    } else if s[from].addr == addr {
        Some(from)
    } else {
        allocation_at(s, addr, from + 1)
    }
}

/// The index of the first tracked message with identifier `id`, at or after `from`.
pub open spec fn message_at(s: Seq<TrackedMessage>, id: u64, from: int) -> Option<int>
    decreases s.len() - from,
{
    if from < 0 || from >= s.len() {
        None
    } else if s[from].id == id {
        Some(from)
    } else {
        message_at(s, id, from + 1)
    }
}

/// The first of the threads `tids`, at or after index `from`, that waits for a message.
pub open spec fn first_suspended(threads: Map<u64, Thread>, tids: Seq<u64>, from: int) -> Option<
    u64,
>
    decreases tids.len() - from,
{
    if from < 0 || from >= tids.len() {
        None
    } else if threads.contains_key(tids[from]) && threads[tids[from]].state
        == ThreadState::Suspended {
        Some(tids[from])
    } else {
        first_suspended(threads, tids, from + 1)
    }
}

/// Number of pages that a buffer of `size` bytes takes.
pub open spec fn pages_for(size: int) -> int {
    (size + 4095) / 4096
}

/// Whether the frame allocator takes back the buffer of `size` bytes at `addr`.
pub open spec fn frames_can_free(frames: AllocatorState, addr: int, size: int) -> bool {
    addr % 4096 == 0 && frames.can_free(addr / 4096, pages_for(size))
}

/// The frame allocator after it was asked to take back the buffer of `size`
/// bytes at `addr`.
pub open spec fn frames_free(frames: AllocatorState, addr: int, size: int) -> AllocatorState {
    if addr % 4096 == 0 {
        frames.release(addr / 4096, pages_for(size))
    } else {
        frames
    }
}

/// The frame allocator after it was asked to take back every buffer of
/// `allocs` that came from it, in order.
pub open spec fn frames_free_all(frames: AllocatorState, allocs: Seq<Allocation>) -> AllocatorState
    decreases allocs.len(),
{
    if allocs.len() == 0 {
        frames
    } else {
        let before = frames_free_all(frames, allocs.drop_last());
        let last = allocs.last();
        if last.kernelside {
            before
        } else {
            frames_free(before, last.addr as int, last.size as int)
        }
    }
}

/// The buffers of `allocs` that lie on the kernel's own heap, in order.
pub open spec fn kernelside_of(allocs: Seq<Allocation>) -> Seq<Allocation>
    decreases allocs.len(),
{
    if allocs.len() == 0 {
        Seq::empty()
    } else {
        let before = kernelside_of(allocs.drop_last());
        if allocs.last().kernelside {
            before.push(allocs.last())
        } else {
            before
        }
    }
}

/// Whether `list` holds a message with identifier `id`.
pub open spec fn holds_message(list: Seq<TrackedMessage>, id: u64) -> bool {
    exists|j: int| 0 <= j < list.len() && (#[trigger] list[j]).id == id
}

/// The threads without those of `tids` that belong to process `pid`.
pub open spec fn threads_without(threads: Map<u64, Thread>, tids: Seq<u64>, pid: u64) -> Map<
    u64,
    Thread,
> {
    Map::new(
        |k: u64| threads.contains_key(k) && !(tids.contains(k) && threads[k].pid == pid),
        |k: u64| threads[k],
    )
}

/// The providers without those of `list` that belong to process `pid`.
pub open spec fn providers_without(providers: Map<u64, u64>, list: Seq<u64>, pid: u64) -> Map<
    u64,
    u64,
> {
    Map::new(
        |k: u64| providers.contains_key(k) && !(list.contains(k) && providers[k] == pid),
        |k: u64| providers[k],
    )
}

/// The message sources without those of the messages in `list`.
pub open spec fn sources_without(sources: Map<u64, u64>, list: Seq<TrackedMessage>) -> Map<
    u64,
    u64,
> {
    Map::new(|k: u64| sources.contains_key(k) && !holds_message(list, k), |k: u64| sources[k])
}

/// The interrupt lines without those registered for process `pid`.
pub open spec fn lines_without(lines: Map<u8, u64>, pid: u64) -> Map<u8, u64> {
    Map::new(|k: u8| lines.contains_key(k) && lines[k] != pid, |k: u8| lines[k])
}

impl ProcessView {
    /// A process without threads, messages, buffers or providers.
    pub open spec fn empty(pid: u64) -> ProcessView {
        ProcessView {
            pid,
            tids: Seq::empty(),
            messages: Seq::empty(),
            allocations: Seq::empty(),
            message_allocations: Seq::empty(),
            providers: Seq::empty(),
        }
    }
}

impl SchedulerView {
    /// The registry without any process. The first message, process and
    /// thread each get the identifier 1.
    pub open spec fn empty() -> SchedulerView {
        SchedulerView {
            irq_handlers: Map::empty(),
            message_sources: Map::empty(),
            processes: Map::empty(),
            threads: Map::empty(),
            providers: Map::empty(),
            current_pid: None,
            current_tid: None,
            next_msg_id: 1,
            next_pid: 1,
            next_tid: 1,
        }
    }

    /// Whether nothing is scheduled.
    pub open spec fn idle(self) -> bool {
        self.current_tid is None
    }

    /// The process and thread on whose behalf a system call is served.
    pub open spec fn caller(self) -> Option<(u64, u64)> {
        match (self.current_pid, self.current_tid) {
            (Some(pid), Some(tid)) => if self.processes.contains_key(pid)
                && self.threads.contains_key(tid) {
                Some((pid, tid))
            } else {
                None
            },
            _ => None,
        }
    }

    /// The registry with process `pid` replaced by `p`.
    pub open spec fn with_process(self, pid: u64, p: ProcessView) -> SchedulerView {
        SchedulerView { processes: self.processes.insert(pid, p), ..self }
    }

    /// The registry with thread `tid` in state `state`.
    pub open spec fn with_thread_state(self, tid: u64, state: ThreadState) -> SchedulerView {
        SchedulerView {
            threads: self.threads.insert(tid, Thread { state, ..self.threads[tid] }),
            ..self
        }
    }

    /// The thread that a message for process `pid` wakes: its first thread
    /// that waits for a message.
    pub open spec fn woken(self, pid: u64) -> Option<u64> {
        first_suspended(self.threads, self.processes[pid].tids, 0)
    }

    /// The registry after a message for process `pid` woke its first waiting thread.
    pub open spec fn wake(self, pid: u64) -> SchedulerView {
        match self.woken(pid) {
            Some(tid) => self.with_thread_state(tid, ThreadState::Inactive),
            None => self,
        }
    }

    // ----- processes and threads -----

    /// The registry after a new process was added.
    pub open spec fn spawn_process(self) -> SchedulerView {
        if self.next_pid == u64::MAX {
            self
        } else {
            SchedulerView {
                processes: self.processes.insert(self.next_pid, ProcessView::empty(self.next_pid)),
                next_pid: (self.next_pid + 1) as u64,
                ..self
            }
        }
    }

    /// Whether process `pid` can get a new thread.
    pub open spec fn can_spawn_thread(self, pid: u64) -> bool {
        self.processes.contains_key(pid) && self.next_tid != u64::MAX
    }

    /// The registry after process `pid` got a new thread, which can run.
    pub open spec fn spawn_thread(self, pid: u64) -> SchedulerView {
        if self.can_spawn_thread(pid) {
            let tid = self.next_tid;
            let p = self.processes[pid];
            SchedulerView {
                threads: self.threads.insert(
                    tid,
                    Thread { id: tid, pid, state: ThreadState::Inactive },
                ),
                processes: self.processes.insert(pid, ProcessView { tids: p.tids.push(tid), ..p }),
                next_tid: (tid + 1) as u64,
                ..self
            }
        } else {
            self
        }
    }

    /// Whether the processor can be given to `next`: a thread that exists and
    /// does not wait for a message, or nobody.
    pub open spec fn can_switch_to(self, next: Option<u64>) -> bool {
        match next {
            Some(tid) => self.threads.contains_key(tid) && self.threads[tid].state
                != ThreadState::Suspended,
            None => true,
        }
    }

    /// The registry with the thread that ran until now, if it still was
    /// running, put back among those that can run.
    pub open spec fn preempt(self) -> SchedulerView {
        match self.current_tid {
            Some(tid) => if self.threads.contains_key(tid) && self.threads[tid].state
                == ThreadState::Running {
                self.with_thread_state(tid, ThreadState::Inactive)
            } else {
                self
            },
            None => self,
        }
    }

    /// The registry after the processor was given to `next`.
    pub open spec fn switch_to(self, next: Option<u64>) -> SchedulerView {
        if self.can_switch_to(next) {
            let s = self.preempt();
            match next {
                Some(tid) => SchedulerView {
                    current_pid: Some(s.threads[tid].pid),
                    current_tid: Some(tid),
                    ..s.with_thread_state(tid, ThreadState::Running)
                },
                None => SchedulerView { current_pid: None, current_tid: None, ..s },
            }
        } else {
            self
        }
    }

    // ----- the interrupt bridge -----

    /// Why the interrupt that came in through vector `int_num` cannot be
    /// delivered with the payload `payload`: the vector belongs to no legacy
    /// line, the line has no registrant, the registrant is gone, the payload
    /// is not the encoding of the notification for the line, or the
    /// identifiers are used up.
    pub open spec fn irq_error(self, int_num: u64, payload: Seq<u8>) -> Option<KernelError> {
        if int_num < 0x20 || int_num > 0x20 + 0xDF {
            Some(KernelError::IrqOutOfRange)
        } else {
            let irq = (int_num - 0x20) as u8;
            if !self.irq_handlers.contains_key(irq) {
                Some(KernelError::UnregisteredIrq)
            } else if !self.processes.contains_key(self.irq_handlers[irq]) {
                Some(KernelError::NoSuchProcess)
            } else if payload != wire_format(KernelMessage::IRQFired(irq)) {
                Some(KernelError::BadPayload)
            } else if self.next_msg_id == u64::MAX {
                Some(KernelError::MessageIdsExhausted)
            } else {
                None
            }
        }
    }

    /// The process registered for the line behind vector `int_num`.
    pub open spec fn irq_target(self, int_num: u64) -> u64 {
        self.irq_handlers[(int_num - 0x20) as u8]
    }

    /// The notification that the next interrupt produces: a message from the
    /// kernel with the next identifier and the payload at `addr`.
    pub open spec fn irq_message(self, addr: u64, len: u64) -> Message {
        Message { id: self.next_msg_id, pid: 0, addr, len }
    }

    /// Whether the interrupt is handed straight to a thread: nothing is
    /// scheduled, and a thread of the registered process waits for a message.
    pub open spec fn irq_is_direct(self, int_num: u64) -> bool {
        self.idle() && self.woken(self.irq_target(int_num)) is Some
    }

    /// The registry after the interrupt behind vector `int_num` was
    /// delivered with the payload `payload` at `addr`: the message has a
    /// source and a tracked buffer as long as the payload, the first waiting
    /// thread of the registered process can run, and unless the message is
    /// handed over directly it stands at the front of the queue.
    pub open spec fn after_irq(self, int_num: u64, addr: u64, payload: Seq<u8>) -> SchedulerView {
        if self.irq_error(int_num, payload) is Some {
            self
        } else {
            let pid = self.irq_target(int_num);
            let len = payload.len() as u64;
            let msg = self.irq_message(addr, len);
            let p = self.processes[pid];
            let updated = ProcessView {
                allocations: p.allocations.push(Allocation { addr, size: len, kernelside: true }),
                message_allocations: p.message_allocations.push(
                    TrackedMessage { id: msg.id, addr },
                ),
                messages: if self.irq_is_direct(int_num) {
                    p.messages
                } else {
                    seq![msg] + p.messages
                },
                ..p
            };
            SchedulerView {
                message_sources: self.message_sources.insert(msg.id, 0),
                next_msg_id: (msg.id + 1) as u64,
                ..self.wake(pid).with_process(pid, updated)
            }
        }
    }
}

/// The registers after message `msg` was handed to the thread they belong to.
pub open spec fn delivered(state: RegisterState, msg: Message) -> RegisterState {
    RegisterState { rdi: msg.id, rsi: msg.pid, rdx: msg.addr, rcx: msg.len, ..state }
}

} // verus!
