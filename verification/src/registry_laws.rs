//! Laws of the registry, the interrupt bridge and the dispatcher, proved of
//! their models for every state.

use crate::dispatch_model::dispatch;
use crate::frame_model::AllocatorState;
use crate::registry_model::{delivered, first_suspended, SchedulerView};
use crate::types::{
    Allocation, Control, KernelError, KernelMessage, Message, RegisterState, SystemCall, Thread,
    ThreadState, TrackedMessage,
};
use crate::wire::wire_format;
use vstd::prelude::*;

verus! {

/// The registry together with the frame allocator.
pub struct World {
    pub scheduler: SchedulerView,
    pub frames: AllocatorState,
}

/// One thing that happens to the registry.
pub enum Event {
    /// An interrupt comes in through vector `int_num`, with the bytes
    /// `payload` handed in as its notification, placed at `addr`.
    Interrupt { int_num: u64, addr: u64, payload: Seq<u8> },
    /// The running thread traps into the dispatcher with these registers.
    Trap { state: RegisterState },
    /// The scheduler gives the processor to `next`.
    Switch { next: Option<u64> },
    /// A process is added.
    SpawnProcess,
    /// Process `pid` gets a thread.
    SpawnThread { pid: u64 },
}

impl World {
    /// The world after one event.
    pub open spec fn step(self, event: Event) -> World {
        match event {
            Event::Interrupt { int_num, addr, payload } => World {
                scheduler: self.scheduler.after_irq(int_num, addr, payload),
                ..self
            },
            Event::Trap { state } => World {
                scheduler: dispatch(self.scheduler, self.frames, state).scheduler,
                frames: dispatch(self.scheduler, self.frames, state).frames,
            },
            Event::Switch { next } => World { scheduler: self.scheduler.switch_to(next), ..self },
            Event::SpawnProcess => World { scheduler: self.scheduler.spawn_process(), ..self },
            Event::SpawnThread { pid } => World {
                scheduler: self.scheduler.spawn_thread(pid),
                ..self
            },
        }
    }

    /// The identifier of the message that one event generates, if it
    /// generates one: an interrupt that is delivered, or a send call that
    /// succeeds.
    pub open spec fn generated(self, event: Event) -> Option<u64> {
        match event {
            Event::Interrupt { int_num, addr, payload } => if self.scheduler.irq_error(
                int_num,
                payload,
            ) is None {
                Some(self.scheduler.next_msg_id)
            } else {
                None
            },
            Event::Trap { state } => if self.scheduler.caller() is Some && SystemCall::decode(
                state.rdi,
            ) == Some(SystemCall::SendMessage) && self.scheduler.send_error(state.rsi, state.rdx)
                is None {
                Some(self.scheduler.next_msg_id)
            } else {
                None
            },
            _ => None,
        }
    }

    /// The world after a sequence of events, in order.
    pub open spec fn run(self, events: Seq<Event>) -> World
        decreases events.len(),
    {
        if events.len() == 0 {
            self
        } else {
            self.run(events.drop_last()).step(events.last())
        }
    }

    /// The identifiers of the messages that a sequence of events generates,
    /// in the order in which they are generated.
    pub open spec fn observed_ids(self, events: Seq<Event>) -> Seq<u64>
        decreases events.len(),
    {
        if events.len() == 0 {
            Seq::empty()
        } else {
            let before = self.observed_ids(events.drop_last());
            match self.run(events.drop_last()).generated(events.last()) {
                Some(id) => before.push(id),
                None => before,
            }
        }
    }
}

/// One event never lowers the next message identifier and raises it by 1 at
/// most, and an event that generates a message uses the next identifier and
/// moves past it.
pub proof fn lemma_step_message_ids(w: World, event: Event)
    ensures
        w.scheduler.next_msg_id <= w.step(event).scheduler.next_msg_id,
        w.step(event).scheduler.next_msg_id <= w.scheduler.next_msg_id + 1,
        w.generated(event) matches Some(id) ==> id == w.scheduler.next_msg_id && id
            < w.step(event).scheduler.next_msg_id,
{
}

/// The identifiers last: a sequence of events uses up one identifier per
/// event at most. From an empty registry, whose first identifier is 1, they
/// are not used up before `u64::MAX - 1` events have happened.
pub proof fn lemma_identifiers_last(w: World, events: Seq<Event>)
    ensures
        w.run(events).scheduler.next_msg_id <= w.scheduler.next_msg_id + events.len(),
    decreases events.len(),
{
    if events.len() > 0 {
        lemma_identifiers_last(w, events.drop_last());
        lemma_step_message_ids(w.run(events.drop_last()), events.last());
    }
}

/// Whatever happens, in whatever order, each message generated gets an
/// identifier above that of every message generated before it, so none is
/// used twice.
pub proof fn lemma_message_ids_increase(w: World, events: Seq<Event>)
    ensures
        w.scheduler.next_msg_id <= w.run(events).scheduler.next_msg_id,
        forall|i: int|
            0 <= i < w.observed_ids(events).len() ==> w.scheduler.next_msg_id <= (
            #[trigger] w.observed_ids(events)[i]) < w.run(events).scheduler.next_msg_id,
        forall|i: int, j: int|
            0 <= i < j < w.observed_ids(events).len() ==> w.observed_ids(events)[i]
                < w.observed_ids(events)[j],
    decreases events.len(),
{
    if events.len() > 0 {
        let earlier = events.drop_last();
        let before = w.observed_ids(earlier);
        let ids = w.observed_ids(events);
        lemma_message_ids_increase(w, earlier);
        lemma_step_message_ids(w.run(earlier), events.last());
        // `ids` is `before`, with at most the identifier just generated behind it
        assert forall|i: int, j: int| 0 <= i < j < ids.len() implies ids[i] < ids[j] by {
            assert(ids[i] == before[i]);
        }
    }
}

/// Whether `tid` is the one thread of `tids` that waits for a message.
pub open spec fn only_suspended(threads: Map<u64, Thread>, tids: Seq<u64>, tid: u64) -> bool {
    &&& tids.contains(tid)
    &&& threads.contains_key(tid)
    &&& threads[tid].state == ThreadState::Suspended
    &&& forall|i: int|
        0 <= i < tids.len() && threads.contains_key(#[trigger] tids[i]) && threads[tids[i]].state
            == ThreadState::Suspended ==> tids[i] == tid
}

/// The first waiting thread does wait.
pub proof fn lemma_first_suspended_waits(threads: Map<u64, Thread>, tids: Seq<u64>, from: int)
    ensures
        first_suspended(threads, tids, from) matches Some(tid) ==> threads.contains_key(tid)
            && threads[tid].state == ThreadState::Suspended,
    decreases tids.len() - from,
{
    if 0 <= from < tids.len() && !(threads.contains_key(tids[from]) && threads[tids[from]].state
        == ThreadState::Suspended) {
        lemma_first_suspended_waits(threads, tids, from + 1);
    }
}

/// Where exactly one thread of `tids` waits, that thread is the first waiting one.
pub proof fn lemma_first_suspended_only(
    threads: Map<u64, Thread>,
    tids: Seq<u64>,
    tid: u64,
    from: int,
)
    requires
        only_suspended(threads, tids, tid),
        0 <= from,
        exists|i: int| from <= i < tids.len() && tids[i] == tid,
    ensures
        first_suspended(threads, tids, from) == Some(tid),
    decreases tids.len() - from,
{
    if tids[from] != tid {
        lemma_first_suspended_only(threads, tids, tid, from + 1);
    }
}

/// The vector through which interrupt line `irq` comes in.
pub open spec fn vector_of(irq: u8) -> u64 {
    (irq + 0x20) as u64
}

/// The encoded notification for interrupt line `irq`.
pub open spec fn note_of(irq: u8) -> Seq<u8> {
    wire_format(KernelMessage::IRQFired(irq))
}

/// Whether interrupt line `irq` has a registrant to deliver to: it is a
/// legacy line, and the process registered for it exists.
pub open spec fn registered(s: SchedulerView, irq: u8) -> bool {
    irq <= 0xDF && s.irq_handlers.contains_key(irq) && s.processes.contains_key(
        s.irq_handlers[irq],
    )
}

/// An interrupt for a registered line, with the encoding of its
/// notification as payload, is delivered as long as identifiers are left.
/// The notification gets the next identifier and the kernel as origin; the
/// account of the registered process gains exactly the payload's buffer, as
/// a kernel-side buffer as long as the encoding, and the message is tracked
/// against that buffer. This holds whichever way the message is handed over.
pub proof fn lemma_irq_delivered(s: SchedulerView, irq: u8, addr: u64)
    requires
        registered(s, irq),
        s.next_msg_id < u64::MAX,
    ensures
        s.irq_error(vector_of(irq), note_of(irq)) is None,
        s.irq_target(vector_of(irq)) == s.irq_handlers[irq],
        note_of(irq) == seq![0u8, irq],
        s.after_irq(vector_of(irq), addr, note_of(irq)).processes[s.irq_handlers[irq]].allocations
            == s.processes[s.irq_handlers[irq]].allocations.push(
            Allocation { addr, size: 2, kernelside: true },
        ),
        s.after_irq(
            vector_of(irq),
            addr,
            note_of(irq),
        ).processes[s.irq_handlers[irq]].message_allocations
            == s.processes[s.irq_handlers[irq]].message_allocations.push(
            TrackedMessage { id: s.next_msg_id, addr },
        ),
        s.after_irq(vector_of(irq), addr, note_of(irq)).message_sources
            == s.message_sources.insert(s.next_msg_id, 0),
        s.after_irq(vector_of(irq), addr, note_of(irq)).next_msg_id == s.next_msg_id + 1,
{
}

/// If nothing is scheduled and the process registered for the line has
/// exactly one thread that waits for a message, the interrupt is handed
/// over directly. The thread can run again, the registers it is resumed
/// with hold the notification (its identifier, the kernel as origin,
/// address and length of the payload), and the queue of the process is as
/// it was. The one premise beyond these is that identifiers are left.
pub proof fn lemma_irq_fast_path(
    s: SchedulerView,
    irq: u8,
    addr: u64,
    tid: u64,
    state: RegisterState,
)
    requires
        registered(s, irq),
        s.next_msg_id < u64::MAX,
        s.idle(),
        only_suspended(s.threads, s.processes[s.irq_handlers[irq]].tids, tid),
    ensures
        s.irq_error(vector_of(irq), note_of(irq)) is None,
        s.irq_is_direct(vector_of(irq)),
        s.woken(s.irq_handlers[irq]) == Some(tid),
        s.after_irq(vector_of(irq), addr, note_of(irq)).threads[tid].state
            == ThreadState::Inactive,
        s.after_irq(vector_of(irq), addr, note_of(irq)).processes[s.irq_handlers[irq]].messages
            == s.processes[s.irq_handlers[irq]].messages,
        delivered(state, s.irq_message(addr, 2)) == (RegisterState {
            rdi: s.next_msg_id,
            rsi: 0,
            rdx: addr,
            rcx: 2,
            ..state
        }),
{
    lemma_irq_delivered(s, irq, addr);
    lemma_first_suspended_only(s.threads, s.processes[s.irq_handlers[irq]].tids, tid, 0);
}

/// While a thread is running, the notification of an interrupt is put at
/// the front of the queue of the process registered for the line, ahead of
/// every message that was queued before, which keep their order. The one
/// premise beyond these is that identifiers are left.
pub proof fn lemma_irq_slow_path(s: SchedulerView, irq: u8, addr: u64)
    requires
        registered(s, irq),
        s.next_msg_id < u64::MAX,
        !s.idle(),
    ensures
        s.irq_error(vector_of(irq), note_of(irq)) is None,
        !s.irq_is_direct(vector_of(irq)),
        s.after_irq(vector_of(irq), addr, note_of(irq)).processes[s.irq_handlers[irq]].messages
            == seq![s.irq_message(addr, 2)] + s.processes[s.irq_handlers[irq]].messages,
        s.irq_message(addr, 2) == (Message { id: s.next_msg_id, pid: 0, addr, len: 2 }),
{
    lemma_irq_delivered(s, irq, addr);
}

/// If the running thread belongs to the process registered for the line,
/// its next receive call after the interrupt returns the notification.
pub proof fn lemma_irq_then_receive(s: SchedulerView, irq: u8, addr: u64)
    requires
        registered(s, irq),
        s.next_msg_id < u64::MAX,
        s.caller() is Some,
        s.current_pid == Some(s.irq_handlers[irq]),
    ensures
        s.after_irq(vector_of(irq), addr, note_of(irq)).receive_result() == Ok::<
            Option<Message>,
            KernelError,
        >(Some(s.irq_message(addr, 2))),
{
    lemma_irq_slow_path(s, irq, addr);
    assert(s.after_irq(vector_of(irq), addr, note_of(irq)).caller() == s.caller());
}

/// A receive call of the running thread right after an interrupt for a
/// line of its process gets the notification ahead of everything queued
/// before: the registers hold its identifier, the kernel as origin, address
/// and length; the queue is as it was before the interrupt; the caller keeps
/// running and resumes.
pub proof fn lemma_irq_then_receive_call(
    s: SchedulerView,
    frames: AllocatorState,
    irq: u8,
    addr: u64,
    state: RegisterState,
)
    requires
        registered(s, irq),
        s.next_msg_id < u64::MAX,
        s.caller() is Some,
        s.current_pid == Some(s.irq_handlers[irq]),
        s.threads[s.current_tid->0].state == ThreadState::Running,
        SystemCall::decode(state.rdi) == Some(SystemCall::ReceiveMessage),
    ensures
        dispatch(s.after_irq(vector_of(irq), addr, note_of(irq)), frames, state).state == (
        RegisterState { rdi: s.next_msg_id, rsi: 0, rdx: addr, rcx: 2, ..state }),
        dispatch(
            s.after_irq(vector_of(irq), addr, note_of(irq)),
            frames,
            state,
        ).scheduler.processes[s.irq_handlers[irq]].messages
            == s.processes[s.irq_handlers[irq]].messages,
        dispatch(
            s.after_irq(vector_of(irq), addr, note_of(irq)),
            frames,
            state,
        ).scheduler.threads[s.current_tid->0].state == ThreadState::Running,
        dispatch(s.after_irq(vector_of(irq), addr, note_of(irq)), frames, state).control
            == Control::Resume,
        dispatch(s.after_irq(vector_of(irq), addr, note_of(irq)), frames, state).error is None,
{
    lemma_irq_slow_path(s, irq, addr);
    lemma_first_suspended_waits(s.threads, s.processes[s.irq_handlers[irq]].tids, 0);
    let after = s.after_irq(vector_of(irq), addr, note_of(irq));
    let queue = s.processes[s.irq_handlers[irq]].messages;
    assert(after.caller() == s.caller());
    assert((seq![s.irq_message(addr, 2)] + queue).drop_first() =~= queue);
}

/// An interrupt line has one registrant: a request for a line that is
/// taken is refused with `IrqAlreadyOwned`. The caller is torn down, so its
/// own lines are released; every line of another process keeps its
/// registrant, and no line gets a new one.
pub proof fn lemma_irq_line_exclusive(
    s: SchedulerView,
    frames: AllocatorState,
    state: RegisterState,
)
    requires
        s.caller() is Some,
        SystemCall::decode(state.rdi) == Some(SystemCall::RegisterIRQHandler),
        state.rsi <= 0xDF,
        s.irq_handlers.contains_key(state.rsi as u8),
    ensures
        dispatch(s, frames, state).error == Some(KernelError::IrqAlreadyOwned),
        forall|line: u8|
            s.irq_handlers.contains_key(line) && s.irq_handlers[line] != s.current_pid->0 ==> {
                &&& #[trigger] dispatch(s, frames, state).scheduler.irq_handlers.contains_key(
                    line,
                )
                &&& dispatch(s, frames, state).scheduler.irq_handlers[line]
                    == s.irq_handlers[line]
            },
        forall|line: u8| #[trigger]
            dispatch(s, frames, state).scheduler.irq_handlers.contains_key(line)
                ==> s.irq_handlers.contains_key(line),
{
}

/// A protocol violation tears down the calling process and hands the
/// processor to the scheduler; any other error leaves the registry, the
/// frame allocator and the registers as they were.
pub proof fn lemma_error_policy(s: SchedulerView, frames: AllocatorState, state: RegisterState)
    requires
        s.caller() is Some,
    ensures
        match dispatch(s, frames, state).error {
            Some(e) => if e.is_violation() {
                &&& dispatch(s, frames, state).scheduler == s.terminate(s.current_pid->0)
                &&& dispatch(s, frames, state).control == Control::Schedule
                &&& !dispatch(s, frames, state).scheduler.processes.contains_key(
                    s.current_pid->0,
                )
            } else {
                &&& dispatch(s, frames, state).scheduler == s
                &&& dispatch(s, frames, state).frames == frames
                &&& dispatch(s, frames, state).state == state
            },
            None => true,
        },
{
}

/// `Quit` and `Yield` never resume the caller: whatever the state, the
/// scheduler takes over.
pub proof fn lemma_quit_and_yield_never_resume(
    s: SchedulerView,
    frames: AllocatorState,
    state: RegisterState,
)
    requires
        SystemCall::decode(state.rdi) == Some(SystemCall::Quit) || SystemCall::decode(state.rdi)
            == Some(SystemCall::Yield),
    ensures
        dispatch(s, frames, state).control == Control::Schedule,
{
}

} // verus!
