//! The two entry points from user mode into the registry: the bridge that
//! turns a hardware interrupt into a message, and the system-call dispatcher.

use crate::dispatch_model::{dispatch, released_of, settle};
use crate::pmm::BitmapAllocator;
use crate::registry::{Process, Scheduler};
use crate::registry_model::{delivered, IRQ_VECTOR_BASE, MAX_IRQ};
use crate::types::{
    Allocation, Control, Effect, EntryPoint, HandlerInstall, KernelError, KernelMessage, Message,
    PrivilegeLevel, RegisterState, SystemCall, ThreadState, TrackedMessage, KERNEL_ENTITY,
};
use crate::wire::{is_encoding_of, wire_format};
use vstd::prelude::*;

verus! {

broadcast use vstd::std_specs::hash::group_hash_axioms;

/// The vector through which system calls come in.
pub const SYSCALL_VECTOR: u8 = 249;

/// How an interrupt reached its process.
#[derive(Clone, Copy, Debug, PartialEq, Eq, Structural)]
pub enum IrqDelivery {
    /// Nothing was scheduled and a thread was waiting: the message goes
    /// into the registers of the thread that is scheduled next, and not
    /// into the queue.
    Direct(Message),
    /// The message stands at the front of the queue of the process.
    Queued(Message),
}

/// The interrupt line behind vector `int_num`, if the vector belongs to a legacy line.
pub open spec fn line_of(int_num: u64) -> Option<u8> {
    if 0x20 <= int_num <= 0x20 + 0xDF {
        Some((int_num - 0x20) as u8)
    } else {
        None
    }
}

/// The interrupt line behind vector `int_num`: line 0 comes in through
/// vector 0x20, and the last legacy line is 0xDF.
pub fn irq_line(int_num: u64) -> (line: Option<u8>)
    ensures
        line == line_of(int_num),
{
    if int_num < IRQ_VECTOR_BASE || int_num > IRQ_VECTOR_BASE + MAX_IRQ {
        None
    } else {
        Some((int_num - IRQ_VECTOR_BASE) as u8)
    }
}

/// The notification that the kernel sends when an interrupt comes in through
/// vector `int_num`.
pub fn notification(int_num: u64) -> (note: Option<KernelMessage>)
    ensures
        note == match line_of(int_num) {
            Some(irq) => Some(KernelMessage::IRQFired(irq)),
            None => None,
        },
{
    match irq_line(int_num) {
        Some(irq) => Some(KernelMessage::IRQFired(irq)),
        None => None,
    }
}

/// Turns the interrupt that came in through vector `state.int_num` into a
/// message for the process registered for its line.
///
/// `payload` is the encoded notification, which has to be the encoding of
/// `IRQFired` for that line, and `addr` the address at which the process
/// sees it. The message gets the next identifier and the kernel as its
/// origin; its buffer, as long as the payload, is tracked as a kernel-side
/// buffer of the process. The first thread of the
/// process that waits for a message can run again. If nothing is scheduled
/// and such a thread exists, the message is returned for direct delivery
/// into the registers of the thread scheduled next; otherwise it is put at
/// the front of the queue of the process.
///
/// Fails, and changes nothing, if the vector belongs to no legacy line, the
/// line has no registrant, the registrant is gone, the payload is not the
/// encoding of the notification, or the identifiers are used up.
pub fn irq_handler(
    scheduler: &mut Scheduler,
    state: &RegisterState,
    addr: u64,
    payload: &[u8],
) -> (r: Result<IrqDelivery, KernelError>)
    ensures
        final(scheduler)@ == old(scheduler)@.after_irq(state.int_num, addr, payload@),
        r is Ok ==> line_of(state.int_num) is Some && payload@ == wire_format(
            KernelMessage::IRQFired(line_of(state.int_num)->0),
        ),
        r == match old(scheduler)@.irq_error(state.int_num, payload@) {
            Some(e) => Err::<IrqDelivery, KernelError>(e),
            None => Ok::<IrqDelivery, KernelError>(
                if old(scheduler)@.irq_is_direct(state.int_num) {
                    IrqDelivery::Direct(
                        old(scheduler)@.irq_message(addr, payload@.len() as u64),
                    )
                } else {
                    IrqDelivery::Queued(
                        old(scheduler)@.irq_message(addr, payload@.len() as u64),
                    )
                },
            ),
        },
{
    let len: u64 = payload.len() as u64;
    let irq: u8 = match irq_line(state.int_num) {
        Some(irq) => irq,
        None => {
            return Err(KernelError::IrqOutOfRange);
        },
    };
    let pid: u64 = match scheduler.irq_owner(irq) {
        Some(pid) => pid,
        None => {
            return Err(KernelError::UnregisteredIrq);
        },
    };
    if !scheduler.has_process(pid) {
        return Err(KernelError::NoSuchProcess);
    }
    if !is_encoding_of(payload, &KernelMessage::IRQFired(irq)) {
        return Err(KernelError::BadPayload);
    }
    if scheduler.msg_id_gen == u64::MAX {
        return Err(KernelError::MessageIdsExhausted);
    }
    let msg = Message { id: scheduler.msg_id_gen, pid: KERNEL_ENTITY, addr, len };
    scheduler.msg_id_gen = msg.id + 1;
    scheduler.message_sources.insert(msg.id, KERNEL_ENTITY);
    let idle: bool = scheduler.current_tid.is_none();
    let woken: Option<u64> = scheduler.wake_first_suspended(pid);
    let direct: bool = idle && woken.is_some();
    let mut process: Process = scheduler.processes.remove(&pid).unwrap();
    process.allocations.push(Allocation { addr, size: len, kernelside: true });
    process.message_allocations.push(TrackedMessage { id: msg.id, addr });
    if !direct {
        process.messages.push_front(msg);
    }
    scheduler.processes.insert(pid, process);
    if direct {
        Ok(IrqDelivery::Direct(msg))
    } else {
        Ok(IrqDelivery::Queued(msg))
    }
}

/// Hands message `msg` to the thread that `state` belongs to, as if the
/// thread had received it: identifier, origin, address and length of the
/// payload go into the four result registers.
pub fn deliver(state: &mut RegisterState, msg: &Message)
    ensures
        *final(state) == delivered(*old(state), *msg),
{
    state.rdi = msg.id;
    state.rsi = msg.pid;
    state.rdx = msg.addr;
    state.rcx = msg.len;
}

/// What has to be installed so that system calls reach the dispatcher:
/// vector 249, callable from user mode, on interrupt stack 1.
pub fn setup() -> (install: HandlerInstall)
    ensures
        install == (HandlerInstall {
            vector: 249,
            ist: 1,
            privilege: PrivilegeLevel::User,
            entry: EntryPoint::SystemCall,
            is_irq: false,
            should_iret: true,
        }),
{
    HandlerInstall {
        vector: SYSCALL_VECTOR,
        ist: 1,
        privilege: PrivilegeLevel::User,
        entry: EntryPoint::SystemCall,
        is_irq: false,
        should_iret: true,
    }
}

/// What one trap into the dispatcher resulted in, besides what it made of
/// the registry, the frame allocator and the registers.
#[derive(Debug)]
pub struct Dispatch {
    /// How the processor goes on.
    pub control: Control,
    /// What is left to do outside the registry.
    pub effect: Effect,
    /// The kernel-side buffers that are no longer accounted for and have to
    /// be deallocated.
    pub released: Vec<Allocation>,
    /// The error to report, if the call failed.
    pub error: Option<KernelError>,
}

/// A result with nothing to do, nothing released and nothing to report.
fn plain(control: Control) -> (d: Dispatch)
    ensures
        d.control == control,
        d.effect == Effect::Nothing,
        d.released@ == Seq::<Allocation>::empty(),
        d.error is None,
{
    Dispatch { control, effect: Effect::Nothing, released: Vec::new(), error: None }
}

/// The buffer, if any, as a list.
fn list_of(buffer: Option<Allocation>) -> (list: Vec<Allocation>)
    ensures
        list@ == released_of(buffer),
{
    let mut list: Vec<Allocation> = Vec::new();
    if let Some(b) = buffer {
        list.push(b);
    }
    list
}

/// How the processor goes on after a call that does not itself yield.
fn settled(scheduler: &Scheduler, tid: u64) -> (control: Control)
    ensures
        control == settle(scheduler@, tid),
{
    match scheduler.thread(tid) {
        Some(t) => match t.state {
            ThreadState::Suspended => Control::Schedule,
            _ => Control::Resume,
        },
        None => Control::Resume,
    }
}

/// Serves the system call whose number stands in `state.rdi`, with its
/// arguments in `state.rsi`, `state.rdx` and `state.rcx`, on behalf of the
/// running thread.
///
/// The call works on the registry and the frame allocator as its handler
/// says, and results go into the registers: a received message as by
/// `deliver`, every other value into `rdi` (an allocation that found no
/// memory gives 0). Calls that belong to a collaborator outside the registry
/// are handed back as an effect. `Quit` and `Yield` hand the processor to
/// the scheduler; after any other call the caller resumes unless the call
/// left it waiting for a message.
///
/// Without a running thread nothing changes and `NoCurrentThread` is
/// reported. An unknown call number and a bad request for an interrupt line
/// are protocol violations: the calling process is torn down and the
/// scheduler takes over. Every other failure is reported and changes
/// nothing.
pub fn syscall_handler(
    scheduler: &mut Scheduler,
    pmm: &mut BitmapAllocator,
    state: &mut RegisterState,
) -> (r: Dispatch)
    ensures
        final(scheduler)@ == dispatch(old(scheduler)@, old(pmm)@, *old(state)).scheduler,
        final(pmm)@ == dispatch(old(scheduler)@, old(pmm)@, *old(state)).frames,
        *final(state) == dispatch(old(scheduler)@, old(pmm)@, *old(state)).state,
        r.control == dispatch(old(scheduler)@, old(pmm)@, *old(state)).control,
        r.effect == dispatch(old(scheduler)@, old(pmm)@, *old(state)).effect,
        r.released@ == dispatch(old(scheduler)@, old(pmm)@, *old(state)).released,
        r.error == dispatch(old(scheduler)@, old(pmm)@, *old(state)).error,
{
    let (pid, tid) = match scheduler.caller() {
        Some(c) => c,
        None => {
            return Dispatch {
                control: Control::Schedule,
                effect: Effect::Nothing,
                released: Vec::new(),
                error: Some(KernelError::NoCurrentThread),
            };
        },
    };
    let call: SystemCall = match SystemCall::from_number(state.rdi) {
        Some(call) => call,
        None => {
            let released: Vec<Allocation> = scheduler.terminate_process(pmm, pid);
            return Dispatch {
                control: Control::Schedule,
                effect: Effect::Nothing,
                released,
                error: Some(KernelError::UnknownSystemCall),
            };
        },
    };
    let mut result: Dispatch = plain(Control::Resume);
    match call {
        SystemCall::KPrint
        | SystemCall::PortIn
        | SystemCall::PortOut
        | SystemCall::GetDTEntryInfo => {
            result.effect = Effect::External(call);
        },
        SystemCall::ReceiveMessage => {
            match scheduler.receive() {
                Ok(Some(msg)) => deliver(state, &msg),
                _ => {},
            }
        },
        SystemCall::SendMessage => {
            match scheduler.send(state.rsi, state.rdx, state.rcx) {
                Ok(_) => {},
                Err(e) => {
                    result.error = Some(e);
                },
            }
        },
        SystemCall::Quit => {
            match scheduler.thread_teardown(pmm) {
                Ok(released) => {
                    result.released = released;
                },
                Err(e) => {
                    result.error = Some(e);
                },
            }
            result.control = Control::Schedule;
            return result;
        },
        SystemCall::Yield => {
            result.control = Control::Schedule;
            return result;
        },
        SystemCall::RegisterProvider => {
            match scheduler.register_provider(state.rsi) {
                Ok(_) => {},
                Err(e) => {
                    result.error = Some(e);
                },
            }
        },
        SystemCall::GetProvidingProcess => {
            match scheduler.get_providing_process(state.rsi) {
                Ok(owner) => {
                    state.rdi = owner;
                },
                Err(e) => {
                    result.error = Some(e);
                },
            }
        },
        SystemCall::RegisterIRQHandler => {
            match scheduler.register_irq_handler(state.rsi) {
                Ok(irq) => {
                    result.effect = Effect::InstallIrqHandler {
                        irq,
                        install: HandlerInstall {
                            vector: irq + 0x20,
                            ist: 1,
                            privilege: PrivilegeLevel::Supervisor,
                            entry: EntryPoint::Interrupt,
                            is_irq: true,
                            should_iret: true,
                        },
                    };
                },
                Err(e) => {
                    let released: Vec<Allocation> = scheduler.terminate_process(pmm, pid);
                    return Dispatch {
                        control: Control::Schedule,
                        effect: Effect::Nothing,
                        released,
                        error: Some(e),
                    };
                },
            }
        },
        SystemCall::Allocate => {
            match scheduler.allocate(pmm, state.rsi) {
                Ok(Some(addr)) => {
                    state.rdi = addr;
                },
                _ => {
                    state.rdi = 0;
                },
            }
        },
        SystemCall::Free => {
            match scheduler.free(pmm, state.rsi) {
                Ok(buffer) => {
                    result.released = list_of(buffer);
                },
                Err(e) => {
                    result.error = Some(e);
                },
            }
        },
        SystemCall::AckMessage => {
            match scheduler.ack(pmm, state.rsi) {
                Ok(buffer) => {
                    result.released = list_of(buffer);
                },
                Err(e) => {
                    result.error = Some(e);
                },
            }
        },
    }
    result.control = settled(scheduler, tid);
    result
}

} // verus!
