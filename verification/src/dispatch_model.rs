//! Mathematical model of the system-call dispatcher: what one trap makes of
//! the registry, the frame allocator and the caller's registers, and how the
//! processor goes on afterwards.

use crate::frame_model::AllocatorState;
use crate::registry_model::{delivered, SchedulerView};
use crate::types::{
    Allocation, Control, Effect, EntryPoint, HandlerInstall, KernelError, PrivilegeLevel,
    RegisterState, SystemCall, ThreadState,
};
use vstd::prelude::*;

verus! {

/// Everything that one trap into the dispatcher results in.
#[verifier::ext_equal]
pub struct Outcome {
    pub scheduler: SchedulerView,
    pub frames: AllocatorState,
    pub state: RegisterState,
    pub control: Control,
    pub effect: Effect,
    /// The kernel-side buffers that are no longer accounted for.
    pub released: Seq<Allocation>,
    pub error: Option<KernelError>,
}

/// How the interrupt bridge is installed for line `irq`: at vector
/// `0x20 + irq`, for the supervisor only.
pub open spec fn irq_install(irq: u8) -> HandlerInstall {
    HandlerInstall {
        vector: (irq + 0x20) as u8,
        ist: 1,
        privilege: PrivilegeLevel::Supervisor,
        entry: EntryPoint::Interrupt,
        is_irq: true,
        should_iret: true,
    }
}

/// How the processor goes on after a call that does not itself yield: the
/// caller resumes, unless the call left it waiting for a message.
pub open spec fn settle(after: SchedulerView, tid: u64) -> Control {
    if after.threads.contains_key(tid) && after.threads[tid].state == ThreadState::Suspended {
        Control::Schedule
    } else {
        Control::Resume
    }
}

/// The outcome of a call that changes nothing and has nothing to report.
pub open spec fn untouched(
    s: SchedulerView,
    frames: AllocatorState,
    state: RegisterState,
) -> Outcome {
    Outcome {
        scheduler: s,
        frames,
        state,
        control: settle(s, s.current_tid->0),
        effect: Effect::Nothing,
        released: Seq::empty(),
        error: None,
    }
}

/// The outcome of a protocol violation: the calling process is torn down,
/// the error is reported and the scheduler takes over.
pub open spec fn fault(
    s: SchedulerView,
    frames: AllocatorState,
    state: RegisterState,
    error: KernelError,
) -> Outcome {
    let pid = s.current_pid->0;
    Outcome {
        scheduler: s.terminate(pid),
        frames: s.frames_after_terminate(frames, pid),
        state,
        control: Control::Schedule,
        effect: Effect::Nothing,
        released: s.terminate_released(pid),
        error: Some(error),
    }
}

/// The kernel-side buffer, if any, as a sequence.
pub open spec fn released_of(buffer: Option<Allocation>) -> Seq<Allocation> {
    match buffer {
        Some(b) => seq![b],
        None => Seq::empty(),
    }
}

/// The outcome of system call `call` for a caller that exists.
pub open spec fn serve(
    s: SchedulerView,
    frames: AllocatorState,
    state: RegisterState,
    call: SystemCall,
) -> Outcome {
    let tid = s.current_tid->0;
    let pid = s.current_pid->0;
    let base = untouched(s, frames, state);
    match call {
        SystemCall::KPrint
        | SystemCall::PortIn
        | SystemCall::PortOut
        | SystemCall::GetDTEntryInfo => Outcome { effect: Effect::External(call), ..base },
        SystemCall::ReceiveMessage => Outcome {
            scheduler: s.after_receive(),
            state: match s.receive_result() {
                Ok(Some(msg)) => delivered(state, msg),
                _ => state,
            },
            control: settle(s.after_receive(), tid),
            ..base
        },
        SystemCall::SendMessage => Outcome {
            scheduler: s.after_send(state.rsi, state.rdx, state.rcx),
            control: settle(s.after_send(state.rsi, state.rdx, state.rcx), tid),
            error: s.send_error(state.rsi, state.rdx),
            ..base
        },
        SystemCall::Quit => Outcome {
            scheduler: s.after_quit(),
            frames: s.frames_after_quit(frames),
            control: Control::Schedule,
            released: s.quit_released(),
            ..base
        },
        SystemCall::Yield => Outcome { control: Control::Schedule, ..base },
        SystemCall::RegisterProvider => Outcome {
            scheduler: s.after_register_provider(state.rsi),
            error: s.provider_error(state.rsi),
            ..base
        },
        SystemCall::GetProvidingProcess => match s.providing_process(state.rsi) {
            Ok(owner) => Outcome { state: RegisterState { rdi: owner, ..state }, ..base },
            Err(e) => Outcome { error: Some(e), ..base },
        },
        SystemCall::RegisterIRQHandler => match s.register_irq_error(state.rsi) {
            Some(e) => fault(s, frames, state, e),
            None => Outcome {
                scheduler: s.after_register_irq(state.rsi),
                effect: Effect::InstallIrqHandler {
                    irq: state.rsi as u8,
                    install: irq_install(state.rsi as u8),
                },
                ..base
            },
        },
        SystemCall::Allocate => Outcome {
            scheduler: s.after_allocate(frames, state.rsi),
            frames: s.frames_after_allocate(frames, state.rsi),
            state: match s.allocate_result(frames, state.rsi) {
                Ok(Some(addr)) => RegisterState { rdi: addr, ..state },
                _ => RegisterState { rdi: 0, ..state },
            },
            ..base
        },
        SystemCall::Free => Outcome {
            scheduler: s.after_free(frames, state.rsi),
            frames: s.frames_after_free(frames, state.rsi),
            released: if s.free_error(frames, state.rsi) is None {
                released_of(s.release_result(pid, state.rsi))
            } else {
                Seq::empty()
            },
            error: s.free_error(frames, state.rsi),
            ..base
        },
        SystemCall::AckMessage => Outcome {
            scheduler: s.after_ack(frames, state.rsi),
            frames: s.frames_after_ack(frames, state.rsi),
            released: if s.ack_error(frames, state.rsi) is None {
                released_of(s.ack_result(state.rsi))
            } else {
                Seq::empty()
            },
            error: s.ack_error(frames, state.rsi),
            ..base
        },
    }
}

/// The outcome of one trap into the dispatcher, with the call number in
/// `state.rdi` and the arguments in `state.rsi`, `state.rdx` and `state.rcx`.
///
/// Without a running thread nothing changes and `NoCurrentThread` is
/// reported. A call number that names no system call is a protocol
/// violation, as is a bad request for an interrupt line: the calling process
/// is torn down. Every other failure is reported and changes nothing.
pub open spec fn dispatch(
    s: SchedulerView,
    frames: AllocatorState,
    state: RegisterState,
) -> Outcome {
    if s.caller() is None {
        Outcome {
            control: Control::Schedule,
            error: Some(KernelError::NoCurrentThread),
            ..untouched(s, frames, state)
        }
    } else {
        match SystemCall::decode(state.rdi) {
            Some(call) => serve(s, frames, state, call),
            None => fault(s, frames, state, KernelError::UnknownSystemCall),
        }
    }
}

} // verus!
