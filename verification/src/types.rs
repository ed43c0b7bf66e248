//! Plain data shared by the registry, the interrupt bridge and the dispatcher.

use vstd::prelude::*;

verus! {

/// The entity identifier of the kernel itself as the origin of a message.
pub const KERNEL_ENTITY: u64 = 0;

/// What a thread is doing.
#[derive(Clone, Copy, Debug, PartialEq, Eq, Structural)]
pub enum ThreadState {
    /// The thread is the one that runs at the moment.
    Running,
    /// The thread can run and waits for its turn.
    Inactive,
    /// The thread waits for a message.
    Suspended,
}

/// One thread of a process.
#[derive(Clone, Copy, Debug, PartialEq, Eq, Structural)]
pub struct Thread {
    pub id: u64,
    pub pid: u64,
    pub state: ThreadState,
}

/// A message: its identifier, the entity it came from (0 for the kernel) and
/// where its payload lies.
#[derive(Clone, Copy, Debug, PartialEq, Eq, Structural)]
pub struct Message {
    pub id: u64,
    pub pid: u64,
    pub addr: u64,
    pub len: u64,
}

/// A buffer that a process has to account for.
#[derive(Clone, Copy, Debug, PartialEq, Eq, Structural)]
pub struct Allocation {
    pub addr: u64,
    pub size: u64,
    /// Whether the kernel allocated the buffer on its own heap, rather than
    /// the frame allocator on behalf of the process.
    pub kernelside: bool,
}

/// The buffer that backs a delivered message.
#[derive(Clone, Copy, Debug, PartialEq, Eq, Structural)]
pub struct TrackedMessage {
    pub id: u64,
    pub addr: u64,
}

/// A notification that the kernel itself sends to a process.
#[derive(Clone, Copy, Debug, PartialEq, Eq, Structural)]
pub enum KernelMessage {
    /// The interrupt line with this number fired.
    IRQFired(u8),
}

/// The registers that carry the arguments and results of a trap.
#[derive(Clone, Copy, Debug, PartialEq, Eq, Structural)]
pub struct RegisterState {
    /// The vector through which the trap came in.
    pub int_num: u64,
    pub rdi: u64,
    pub rsi: u64,
    pub rdx: u64,
    pub rcx: u64,
}

/// The system calls, in the order of their call numbers from 0 on.
#[derive(Clone, Copy, Debug, PartialEq, Eq, Structural)]
pub enum SystemCall {
    KPrint,
    ReceiveMessage,
    SendMessage,
    Quit,
    Yield,
    RegisterProvider,
    GetProvidingProcess,
    PortIn,
    PortOut,
    RegisterIRQHandler,
    Allocate,
    Free,
    AckMessage,
    GetDTEntryInfo,
}

/// The privilege level from which a vector may be raised.
#[derive(Clone, Copy, Debug, PartialEq, Eq, Structural)]
pub enum PrivilegeLevel {
    Supervisor,
    User,
}

/// The entry point that a vector leads to.
#[derive(Clone, Copy, Debug, PartialEq, Eq, Structural)]
pub enum EntryPoint {
    /// The system-call dispatcher.
    SystemCall,
    /// The interrupt bridge.
    Interrupt,
}

/// A request to install a handler in the interrupt descriptor table.
#[derive(Clone, Copy, Debug, PartialEq, Eq, Structural)]
pub struct HandlerInstall {
    pub vector: u8,
    /// The interrupt stack that the handler runs on.
    pub ist: u8,
    pub privilege: PrivilegeLevel,
    pub entry: EntryPoint,
    /// Whether the vector belongs to a hardware line, whose controller
    /// expects an end-of-interrupt signal.
    pub is_irq: bool,
    /// Whether the handler returns to the interrupted code when it is done.
    pub should_iret: bool,
}

/// How the processor goes on after a system call.
#[derive(Clone, Copy, Debug, PartialEq, Eq, Structural)]
pub enum Control {
    /// The calling thread continues.
    Resume,
    /// The scheduler picks the thread that runs next.
    Schedule,
}

/// What the caller of the dispatcher has to do outside the registry.
#[derive(Clone, Copy, Debug, PartialEq, Eq, Structural)]
pub enum Effect {
    /// Nothing.
    Nothing,
    /// Perform the call with the registers as they stand: it belongs to a
    /// collaborator outside the registry.
    External(SystemCall),
    /// Unmask interrupt line `irq` at the controller and install the
    /// interrupt bridge as `install` says.
    InstallIrqHandler { irq: u8, install: HandlerInstall },
}

impl SystemCall {
    /// The system call with call number `n`.
    pub open spec fn decode(n: u64) -> Option<SystemCall> {
        if n == 0 {
            Some(SystemCall::KPrint)
        } else if n == 1 {
            Some(SystemCall::ReceiveMessage)
        } else if n == 2 {
            Some(SystemCall::SendMessage)
        } else if n == 3 {
            Some(SystemCall::Quit)
        } else if n == 4 {
            Some(SystemCall::Yield)
        } else if n == 5 {
            Some(SystemCall::RegisterProvider)
        } else if n == 6 {
            Some(SystemCall::GetProvidingProcess)
        } else if n == 7 {
            Some(SystemCall::PortIn)
        } else if n == 8 {
            Some(SystemCall::PortOut)
        } else if n == 9 {
            Some(SystemCall::RegisterIRQHandler)
        } else if n == 10 {
            Some(SystemCall::Allocate)
        } else if n == 11 {
            Some(SystemCall::Free)
        } else if n == 12 {
            Some(SystemCall::AckMessage)
        } else if n == 13 {
            Some(SystemCall::GetDTEntryInfo)
        } else {
            None
        }
    }

    /// The system call with call number `n`, if there is one.
    pub fn from_number(n: u64) -> (call: Option<SystemCall>)
        ensures
            call == SystemCall::decode(n),
    {
        match n {
            0 => Some(SystemCall::KPrint),
            1 => Some(SystemCall::ReceiveMessage),
            2 => Some(SystemCall::SendMessage),
            3 => Some(SystemCall::Quit),
            4 => Some(SystemCall::Yield),
            5 => Some(SystemCall::RegisterProvider),
            6 => Some(SystemCall::GetProvidingProcess),
            7 => Some(SystemCall::PortIn),
            8 => Some(SystemCall::PortOut),
            9 => Some(SystemCall::RegisterIRQHandler),
            10 => Some(SystemCall::Allocate),
            11 => Some(SystemCall::Free),
            12 => Some(SystemCall::AckMessage),
            13 => Some(SystemCall::GetDTEntryInfo),
            _ => None,
        }
    }

    /// The call number of the system call.
    pub fn number(self) -> (n: u64)
        ensures
            SystemCall::decode(n) == Some(self),
    {
        match self {
            SystemCall::KPrint => 0,
            SystemCall::ReceiveMessage => 1,
            SystemCall::SendMessage => 2,
            SystemCall::Quit => 3,
            SystemCall::Yield => 4,
            SystemCall::RegisterProvider => 5,
            SystemCall::GetProvidingProcess => 6,
            SystemCall::PortIn => 7,
            SystemCall::PortOut => 8,
            SystemCall::RegisterIRQHandler => 9,
            SystemCall::Allocate => 10,
            SystemCall::Free => 11,
            SystemCall::AckMessage => 12,
            SystemCall::GetDTEntryInfo => 13,
        }
    }
}

/// Why a request to the registry was refused.
#[derive(Clone, Copy, Debug, PartialEq, Eq, Structural)]
pub enum KernelError {
    /// The call number names no system call.
    UnknownSystemCall,
    /// The interrupt line lies outside the legacy range.
    IrqOutOfRange,
    /// The interrupt line already has a registrant.
    IrqAlreadyOwned,
    /// The interrupt line has no registrant.
    UnregisteredIrq,
    /// No thread is running on whose behalf the request could be served.
    NoCurrentThread,
    /// The process named does not exist.
    NoSuchProcess,
    /// The thread named does not exist or cannot run.
    NoSuchThread,
    /// Every message identifier has been used.
    MessageIdsExhausted,
    /// The calling process holds no message with this identifier.
    UnknownMessage,
    /// The calling process holds no buffer at this address.
    NotAllocated,
    /// The frame allocator refused to take the pages back.
    FrameRefused,
    /// The provider already belongs to a process.
    ProviderTaken,
    /// No process has registered the provider.
    NoSuchProvider,
    /// The serializer could not encode a notification.
    EncodingFailed,
    /// The payload handed in for an interrupt is not the encoding of its
    /// notification.
    BadPayload,
}

impl KernelError {
    /// Whether the error is a protocol violation. The dispatcher answers a
    /// violation by tearing down the process that committed it.
    pub open spec fn is_violation(self) -> bool {
        self is UnknownSystemCall || self is IrqOutOfRange || self is IrqAlreadyOwned
            || self is UnregisteredIrq
    }
}

} // verus!
