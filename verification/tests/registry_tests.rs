use kernel_core::memory_map::{MemoryData, MemoryEntry};
use kernel_core::pmm::BitmapAllocator;
use kernel_core::registry::Scheduler;
use kernel_core::types::{
    Allocation, Control, Effect, EntryPoint, HandlerInstall, KernelError, KernelMessage, Message,
    PrivilegeLevel, RegisterState, SystemCall, ThreadState, TrackedMessage,
};
use kernel_core::userland::{
    deliver, irq_handler, irq_line, notification, setup, syscall_handler, IrqDelivery,
};
use kernel_core::wire::encode;

/// The encoded notification for interrupt line 5.
const NOTE: [u8; 2] = [0, 5];

/// The encoded notification for an interrupt line.
fn note(line: u8) -> Vec<u8> {
    encode(&KernelMessage::IRQFired(line)).unwrap()
}

fn frames() -> BitmapAllocator {
    BitmapAllocator::new(&[MemoryEntry::Usable(MemoryData { base: 0, length: 0x40_0000 })])
        .unwrap()
}

fn regs(call: SystemCall, rsi: u64, rdx: u64, rcx: u64) -> RegisterState {
    RegisterState { int_num: 249, rdi: call.number(), rsi, rdx, rcx }
}

fn irq_regs(line: u64) -> RegisterState {
    RegisterState { int_num: 0x20 + line, rdi: 11, rsi: 22, rdx: 33, rcx: 44 }
}

/// A registry with one process that has one running thread.
fn one_process() -> (Scheduler, u64, u64) {
    let mut s = Scheduler::new();
    let pid = s.spawn_process().unwrap();
    let tid = s.spawn_thread(pid).unwrap();
    assert_eq!(s.switch_to(Some(tid)), Ok(()));
    (s, pid, tid)
}

#[test]
fn setup_installs_the_dispatcher_at_vector_249() {
    assert_eq!(
        setup(),
        HandlerInstall {
            vector: 249,
            ist: 1,
            privilege: PrivilegeLevel::User,
            entry: EntryPoint::SystemCall,
            is_irq: false,
            should_iret: true,
        }
    );
}

#[test]
fn call_numbers_round_trip() {
    let calls = [
        SystemCall::KPrint,
        SystemCall::ReceiveMessage,
        SystemCall::SendMessage,
        SystemCall::Quit,
        SystemCall::Yield,
        SystemCall::RegisterProvider,
        SystemCall::GetProvidingProcess,
        SystemCall::PortIn,
        SystemCall::PortOut,
        SystemCall::RegisterIRQHandler,
        SystemCall::Allocate,
        SystemCall::Free,
        SystemCall::AckMessage,
        SystemCall::GetDTEntryInfo,
    ];
    for (n, call) in calls.iter().enumerate() {
        assert_eq!(call.number(), n as u64);
        assert_eq!(SystemCall::from_number(n as u64), Some(*call));
    }
    assert_eq!(SystemCall::from_number(14), None);
    assert_eq!(SystemCall::from_number(u64::MAX), None);
}

#[test]
fn vectors_map_to_lines() {
    assert_eq!(irq_line(0x20), Some(0));
    assert_eq!(irq_line(0x25), Some(5));
    assert_eq!(irq_line(0xFF), Some(0xDF));
    assert_eq!(irq_line(0x1F), None);
    assert_eq!(irq_line(0), None);
    assert_eq!(irq_line(0x100), None);
    assert_eq!(notification(0x25), Some(KernelMessage::IRQFired(5)));
    assert_eq!(notification(0x100), None);
}

#[test]
fn new_registry_is_empty() {
    let s = Scheduler::new();
    assert_eq!(s.current_pid(), None);
    assert_eq!(s.current_tid(), None);
    assert_eq!(s.next_message_id(), 1);
    assert_eq!(s.caller(), None);
    assert!(!s.has_process(1));
    assert_eq!(s.thread(1), None);
    assert_eq!(s.irq_owner(5), None);
    assert_eq!(s.queued_messages(1), None);
}

#[test]
fn processes_and_threads_get_fresh_identifiers() {
    let mut s = Scheduler::new();
    let alpha = s.spawn_process().unwrap();
    let beta = s.spawn_process().unwrap();
    assert_eq!((alpha, beta), (1, 2));
    let t1 = s.spawn_thread(alpha).unwrap();
    let t2 = s.spawn_thread(beta).unwrap();
    let t3 = s.spawn_thread(alpha).unwrap();
    assert_eq!((t1, t2, t3), (1, 2, 3));
    assert_eq!(s.spawn_thread(9), None);
    assert_eq!(s.thread_ids(alpha), Some(vec![1, 3]));
    assert_eq!(s.thread_ids(beta), Some(vec![2]));
    assert_eq!(s.thread(t3).unwrap().pid, alpha);
    assert_eq!(s.thread(t3).unwrap().id, t3);
    assert_eq!(s.thread(t3).unwrap().state, ThreadState::Inactive);
    assert_eq!(s.queued_messages(alpha), Some(vec![]));
    assert_eq!(s.allocations(alpha), Some(vec![]));
    assert_eq!(s.message_allocations(alpha), Some(vec![]));
}

#[test]
fn switching_moves_the_running_state() {
    let mut s = Scheduler::new();
    let p = s.spawn_process().unwrap();
    let a = s.spawn_thread(p).unwrap();
    let b = s.spawn_thread(p).unwrap();
    assert_eq!(s.switch_to(Some(a)), Ok(()));
    assert_eq!(s.current_tid(), Some(a));
    assert_eq!(s.current_pid(), Some(p));
    assert_eq!(s.caller(), Some((p, a)));
    assert_eq!(s.thread(a).unwrap().state, ThreadState::Running);
    assert_eq!(s.switch_to(Some(b)), Ok(()));
    assert_eq!(s.thread(a).unwrap().state, ThreadState::Inactive);
    assert_eq!(s.thread(b).unwrap().state, ThreadState::Running);
    assert_eq!(s.switch_to(Some(77)), Err(KernelError::NoSuchThread));
    assert_eq!(s.current_tid(), Some(b));
    assert_eq!(s.switch_to(None), Ok(()));
    assert_eq!(s.current_tid(), None);
    assert_eq!(s.current_pid(), None);
    assert_eq!(s.thread(b).unwrap().state, ThreadState::Inactive);
}

#[test]
fn suspended_thread_cannot_be_switched_to() {
    let (mut s, _pid, tid) = one_process();
    assert_eq!(s.receive(), Ok(None));
    assert_eq!(s.thread(tid).unwrap().state, ThreadState::Suspended);
    assert_eq!(s.switch_to(None), Ok(()));
    assert_eq!(s.thread(tid).unwrap().state, ThreadState::Suspended);
    assert_eq!(s.switch_to(Some(tid)), Err(KernelError::NoSuchThread));
}

#[test]
fn external_calls_are_handed_back() {
    let (mut s, _pid, _tid) = one_process();
    let mut pmm = frames();
    for call in [
        SystemCall::KPrint,
        SystemCall::PortIn,
        SystemCall::PortOut,
        SystemCall::GetDTEntryInfo,
    ] {
        let mut state = regs(call, 1, 2, 3);
        let d = syscall_handler(&mut s, &mut pmm, &mut state);
        assert_eq!(d.effect, Effect::External(call));
        assert_eq!(d.control, Control::Resume);
        assert_eq!(d.error, None);
        assert!(d.released.is_empty());
        assert_eq!(state, regs(call, 1, 2, 3));
    }
}

#[test]
fn trap_without_a_running_thread_is_reported() {
    let mut s = Scheduler::new();
    let mut pmm = frames();
    let pid = s.spawn_process().unwrap();
    let mut state = regs(SystemCall::Yield, 0, 0, 0);
    let d = syscall_handler(&mut s, &mut pmm, &mut state);
    assert_eq!(d.error, Some(KernelError::NoCurrentThread));
    assert_eq!(d.control, Control::Schedule);
    assert_eq!(d.effect, Effect::Nothing);
    assert!(s.has_process(pid));
    assert_eq!(s.receive(), Err(KernelError::NoCurrentThread));
    assert_eq!(s.send(pid, 0, 0), Err(KernelError::NoCurrentThread));
    assert_eq!(s.register_provider(1), Err(KernelError::NoCurrentThread));
    assert_eq!(s.register_irq_handler(1), Err(KernelError::NoCurrentThread));
    assert_eq!(s.allocate(&mut pmm, 1), Err(KernelError::NoCurrentThread));
    assert_eq!(s.free(&mut pmm, 0), Err(KernelError::NoCurrentThread));
    assert_eq!(s.ack(&mut pmm, 1), Err(KernelError::NoCurrentThread));
    assert_eq!(s.thread_teardown(&mut pmm).err(), Some(KernelError::NoCurrentThread));
}

#[test]
fn unknown_call_number_terminates_the_caller() {
    let mut s = Scheduler::new();
    let mut pmm = frames();
    let bad = s.spawn_process().unwrap();
    let bad_tid = s.spawn_thread(bad).unwrap();
    let good = s.spawn_process().unwrap();
    let good_tid = s.spawn_thread(good).unwrap();
    s.switch_to(Some(bad_tid)).unwrap();
    let mut state = RegisterState { int_num: 249, rdi: 14, rsi: 0, rdx: 0, rcx: 0 };
    let d = syscall_handler(&mut s, &mut pmm, &mut state);
    assert_eq!(d.error, Some(KernelError::UnknownSystemCall));
    assert_eq!(d.control, Control::Schedule);
    assert!(!s.has_process(bad));
    assert_eq!(s.thread(bad_tid), None);
    assert_eq!(s.current_pid(), None);
    assert_eq!(s.current_tid(), None);
    assert!(s.has_process(good));
    assert!(s.thread(good_tid).is_some());
}

#[test]
fn yield_hands_over_to_the_scheduler() {
    let (mut s, pid, tid) = one_process();
    let mut pmm = frames();
    let mut state = regs(SystemCall::Yield, 0, 0, 0);
    let d = syscall_handler(&mut s, &mut pmm, &mut state);
    assert_eq!(d.control, Control::Schedule);
    assert_eq!(d.error, None);
    assert_eq!(d.effect, Effect::Nothing);
    assert_eq!(s.caller(), Some((pid, tid)));
    assert_eq!(s.thread(tid).unwrap().state, ThreadState::Running);
}

#[test]
fn registering_an_interrupt_line_installs_the_bridge() {
    let (mut s, pid, _tid) = one_process();
    let mut pmm = frames();
    let mut state = regs(SystemCall::RegisterIRQHandler, 5, 0, 0);
    let d = syscall_handler(&mut s, &mut pmm, &mut state);
    assert_eq!(d.error, None);
    assert_eq!(d.control, Control::Resume);
    assert_eq!(
        d.effect,
        Effect::InstallIrqHandler {
            irq: 5,
            install: HandlerInstall {
                vector: 0x25,
                ist: 1,
                privilege: PrivilegeLevel::Supervisor,
                entry: EntryPoint::Interrupt,
                is_irq: true,
                should_iret: true,
            },
        }
    );
    assert_eq!(s.irq_owner(5), Some(pid));
    assert_eq!(s.irq_owner(6), None);
}

#[test]
fn highest_legacy_line_uses_the_last_vector() {
    let (mut s, pid, _tid) = one_process();
    assert_eq!(s.register_irq_handler(0xDF), Ok(0xDF));
    assert_eq!(s.irq_owner(0xDF), Some(pid));
    let mut pmm = frames();
    let mut state = regs(SystemCall::RegisterIRQHandler, 0xDE, 0, 0);
    let d = syscall_handler(&mut s, &mut pmm, &mut state);
    match d.effect {
        Effect::InstallIrqHandler { irq, install } => {
            assert_eq!(irq, 0xDE);
            assert_eq!(install.vector, 0xFE);
        },
        _ => panic!("no handler installed"),
    }
}

#[test]
fn second_registration_of_a_line_is_rejected() {
    let mut s = Scheduler::new();
    let mut pmm = frames();
    let first = s.spawn_process().unwrap();
    let first_tid = s.spawn_thread(first).unwrap();
    let second = s.spawn_process().unwrap();
    let second_tid = s.spawn_thread(second).unwrap();

    s.switch_to(Some(first_tid)).unwrap();
    let mut state = regs(SystemCall::RegisterIRQHandler, 5, 0, 0);
    assert_eq!(syscall_handler(&mut s, &mut pmm, &mut state).error, None);

    s.switch_to(Some(second_tid)).unwrap();
    let mut state = regs(SystemCall::RegisterIRQHandler, 5, 0, 0);
    let d = syscall_handler(&mut s, &mut pmm, &mut state);
    assert_eq!(d.error, Some(KernelError::IrqAlreadyOwned));
    assert_eq!(d.effect, Effect::Nothing);
    assert_eq!(d.control, Control::Schedule);
    assert_eq!(s.irq_owner(5), Some(first));
    assert!(s.has_process(first));
    assert!(!s.has_process(second));
    // the first registration still works
    s.switch_to(Some(first_tid)).unwrap();
    let r = irq_handler(&mut s, &irq_regs(5), 0x9000, &NOTE);
    assert!(matches!(r, Ok(IrqDelivery::Queued(_))));
    assert_eq!(s.queued_messages(first).unwrap().len(), 1);
}

#[test]
fn direct_registration_reports_the_owner_conflict() {
    let (mut s, pid, _tid) = one_process();
    assert_eq!(s.register_irq_handler(5), Ok(5));
    assert_eq!(s.register_irq_handler(5), Err(KernelError::IrqAlreadyOwned));
    assert_eq!(s.irq_owner(5), Some(pid));
}

#[test]
fn line_beyond_the_legacy_range_is_a_violation() {
    let (mut s, pid, _tid) = one_process();
    assert_eq!(s.register_irq_handler(0xE0), Err(KernelError::IrqOutOfRange));
    assert_eq!(s.register_irq_handler(0x105), Err(KernelError::IrqOutOfRange));
    assert_eq!(s.irq_owner(5), None);
    assert!(s.has_process(pid));
    let mut pmm = frames();
    let mut state = regs(SystemCall::RegisterIRQHandler, 0xE0, 0, 0);
    let d = syscall_handler(&mut s, &mut pmm, &mut state);
    assert_eq!(d.error, Some(KernelError::IrqOutOfRange));
    assert_eq!(d.control, Control::Schedule);
    assert!(!s.has_process(pid));
}

#[test]
fn interrupt_errors_change_nothing() {
    let (mut s, pid, _tid) = one_process();
    let mut bad = irq_regs(0);
    bad.int_num = 0x1F;
    assert_eq!(irq_handler(&mut s, &bad, 0x9000, &NOTE), Err(KernelError::IrqOutOfRange));
    bad.int_num = 0x100;
    assert_eq!(irq_handler(&mut s, &bad, 0x9000, &NOTE), Err(KernelError::IrqOutOfRange));
    assert_eq!(irq_handler(&mut s, &irq_regs(5), 0x9000, &NOTE), Err(KernelError::UnregisteredIrq));
    assert_eq!(s.next_message_id(), 1);
    assert_eq!(s.queued_messages(pid), Some(vec![]));
    assert_eq!(s.allocations(pid), Some(vec![]));
}

#[test]
fn interrupt_fast_path_bypasses_the_queue() {
    let (mut s, pid, tid) = one_process();
    s.register_irq_handler(5).unwrap();
    // the thread waits for a message and the system goes idle
    assert_eq!(s.receive(), Ok(None));
    s.switch_to(None).unwrap();
    assert_eq!(s.thread(tid).unwrap().state, ThreadState::Suspended);

    let r = irq_handler(&mut s, &irq_regs(5), 0x9000, &NOTE);
    let msg = Message { id: 1, pid: 0, addr: 0x9000, len: 2 };
    assert_eq!(r, Ok(IrqDelivery::Direct(msg)));
    assert_eq!(s.queued_messages(pid), Some(vec![]));
    assert_eq!(s.thread(tid).unwrap().state, ThreadState::Inactive);
    assert_eq!(s.message_source(1), Some(0));
    assert_eq!(
        s.allocations(pid),
        Some(vec![Allocation { addr: 0x9000, size: 2, kernelside: true }])
    );
    assert_eq!(s.message_allocations(pid), Some(vec![TrackedMessage { id: 1, addr: 0x9000 }]));
    assert_eq!(s.next_message_id(), 2);

    // the scheduler picks the thread; its registers then hold the message
    s.switch_to(Some(tid)).unwrap();
    let mut state = irq_regs(5);
    deliver(&mut state, &msg);
    assert_eq!(state, RegisterState { int_num: 0x25, rdi: 1, rsi: 0, rdx: 0x9000, rcx: 2 });
}

#[test]
fn interrupt_slow_path_queues_at_the_front() {
    let mut s = Scheduler::new();
    let mut pmm = frames();
    let pid = s.spawn_process().unwrap();
    let tid = s.spawn_thread(pid).unwrap();
    let other = s.spawn_process().unwrap();
    let other_tid = s.spawn_thread(other).unwrap();
    s.switch_to(Some(tid)).unwrap();
    s.register_irq_handler(5).unwrap();

    // another process sends an ordinary message first
    s.switch_to(Some(other_tid)).unwrap();
    let buffer = s.allocate(&mut pmm, 100).unwrap().unwrap();
    let sent = s.send(pid, buffer, 100).unwrap();
    assert_eq!(sent, Message { id: 1, pid: other, addr: buffer, len: 100 });

    // the process runs when the interrupt fires
    s.switch_to(Some(tid)).unwrap();
    let r = irq_handler(&mut s, &irq_regs(5), 0x9000, &NOTE);
    let note = Message { id: 2, pid: 0, addr: 0x9000, len: 2 };
    assert_eq!(r, Ok(IrqDelivery::Queued(note)));
    assert_eq!(s.queued_messages(pid), Some(vec![note, sent]));

    // a receive call returns the notification first
    let mut state = regs(SystemCall::ReceiveMessage, 0, 0, 0);
    let d = syscall_handler(&mut s, &mut pmm, &mut state);
    assert_eq!(d.error, None);
    assert_eq!(d.control, Control::Resume);
    assert_eq!((state.rdi, state.rsi, state.rdx, state.rcx), (2, 0, 0x9000, 2));
    let mut state = regs(SystemCall::ReceiveMessage, 0, 0, 0);
    syscall_handler(&mut s, &mut pmm, &mut state);
    assert_eq!((state.rdi, state.rsi, state.rdx, state.rcx), (1, other, buffer, 100));
    assert_eq!(s.queued_messages(pid), Some(vec![]));
}

#[test]
fn interrupt_for_a_busy_system_wakes_but_queues() {
    let mut s = Scheduler::new();
    let pid = s.spawn_process().unwrap();
    let tid = s.spawn_thread(pid).unwrap();
    let second = s.spawn_thread(pid).unwrap();
    let other = s.spawn_process().unwrap();
    let other_tid = s.spawn_thread(other).unwrap();
    s.switch_to(Some(tid)).unwrap();
    s.register_irq_handler(7).unwrap();
    assert_eq!(s.receive(), Ok(None));
    s.switch_to(Some(second)).unwrap();
    assert_eq!(s.receive(), Ok(None));
    s.switch_to(Some(other_tid)).unwrap();

    let r = irq_handler(&mut s, &irq_regs(7), 0x9000, &note(7));
    assert!(matches!(r, Ok(IrqDelivery::Queued(_))));
    // only the first waiting thread is woken
    assert_eq!(s.thread(tid).unwrap().state, ThreadState::Inactive);
    assert_eq!(s.thread(second).unwrap().state, ThreadState::Suspended);
    assert_eq!(s.queued_messages(pid).unwrap().len(), 1);
}

#[test]
fn idle_interrupt_without_waiting_thread_is_queued() {
    let (mut s, pid, tid) = one_process();
    s.register_irq_handler(5).unwrap();
    s.switch_to(None).unwrap();
    let r = irq_handler(&mut s, &irq_regs(5), 0x9000, &NOTE);
    assert_eq!(r, Ok(IrqDelivery::Queued(Message { id: 1, pid: 0, addr: 0x9000, len: 2 })));
    assert_eq!(s.queued_messages(pid).unwrap().len(), 1);
    assert_eq!(s.thread(tid).unwrap().state, ThreadState::Inactive);
}

#[test]
fn message_identifiers_increase() {
    let mut s = Scheduler::new();
    let mut pmm = frames();
    let a = s.spawn_process().unwrap();
    let a_tid = s.spawn_thread(a).unwrap();
    let b = s.spawn_process().unwrap();
    s.spawn_thread(b).unwrap();
    s.switch_to(Some(a_tid)).unwrap();
    s.register_irq_handler(3).unwrap();
    let mut seen = Vec::new();
    for round in 0..5u64 {
        let buffer = s.allocate(&mut pmm, 10).unwrap().unwrap();
        seen.push(s.send(b, buffer, 10).unwrap().id);
        match irq_handler(&mut s, &irq_regs(3), 0x9000 + round, &note(3)).unwrap() {
            IrqDelivery::Direct(m) | IrqDelivery::Queued(m) => seen.push(m.id),
        }
        // failing operations use no identifier
        assert_eq!(s.send(99, buffer, 10), Err(KernelError::NoSuchProcess));
        assert!(irq_handler(&mut s, &irq_regs(4), 0x9000, &note(4)).is_err());
    }
    assert_eq!(seen, (1..=10).collect::<Vec<u64>>());
    assert_eq!(s.next_message_id(), 11);
}

#[test]
fn send_moves_the_buffer_and_wakes_the_receiver() {
    let mut s = Scheduler::new();
    let mut pmm = frames();
    let a = s.spawn_process().unwrap();
    let a_tid = s.spawn_thread(a).unwrap();
    let b = s.spawn_process().unwrap();
    let b_tid = s.spawn_thread(b).unwrap();
    s.switch_to(Some(b_tid)).unwrap();
    assert_eq!(s.receive(), Ok(None));
    s.switch_to(Some(a_tid)).unwrap();

    let mut state = regs(SystemCall::Allocate, 5000, 0, 0);
    let d = syscall_handler(&mut s, &mut pmm, &mut state);
    assert_eq!(d.error, None);
    let buffer = state.rdi;
    assert_eq!(buffer, 0x20_0000);
    assert_eq!(pmm.free_pages(), 510);

    let mut state = regs(SystemCall::SendMessage, b, buffer, 5000);
    let d = syscall_handler(&mut s, &mut pmm, &mut state);
    assert_eq!(d.error, None);
    assert_eq!(d.control, Control::Resume);
    assert_eq!(state, regs(SystemCall::SendMessage, b, buffer, 5000));
    assert_eq!(s.allocations(a), Some(vec![]));
    assert_eq!(
        s.allocations(b),
        Some(vec![Allocation { addr: buffer, size: 5000, kernelside: false }])
    );
    assert_eq!(s.message_allocations(b), Some(vec![TrackedMessage { id: 1, addr: buffer }]));
    assert_eq!(s.message_source(1), Some(a));
    assert_eq!(s.thread(b_tid).unwrap().state, ThreadState::Inactive);
    assert_eq!(
        s.queued_messages(b),
        Some(vec![Message { id: 1, pid: a, addr: buffer, len: 5000 }])
    );
    // the buffer is gone from the sender: it cannot be sent again
    assert_eq!(s.send(b, buffer, 5000), Err(KernelError::NotAllocated));
}

#[test]
fn messages_are_received_in_order() {
    let mut s = Scheduler::new();
    let mut pmm = frames();
    let a = s.spawn_process().unwrap();
    let a_tid = s.spawn_thread(a).unwrap();
    let b = s.spawn_process().unwrap();
    let b_tid = s.spawn_thread(b).unwrap();
    s.switch_to(Some(a_tid)).unwrap();
    let mut sent = Vec::new();
    for _ in 0..3 {
        let buffer = s.allocate(&mut pmm, 1).unwrap().unwrap();
        sent.push(s.send(b, buffer, 1).unwrap());
    }
    s.switch_to(Some(b_tid)).unwrap();
    for m in &sent {
        assert_eq!(s.receive(), Ok(Some(*m)));
    }
    assert_eq!(s.receive(), Ok(None));
    assert_eq!(s.thread(b_tid).unwrap().state, ThreadState::Suspended);
}

#[test]
fn receive_on_an_empty_queue_suspends_and_schedules() {
    let (mut s, _pid, tid) = one_process();
    let mut pmm = frames();
    let mut state = regs(SystemCall::ReceiveMessage, 7, 8, 9);
    let d = syscall_handler(&mut s, &mut pmm, &mut state);
    assert_eq!(d.error, None);
    assert_eq!(d.control, Control::Schedule);
    assert_eq!(state, regs(SystemCall::ReceiveMessage, 7, 8, 9));
    assert_eq!(s.thread(tid).unwrap().state, ThreadState::Suspended);
}

#[test]
fn send_to_a_missing_process_is_reported() {
    let (mut s, pid, _tid) = one_process();
    let mut pmm = frames();
    let buffer = s.allocate(&mut pmm, 1).unwrap().unwrap();
    let mut state = regs(SystemCall::SendMessage, 42, buffer, 1);
    let d = syscall_handler(&mut s, &mut pmm, &mut state);
    assert_eq!(d.error, Some(KernelError::NoSuchProcess));
    assert_eq!(d.control, Control::Resume);
    assert_eq!(state, regs(SystemCall::SendMessage, 42, buffer, 1));
    assert!(s.has_process(pid));
    assert_eq!(s.allocations(pid).unwrap().len(), 1);
    assert_eq!(s.next_message_id(), 1);
}

#[test]
fn acknowledging_a_notification_releases_its_buffer() {
    let (mut s, pid, _tid) = one_process();
    let mut pmm = frames();
    s.register_irq_handler(5).unwrap();
    irq_handler(&mut s, &irq_regs(5), 0x9000, &NOTE).unwrap();
    assert_eq!(s.receive().unwrap().unwrap().id, 1);

    let mut state = regs(SystemCall::AckMessage, 1, 0, 0);
    let d = syscall_handler(&mut s, &mut pmm, &mut state);
    assert_eq!(d.error, None);
    assert_eq!(d.released, vec![Allocation { addr: 0x9000, size: 2, kernelside: true }]);
    assert_eq!(s.allocations(pid), Some(vec![]));
    assert_eq!(s.message_allocations(pid), Some(vec![]));
    assert_eq!(s.message_source(1), None);

    let mut state = regs(SystemCall::AckMessage, 1, 0, 0);
    let d = syscall_handler(&mut s, &mut pmm, &mut state);
    assert_eq!(d.error, Some(KernelError::UnknownMessage));
    assert!(d.released.is_empty());
}

#[test]
fn acknowledging_a_sent_message_frees_its_pages() {
    let mut s = Scheduler::new();
    let mut pmm = frames();
    let a = s.spawn_process().unwrap();
    let a_tid = s.spawn_thread(a).unwrap();
    let b = s.spawn_process().unwrap();
    let b_tid = s.spawn_thread(b).unwrap();
    s.switch_to(Some(a_tid)).unwrap();
    let buffer = s.allocate(&mut pmm, 8192).unwrap().unwrap();
    assert_eq!(pmm.free_pages(), 510);
    let id = s.send(b, buffer, 8192).unwrap().id;
    s.switch_to(Some(b_tid)).unwrap();
    assert_eq!(s.ack(&mut pmm, id), Ok(None));
    assert_eq!(pmm.free_pages(), 512);
    assert_eq!(s.allocations(b), Some(vec![]));
    assert_eq!(s.message_source(id), None);
}

#[test]
fn acknowledging_after_the_buffer_was_freed_only_untracks() {
    let (mut s, pid, _tid) = one_process();
    let mut pmm = frames();
    s.register_irq_handler(5).unwrap();
    irq_handler(&mut s, &irq_regs(5), 0x9000, &NOTE).unwrap();
    assert_eq!(
        s.free(&mut pmm, 0x9000),
        Ok(Some(Allocation { addr: 0x9000, size: 2, kernelside: true }))
    );
    assert_eq!(s.ack(&mut pmm, 1), Ok(None));
    assert_eq!(s.message_allocations(pid), Some(vec![]));
}

#[test]
fn allocate_and_free_go_through_the_frame_allocator() {
    let (mut s, pid, _tid) = one_process();
    let mut pmm = frames();
    let mut state = regs(SystemCall::Allocate, 4097, 0, 0);
    let d = syscall_handler(&mut s, &mut pmm, &mut state);
    assert_eq!(d.error, None);
    assert_eq!(d.control, Control::Resume);
    assert_eq!(state.rdi, 0x20_0000);
    assert_eq!(pmm.free_pages(), 510);
    assert_eq!(
        s.allocations(pid),
        Some(vec![Allocation { addr: 0x20_0000, size: 4097, kernelside: false }])
    );

    let mut state = regs(SystemCall::Free, 0x20_0000, 0, 0);
    let d = syscall_handler(&mut s, &mut pmm, &mut state);
    assert_eq!(d.error, None);
    assert!(d.released.is_empty());
    assert_eq!(pmm.free_pages(), 512);
    assert_eq!(s.allocations(pid), Some(vec![]));

    let mut state = regs(SystemCall::Free, 0x20_0000, 0, 0);
    let d = syscall_handler(&mut s, &mut pmm, &mut state);
    assert_eq!(d.error, Some(KernelError::NotAllocated));
    assert_eq!(pmm.free_pages(), 512);
}

#[test]
fn allocation_without_memory_returns_zero() {
    let (mut s, pid, _tid) = one_process();
    let mut pmm = frames();
    let mut state = regs(SystemCall::Allocate, 513 * 4096, 0, 0);
    let d = syscall_handler(&mut s, &mut pmm, &mut state);
    assert_eq!(d.error, None);
    assert_eq!(state.rdi, 0);
    assert_eq!(s.allocations(pid), Some(vec![]));
    assert_eq!(s.allocate(&mut pmm, 0), Ok(None));
    assert_eq!(s.allocate(&mut pmm, u64::MAX), Ok(None));
    assert_eq!(pmm.free_pages(), 512);
}

#[test]
fn free_that_the_frame_allocator_refuses_changes_nothing() {
    let (mut s, pid, _tid) = one_process();
    let mut pmm = frames();
    let addr = s.allocate(&mut pmm, 4096).unwrap().unwrap();
    // an allocator that never handed the page out refuses to take it back
    let mut stranger = frames();
    assert_eq!(s.free(&mut stranger, addr), Err(KernelError::FrameRefused));
    assert_eq!(s.allocations(pid).unwrap().len(), 1);
    assert_eq!(stranger.free_pages(), 512);
    assert_eq!(s.free(&mut pmm, addr), Ok(None));
}

#[test]
fn providers_belong_to_one_process() {
    let mut s = Scheduler::new();
    let mut pmm = frames();
    let a = s.spawn_process().unwrap();
    let a_tid = s.spawn_thread(a).unwrap();
    let b = s.spawn_process().unwrap();
    let b_tid = s.spawn_thread(b).unwrap();
    s.switch_to(Some(a_tid)).unwrap();
    let mut state = regs(SystemCall::RegisterProvider, 0xABCD, 0, 0);
    assert_eq!(syscall_handler(&mut s, &mut pmm, &mut state).error, None);

    s.switch_to(Some(b_tid)).unwrap();
    let mut state = regs(SystemCall::RegisterProvider, 0xABCD, 0, 0);
    let d = syscall_handler(&mut s, &mut pmm, &mut state);
    assert_eq!(d.error, Some(KernelError::ProviderTaken));
    assert_eq!(d.control, Control::Resume);
    assert!(s.has_process(b));

    let mut state = regs(SystemCall::GetProvidingProcess, 0xABCD, 0, 0);
    let d = syscall_handler(&mut s, &mut pmm, &mut state);
    assert_eq!(d.error, None);
    assert_eq!(state.rdi, a);

    let mut state = regs(SystemCall::GetProvidingProcess, 0x1234, 0, 0);
    let d = syscall_handler(&mut s, &mut pmm, &mut state);
    assert_eq!(d.error, Some(KernelError::NoSuchProvider));
    assert_eq!(state, regs(SystemCall::GetProvidingProcess, 0x1234, 0, 0));
    assert_eq!(s.get_providing_process(0xABCD), Ok(a));
}

#[test]
fn quit_of_one_thread_keeps_the_process() {
    let mut s = Scheduler::new();
    let mut pmm = frames();
    let pid = s.spawn_process().unwrap();
    let first = s.spawn_thread(pid).unwrap();
    let second = s.spawn_thread(pid).unwrap();
    s.switch_to(Some(first)).unwrap();
    s.register_irq_handler(5).unwrap();
    let mut state = regs(SystemCall::Quit, 0, 0, 0);
    let d = syscall_handler(&mut s, &mut pmm, &mut state);
    assert_eq!(d.error, None);
    assert_eq!(d.control, Control::Schedule);
    assert!(d.released.is_empty());
    assert!(s.has_process(pid));
    assert_eq!(s.thread(first), None);
    assert_eq!(s.thread_ids(pid), Some(vec![second]));
    assert_eq!(s.current_tid(), None);
    assert_eq!(s.current_pid(), None);
    assert_eq!(s.irq_owner(5), Some(pid));
}

#[test]
fn quit_of_the_last_thread_tears_the_process_down() {
    let mut s = Scheduler::new();
    let mut pmm = frames();
    let pid = s.spawn_process().unwrap();
    let tid = s.spawn_thread(pid).unwrap();
    let other = s.spawn_process().unwrap();
    let other_tid = s.spawn_thread(other).unwrap();

    s.switch_to(Some(other_tid)).unwrap();
    s.register_irq_handler(9).unwrap();
    s.register_provider(2).unwrap();
    let gift = s.allocate(&mut pmm, 4096).unwrap().unwrap();
    let gift_id = s.send(pid, gift, 4096).unwrap().id;

    s.switch_to(Some(tid)).unwrap();
    s.register_irq_handler(5).unwrap();
    s.register_provider(1).unwrap();
    s.allocate(&mut pmm, 3 * 4096).unwrap().unwrap();
    irq_handler(&mut s, &irq_regs(5), 0x9000, &NOTE).unwrap();
    assert_eq!(pmm.free_pages(), 512 - 4);
    assert_eq!(s.message_source(gift_id), Some(other));
    assert_eq!(s.message_source(2), Some(0));

    let mut state = regs(SystemCall::Quit, 0, 0, 0);
    let d = syscall_handler(&mut s, &mut pmm, &mut state);
    assert_eq!(d.error, None);
    assert_eq!(d.control, Control::Schedule);
    assert_eq!(d.released, vec![Allocation { addr: 0x9000, size: 2, kernelside: true }]);
    assert!(!s.has_process(pid));
    assert_eq!(s.thread(tid), None);
    assert_eq!(s.irq_owner(5), None);
    assert_eq!(s.get_providing_process(1), Err(KernelError::NoSuchProvider));
    assert_eq!(s.message_source(gift_id), None);
    assert_eq!(s.message_source(2), None);
    assert_eq!(pmm.free_pages(), 512);
    assert_eq!(s.current_tid(), None);
    // the other process keeps what it has
    assert!(s.has_process(other));
    assert!(s.thread(other_tid).is_some());
    assert_eq!(s.irq_owner(9), Some(other));
    assert_eq!(s.get_providing_process(2), Ok(other));
    // an interrupt for the line that lost its registrant is refused
    assert_eq!(irq_handler(&mut s, &irq_regs(5), 0x9000, &NOTE), Err(KernelError::UnregisteredIrq));
}

#[test]
fn terminating_a_missing_process_changes_nothing() {
    let (mut s, pid, tid) = one_process();
    let mut pmm = frames();
    assert!(s.terminate_process(&mut pmm, 42).is_empty());
    assert!(s.has_process(pid));
    assert_eq!(s.caller(), Some((pid, tid)));
}

#[test]
fn encoded_notification_is_tracked_with_its_length() {
    let (mut s, pid, _tid) = one_process();
    s.register_irq_handler(5).unwrap();
    let note = notification(0x25).unwrap();
    let bytes = encode(&note).unwrap();
    assert_eq!(bytes, vec![0, 5]);
    let r = irq_handler(&mut s, &irq_regs(5), 0x7000, &bytes);
    assert_eq!(r, Ok(IrqDelivery::Queued(Message { id: 1, pid: 0, addr: 0x7000, len: 2 })));
    assert_eq!(
        s.allocations(pid),
        Some(vec![Allocation { addr: 0x7000, size: 2, kernelside: true }])
    );
}

#[test]
fn payload_that_is_not_the_notification_is_refused() {
    let (mut s, pid, _tid) = one_process();
    s.register_irq_handler(5).unwrap();
    s.register_irq_handler(6).unwrap();
    let wrong: [&[u8]; 6] = [&[], &[0], &[0, 6], &[1, 5], &[5, 0], &[0, 5, 0]];
    for payload in wrong {
        assert_eq!(
            irq_handler(&mut s, &irq_regs(5), 0x9000, payload),
            Err(KernelError::BadPayload)
        );
    }
    // the notification of another line is refused too
    assert_eq!(
        irq_handler(&mut s, &irq_regs(6), 0x9000, &note(5)),
        Err(KernelError::BadPayload)
    );
    assert_eq!(s.next_message_id(), 1);
    assert_eq!(s.queued_messages(pid), Some(vec![]));
    assert_eq!(s.allocations(pid), Some(vec![]));
    assert_eq!(s.message_allocations(pid), Some(vec![]));
    assert_eq!(s.message_source(1), None);
    assert!(irq_handler(&mut s, &irq_regs(6), 0x9000, &note(6)).is_ok());
}

#[test]
fn line_0xd9_is_granted_at_the_system_call_vector() {
    let (mut s, pid, _tid) = one_process();
    let mut pmm = frames();
    let mut state = regs(SystemCall::RegisterIRQHandler, 0xD9, 0, 0);
    let d = syscall_handler(&mut s, &mut pmm, &mut state);
    assert_eq!(d.error, None);
    match d.effect {
        Effect::InstallIrqHandler { irq, install } => {
            assert_eq!(irq, 0xD9);
            assert_eq!(install.vector, setup().vector);
            assert_eq!(install.entry, EntryPoint::Interrupt);
        },
        _ => panic!("no handler installed"),
    }
    assert_eq!(s.irq_owner(0xD9), Some(pid));
}

#[test]
fn exhausted_identifiers_are_reported() {
    let mut s = Scheduler::with_identifiers(u64::MAX - 1, u64::MAX - 1, u64::MAX - 1);
    let mut pmm = frames();
    let pid = s.spawn_process().unwrap();
    assert_eq!(pid, u64::MAX - 1);
    assert_eq!(s.spawn_process(), None);
    let tid = s.spawn_thread(pid).unwrap();
    assert_eq!(tid, u64::MAX - 1);
    assert_eq!(s.spawn_thread(pid), None);
    s.switch_to(Some(tid)).unwrap();
    s.register_irq_handler(5).unwrap();
    let first = s.allocate(&mut pmm, 1).unwrap().unwrap();
    let second = s.allocate(&mut pmm, 1).unwrap().unwrap();
    assert_eq!(s.send(pid, first, 1).unwrap().id, u64::MAX - 1);
    assert_eq!(s.next_message_id(), u64::MAX);
    assert_eq!(s.send(pid, second, 1), Err(KernelError::MessageIdsExhausted));
    assert_eq!(
        irq_handler(&mut s, &irq_regs(5), 0x9000, &NOTE),
        Err(KernelError::MessageIdsExhausted)
    );
    assert_eq!(s.queued_messages(pid).unwrap().len(), 1);
    assert_eq!(s.allocations(pid).unwrap().len(), 2);
}
