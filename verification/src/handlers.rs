//! The system calls that work on the registry, each on behalf of the
//! running thread and its process.

use crate::frame_laws::lemma_alloc_page;
use crate::pmm::BitmapAllocator;
use crate::registry::{Process, Scheduler};
use crate::registry_model::{
    allocation_at, frames_can_free, frames_free, message_at, pages_for, ProcessView,
};
use crate::types::{
    Allocation, KernelError, Message, Thread, ThreadState, TrackedMessage,
};
use vstd::prelude::*;

verus! {

broadcast use vstd::std_specs::hash::group_hash_axioms;

/// Finds the first buffer at address `addr`.
pub(crate) fn find_allocation(allocations: &Vec<Allocation>, addr: u64) -> (r: Option<usize>)
    ensures
        match r {
            Some(i) => allocation_at(allocations@, addr, 0) == Some(i as int) && i
                < allocations.len() && allocations[i as int].addr == addr,
            None => allocation_at(allocations@, addr, 0) is None,
        },
{
    let mut i: usize = 0;
    while i < allocations.len()
        invariant
            i <= allocations.len(),
            allocation_at(allocations@, addr, 0) == allocation_at(allocations@, addr, i as int),
        decreases allocations.len() - i,
    {
        if allocations[i].addr == addr {
            return Some(i);
        }
        i += 1;
    }
    None
}

/// Finds the first tracked message with identifier `id`.
pub(crate) fn find_message(messages: &Vec<TrackedMessage>, id: u64) -> (r: Option<usize>)
    ensures
        match r {
            Some(i) => message_at(messages@, id, 0) == Some(i as int) && i < messages.len()
                && messages[i as int].id == id,
            None => message_at(messages@, id, 0) is None,
        },
{
    let mut i: usize = 0;
    while i < messages.len()
        invariant
            i <= messages.len(),
            message_at(messages@, id, 0) == message_at(messages@, id, i as int),
        decreases messages.len() - i,
    {
        if messages[i].id == id {
            return Some(i);
        }
        i += 1;
    }
    None
}

/// Number of pages that a buffer of `size` bytes takes.
pub(crate) fn page_span(size: u64) -> (pages: u64)
    ensures
        pages == pages_for(size as int),
{
    size / 4096 + if size % 4096 != 0 {
        1u64
    } else {
        0u64
    }
}

/// Asks the frame allocator to take back the buffer of `size` bytes at
/// `addr`, and says whether it did. A buffer that does not start at a page
/// or does not lie below the last page cannot be one of its own.
pub(crate) fn free_frames(pmm: &mut BitmapAllocator, addr: u64, size: u64) -> (granted: bool)
    ensures
        granted == frames_can_free(old(pmm)@, addr as int, size as int),
        final(pmm)@ == frames_free(old(pmm)@, addr as int, size as int),
{
    let pages: u64 = page_span(size);
    let limit: u64 = pmm.page_count() as u64;
    let first: u64 = addr / 4096;
    if addr % 4096 != 0 || first > limit || pages > limit - first {
        false
    } else {
        pmm.free(addr as usize, pages as usize).is_ok()
    }
}

impl Scheduler {
    /// The process and thread on whose behalf a system call is served: the
    /// current ones, if both exist.
    pub fn caller(&self) -> (r: Option<(u64, u64)>)
        ensures
            r == self@.caller(),
    {
        match (self.current_pid, self.current_tid) {
            (Some(pid), Some(tid)) => {
                if self.processes.contains_key(&pid) && self.threads.contains_key(&tid) {
                    Some((pid, tid))
                } else {
                    None
                }
            },
            _ => None,
        }
    }

    /// Takes the message at the front of the caller's queue. Where the queue
    /// is empty the calling thread starts to wait for a message and the
    /// result is `Ok(None)`.
    pub fn receive(&mut self) -> (r: Result<Option<Message>, KernelError>)
        ensures
            r == old(self)@.receive_result(),
            final(self)@ == old(self)@.after_receive(),
    {
        let (pid, tid) = match self.caller() {
            Some(c) => c,
            None => {
                return Err(KernelError::NoCurrentThread);
            },
        };
        let mut process: Process = self.processes.remove(&pid).unwrap();
        let front: Option<Message> = process.messages.pop_front();
        self.processes.insert(pid, process);
        match front {
            Some(msg) => {
                Ok(Some(msg))
            },
            None => {
                let found: Option<Thread> = self.thread(tid);
                if let Some(t) = found {
                    self.threads.insert(
                        tid,
                        Thread { id: t.id, pid: t.pid, state: ThreadState::Suspended },
                    );
                }
                Ok(None)
            },
        }
    }

    /// Sends the buffer at `addr`, of which `len` bytes are the payload, to
    /// process `target`.
    ///
    /// The buffer must stand in the caller's account; it moves to the
    /// account of the target. A delivered buffer is the receiver's to
    /// acknowledge, and acknowledging gives its pages back to the frame
    /// allocator: were a caller free to send an address it does not hold,
    /// it could have the pages of another process freed under it, and a
    /// buffer counted in two accounts would be freed twice. The message gets
    /// the next identifier and the
    /// calling process as its origin, and is put at the back of the target's
    /// queue. The first thread of the target that waits for a message can
    /// run again. Fails, and changes nothing, if nobody is running, the
    /// target does not exist, the caller holds no buffer at `addr`, or the
    /// identifiers are used up.
    pub fn send(&mut self, target: u64, addr: u64, len: u64) -> (r: Result<Message, KernelError>)
        ensures
            final(self)@ == old(self)@.after_send(target, addr, len),
            r == match old(self)@.send_error(target, addr) {
                Some(e) => Err::<Message, KernelError>(e),
                None => Ok::<Message, KernelError>(old(self)@.send_message(addr, len)),
            },
    {
        let (pid, _) = match self.caller() {
            Some(c) => c,
            None => {
                return Err(KernelError::NoCurrentThread);
            },
        };
        if !self.processes.contains_key(&target) {
            return Err(KernelError::NoSuchProcess);
        }
        let mut sender: Process = self.processes.remove(&pid).unwrap();
        let at: usize = match find_allocation(&sender.allocations, addr) {
            Some(i) => i,
            None => {
                self.processes.insert(pid, sender);
                return Err(KernelError::NotAllocated);
            },
        };
        if self.msg_id_gen == u64::MAX {
            self.processes.insert(pid, sender);
            return Err(KernelError::MessageIdsExhausted);
        }
        let buffer: Allocation = sender.allocations.remove(at);
        self.processes.insert(pid, sender);
        let msg = Message { id: self.msg_id_gen, pid, addr, len };
        self.msg_id_gen = msg.id + 1;
        self.message_sources.insert(msg.id, pid);
        let ghost taken = old(self)@.with_process(
            pid,
            ProcessView {
                allocations: old(self)@.processes[pid].allocations.remove(at as int),
                ..old(self)@.processes[pid]
            },
        );
        assert(self@.processes =~~= taken.processes);
        self.wake_first_suspended(target);
        let mut receiver: Process = self.processes.remove(&target).unwrap();
        receiver.allocations.push(buffer);
        receiver.message_allocations.push(TrackedMessage { id: msg.id, addr });
        receiver.messages.push_back(msg);
        self.processes.insert(target, receiver);
        Ok(msg)
    }
}

impl Scheduler {
    /// Releases the buffer at `addr` from the account of process `pid`.
    ///
    /// A buffer that came from the frame allocator goes back to it; where
    /// the allocator refuses, nothing changes and the call fails with
    /// `FrameRefused`. A buffer on the kernel's heap is returned for the
    /// caller to deallocate. Without a buffer at `addr` the call fails with
    /// `NotAllocated`.
    pub(crate) fn release_buffer(&mut self, pmm: &mut BitmapAllocator, pid: u64, addr: u64) -> (r:
        Result<Option<Allocation>, KernelError>)
        requires
            old(self)@.processes.contains_key(pid),
        ensures
            final(self)@ == old(self)@.after_release(old(pmm)@, pid, addr),
            final(pmm)@ == old(self)@.frames_after_release(old(pmm)@, pid, addr),
            r == match old(self)@.release_error(old(pmm)@, pid, addr) {
                Some(e) => Err::<Option<Allocation>, KernelError>(e),
                None => Ok::<Option<Allocation>, KernelError>(
                    old(self)@.release_result(pid, addr),
                ),
            },
    {
        let mut process: Process = self.processes.remove(&pid).unwrap();
        let at: usize = match find_allocation(&process.allocations, addr) {
            Some(i) => i,
            None => {
                self.processes.insert(pid, process);
                return Err(KernelError::NotAllocated);
            },
        };
        let buffer: Allocation = process.allocations[at];
        if !buffer.kernelside {
            let granted: bool = free_frames(pmm, addr, buffer.size);
            if !granted {
                self.processes.insert(pid, process);
                return Err(KernelError::FrameRefused);
            }
        }
        process.allocations.remove(at);
        self.processes.insert(pid, process);
        if buffer.kernelside {
            Ok(Some(buffer))
        } else {
            Ok(None)
        }
    }

    /// Hands out pages for `size` bytes to the caller and puts them into its
    /// account. Where the frame allocator has no run of pages for the
    /// request, or `size` is 0, the result is `Ok(None)` and nothing changes.
    pub fn allocate(&mut self, pmm: &mut BitmapAllocator, size: u64) -> (r: Result<
        Option<u64>,
        KernelError,
    >)
        ensures
            r == old(self)@.allocate_result(old(pmm)@, size),
            final(self)@ == old(self)@.after_allocate(old(pmm)@, size),
            final(pmm)@ == old(self)@.frames_after_allocate(old(pmm)@, size),
            r matches Ok(Some(addr)) ==> addr != 0,
    {
        let (pid, _) = match self.caller() {
            Some(c) => c,
            None => {
                return Err(KernelError::NoCurrentThread);
            },
        };
        let pages: u64 = page_span(size);
        let limit: usize = pmm.page_count();
        proof {
            lemma_alloc_page(pmm@, pages as int);
        }
        if pages > limit as u64 {
            return Ok(None);
        }
        let addr: u64 = match pmm.allocate(pages as usize) {
            Some(a) => a as u64,
            None => {
                return Ok(None);
            },
        };
        let mut process: Process = self.processes.remove(&pid).unwrap();
        process.allocations.push(Allocation { addr, size, kernelside: false });
        self.processes.insert(pid, process);
        Ok(Some(addr))
    }

    /// Releases the buffer at `addr` from the caller's account.
    ///
    /// A buffer that came from the frame allocator goes back to it; where
    /// the allocator refuses, nothing changes and the call fails with
    /// `FrameRefused`. A buffer on the kernel's heap is returned for the
    /// caller of the registry to deallocate. Without a running thread the
    /// call fails with `NoCurrentThread`, without a buffer at `addr` with
    /// `NotAllocated`.
    pub fn free(&mut self, pmm: &mut BitmapAllocator, addr: u64) -> (r: Result<
        Option<Allocation>,
        KernelError,
    >)
        ensures
            final(self)@ == old(self)@.after_free(old(pmm)@, addr),
            final(pmm)@ == old(self)@.frames_after_free(old(pmm)@, addr),
            r == match old(self)@.free_error(old(pmm)@, addr) {
                Some(e) => Err::<Option<Allocation>, KernelError>(e),
                None => Ok::<Option<Allocation>, KernelError>(
                    old(self)@.release_result(old(self)@.current_pid->0, addr),
                ),
            },
    {
        let (pid, _) = match self.caller() {
            Some(c) => c,
            None => {
                return Err(KernelError::NoCurrentThread);
            },
        };
        self.release_buffer(pmm, pid, addr)
    }

    /// Acknowledges message `id`: the message is no longer tracked and has
    /// no source any more, and its buffer, if the caller's account still
    /// holds it, is released as by `free`. Fails, and changes nothing, if
    /// nobody is running, the caller holds no such message, or the frame
    /// allocator refuses the buffer.
    pub fn ack(&mut self, pmm: &mut BitmapAllocator, id: u64) -> (r: Result<
        Option<Allocation>,
        KernelError,
    >)
        ensures
            final(self)@ == old(self)@.after_ack(old(pmm)@, id),
            final(pmm)@ == old(self)@.frames_after_ack(old(pmm)@, id),
            r == match old(self)@.ack_error(old(pmm)@, id) {
                Some(e) => Err::<Option<Allocation>, KernelError>(e),
                None => Ok::<Option<Allocation>, KernelError>(old(self)@.ack_result(id)),
            },
    {
        let (pid, _) = match self.caller() {
            Some(c) => c,
            None => {
                return Err(KernelError::NoCurrentThread);
            },
        };
        let found: Option<(u64, bool)> = match self.processes.get(&pid) {
            Some(p) => match find_message(&p.message_allocations, id) {
                Some(i) => {
                    let addr: u64 = p.message_allocations[i].addr;
                    Some((addr, find_allocation(&p.allocations, addr).is_some()))
                },
                None => None,
            },
            None => None,
        };
        let (addr, held) = match found {
            Some(f) => f,
            None => {
                return Err(KernelError::UnknownMessage);
            },
        };
        let released: Option<Allocation> = if held {
            match self.release_buffer(pmm, pid, addr) {
                Ok(b) => b,
                Err(e) => {
                    return Err(e);
                },
            }
        } else {
            None
        };
        assert(self@.processes.contains_key(pid));
        let mut process: Process = self.processes.remove(&pid).unwrap();
        match find_message(&process.message_allocations, id) {
            Some(i) => {
                process.message_allocations.remove(i);
            },
            None => {},
        }
        self.processes.insert(pid, process);
        self.message_sources.remove(&id);
        Ok(released)
    }

    /// Registers provider `provider` for the caller. A provider belongs to
    /// one process at most: a second registration fails with
    /// `ProviderTaken` and changes nothing.
    pub fn register_provider(&mut self, provider: u64) -> (r: Result<(), KernelError>)
        ensures
            final(self)@ == old(self)@.after_register_provider(provider),
            r == match old(self)@.provider_error(provider) {
                Some(e) => Err::<(), KernelError>(e),
                None => Ok::<(), KernelError>(()),
            },
    {
        let (pid, _) = match self.caller() {
            Some(c) => c,
            None => {
                return Err(KernelError::NoCurrentThread);
            },
        };
        if self.providers.contains_key(&provider) {
            return Err(KernelError::ProviderTaken);
        }
        let mut process: Process = self.processes.remove(&pid).unwrap();
        process.providers.push(provider);
        self.processes.insert(pid, process);
        self.providers.insert(provider, pid);
        Ok(())
    }

    /// The process that has registered provider `provider`.
    pub fn get_providing_process(&self, provider: u64) -> (r: Result<u64, KernelError>)
        ensures
            r == self@.providing_process(provider),
    {
        match self.providers.get(&provider) {
            Some(pid) => Ok(*pid),
            None => Err(KernelError::NoSuchProvider),
        }
    }

    /// Registers the caller for interrupt line `line` and returns the line.
    /// Only the legacy lines 0 to 0xDF can be registered, and each by one
    /// process: beyond that range the call fails with `IrqOutOfRange`, for a
    /// line that has a registrant with `IrqAlreadyOwned`, and the registrant
    /// stays. Line 0xD9 is granted like any other, though its vector, 249,
    /// is the one through which system calls come in.
    pub fn register_irq_handler(&mut self, line: u64) -> (r: Result<u8, KernelError>)
        ensures
            final(self)@ == old(self)@.after_register_irq(line),
            r == match old(self)@.register_irq_error(line) {
                Some(e) => Err::<u8, KernelError>(e),
                None => Ok::<u8, KernelError>(line as u8),
            },
    {
        let (pid, _) = match self.caller() {
            Some(c) => c,
            None => {
                return Err(KernelError::NoCurrentThread);
            },
        };
        if line > 0xDF {
            return Err(KernelError::IrqOutOfRange);
        }
        let irq: u8 = line as u8;
        if self.irq_handlers.contains_key(&irq) {
            return Err(KernelError::IrqAlreadyOwned);
        }
        self.irq_handlers.insert(irq, pid);
        Ok(irq)
    }
}

} // verus!
