//! Mathematical model of the system calls: what each makes of the registry
//! and of the frame allocator.

use crate::frame_model::AllocatorState;
use crate::registry_model::{
    allocation_at, frames_can_free, frames_free, frames_free_all, kernelside_of, lines_without,
    message_at, pages_for, position, providers_without, sources_without, threads_without,
    ProcessView, SchedulerView,
};
use crate::types::{Allocation, KernelError, Message, ThreadState, TrackedMessage};
use vstd::prelude::*;

verus! {

impl SchedulerView {
    // ----- receive -----

    /// What a receive call returns: the message at the front of the
    /// caller's queue, or nothing if the queue is empty.
    pub open spec fn receive_result(self) -> Result<Option<Message>, KernelError> {
        match self.caller() {
            None => Err(KernelError::NoCurrentThread),
            Some((pid, tid)) => if self.processes[pid].messages.len() > 0 {
                Ok(Some(self.processes[pid].messages[0]))
            } else {
                Ok(None)
            },
        }
    }

    /// The registry after a receive call: the message at the front has left
    /// the queue, or, if there was none, the calling thread waits.
    pub open spec fn after_receive(self) -> SchedulerView {
        match self.caller() {
            None => self,
            Some((pid, tid)) => {
                let p = self.processes[pid];
                if p.messages.len() > 0 {
                    self.with_process(pid, ProcessView { messages: p.messages.drop_first(), ..p })
                } else {
                    self.with_thread_state(tid, ThreadState::Suspended)
                }
            },
        }
    }

    // ----- send -----

    /// Why the caller cannot send the buffer at `addr` to process `target`.
    pub open spec fn send_error(self, target: u64, addr: u64) -> Option<KernelError> {
        match self.caller() {
            None => Some(KernelError::NoCurrentThread),
            Some((pid, tid)) => if !self.processes.contains_key(target) {
                Some(KernelError::NoSuchProcess)
            } else if allocation_at(self.processes[pid].allocations, addr, 0) is None {
                Some(KernelError::NotAllocated)
            } else if self.next_msg_id == u64::MAX {
                Some(KernelError::MessageIdsExhausted)
            } else {
                None
            },
        }
    }

    /// The message that the caller sends next: it has the next identifier
    /// and the calling process as its origin.
    pub open spec fn send_message(self, addr: u64, len: u64) -> Message {
        Message { id: self.next_msg_id, pid: self.current_pid->0, addr, len }
    }

    /// The registry after the caller sent the buffer at `addr` to process
    /// `target`: the buffer has moved from the caller's account to the
    /// target's, the message has a source and stands at the back of the
    /// target's queue, and the first waiting thread of the target can run.
    pub open spec fn after_send(self, target: u64, addr: u64, len: u64) -> SchedulerView {
        if self.send_error(target, addr) is Some {
            self
        } else {
            let pid = self.current_pid->0;
            let msg = self.send_message(addr, len);
            let from = self.processes[pid];
            let i = allocation_at(from.allocations, addr, 0)->0;
            let buffer = from.allocations[i];
            let taken = self.with_process(
                pid,
                ProcessView { allocations: from.allocations.remove(i), ..from },
            );
            let to = taken.processes[target];
            let given = ProcessView {
                allocations: to.allocations.push(buffer),
                message_allocations: to.message_allocations.push(
                    TrackedMessage { id: msg.id, addr },
                ),
                messages: to.messages.push(msg),
                ..to
            };
            SchedulerView {
                message_sources: self.message_sources.insert(msg.id, pid),
                next_msg_id: (msg.id + 1) as u64,
                ..taken.wake(target).with_process(target, given)
            }
        }
    }

    // ----- buffers -----

    /// Why the buffer at `addr` cannot be released from the account of
    /// process `pid`.
    pub open spec fn release_error(self, frames: AllocatorState, pid: u64, addr: u64) -> Option<
        KernelError,
    > {
        let allocations = self.processes[pid].allocations;
        match allocation_at(allocations, addr, 0) {
            None => Some(KernelError::NotAllocated),
            Some(i) => if !allocations[i].kernelside && !frames_can_free(
                frames,
                addr as int,
                allocations[i].size as int,
            ) {
                Some(KernelError::FrameRefused)
            } else {
                None
            },
        }
    }

    /// The buffer at `addr` in the account of process `pid`.
    pub open spec fn buffer_at(self, pid: u64, addr: u64) -> Allocation {
        let allocations = self.processes[pid].allocations;
        allocations[allocation_at(allocations, addr, 0)->0]
    }

    /// What is left for the caller of the registry to deallocate when the
    /// buffer at `addr` is released: the buffer itself if it lies on the
    /// kernel's heap, nothing if the frame allocator took it back.
    pub open spec fn release_result(self, pid: u64, addr: u64) -> Option<Allocation> {
        if self.buffer_at(pid, addr).kernelside {
            Some(self.buffer_at(pid, addr))
        } else {
            None
        }
    }

    /// The registry after the buffer at `addr` left the account of process `pid`.
    pub open spec fn after_release(
        self,
        frames: AllocatorState,
        pid: u64,
        addr: u64,
    ) -> SchedulerView {
        if self.release_error(frames, pid, addr) is Some {
            self
        } else {
            let p = self.processes[pid];
            let i = allocation_at(p.allocations, addr, 0)->0;
            self.with_process(pid, ProcessView { allocations: p.allocations.remove(i), ..p })
        }
    }

    /// The frame allocator after the buffer at `addr` left the account of
    /// process `pid`.
    pub open spec fn frames_after_release(
        self,
        frames: AllocatorState,
        pid: u64,
        addr: u64,
    ) -> AllocatorState {
        if self.release_error(frames, pid, addr) is Some || self.buffer_at(pid, addr).kernelside {
            frames
        } else {
            frames_free(frames, addr as int, self.buffer_at(pid, addr).size as int)
        }
    }

    // ----- allocate and free -----

    /// The address that an allocate call for `size` bytes returns, or `None`
    /// where the frame allocator has no run of pages for it.
    pub open spec fn allocate_result(self, frames: AllocatorState, size: u64) -> Result<
        Option<u64>,
        KernelError,
    > {
        match self.caller() {
            None => Err(KernelError::NoCurrentThread),
            Some((pid, tid)) => match frames.alloc_page(pages_for(size as int)) {
                Some(p) => Ok(Some((p * 4096) as u64)),
                None => Ok(None),
            },
        }
    }

    /// The registry after an allocate call for `size` bytes: the pages
    /// handed out, if any, stand in the caller's account.
    pub open spec fn after_allocate(self, frames: AllocatorState, size: u64) -> SchedulerView {
        match self.allocate_result(frames, size) {
            Ok(Some(addr)) => {
                let pid = self.current_pid->0;
                let p = self.processes[pid];
                self.with_process(
                    pid,
                    ProcessView {
                        allocations: p.allocations.push(
                            Allocation { addr, size, kernelside: false },
                        ),
                        ..p
                    },
                )
            },
            _ => self,
        }
    }

    /// The frame allocator after an allocate call for `size` bytes.
    pub open spec fn frames_after_allocate(
        self,
        frames: AllocatorState,
        size: u64,
    ) -> AllocatorState {
        if self.caller() is Some {
            frames.allocate(pages_for(size as int))
        } else {
            frames
        }
    }

    /// Why a free call for the buffer at `addr` fails.
    pub open spec fn free_error(self, frames: AllocatorState, addr: u64) -> Option<KernelError> {
        match self.caller() {
            None => Some(KernelError::NoCurrentThread),
            Some((pid, tid)) => self.release_error(frames, pid, addr),
        }
    }

    /// The registry after a free call for the buffer at `addr`.
    pub open spec fn after_free(self, frames: AllocatorState, addr: u64) -> SchedulerView {
        if self.free_error(frames, addr) is Some {
            self
        } else {
            self.after_release(frames, self.current_pid->0, addr)
        }
    }

    /// The frame allocator after a free call for the buffer at `addr`.
    pub open spec fn frames_after_free(self, frames: AllocatorState, addr: u64) -> AllocatorState {
        if self.free_error(frames, addr) is Some {
            frames
        } else {
            self.frames_after_release(frames, self.current_pid->0, addr)
        }
    }

    // ----- acknowledge -----

    /// Whether the caller's account still holds the buffer of its message `id`.
    pub open spec fn ack_has_buffer(self, id: u64) -> bool {
        let p = self.processes[self.current_pid->0];
        let i = message_at(p.message_allocations, id, 0)->0;
        allocation_at(p.allocations, p.message_allocations[i].addr, 0) is Some
    }

    /// The address of the buffer of the caller's message `id`.
    pub open spec fn ack_addr(self, id: u64) -> u64 {
        let p = self.processes[self.current_pid->0];
        p.message_allocations[message_at(p.message_allocations, id, 0)->0].addr
    }

    /// Why the caller cannot acknowledge message `id`.
    pub open spec fn ack_error(self, frames: AllocatorState, id: u64) -> Option<KernelError> {
        match self.caller() {
            None => Some(KernelError::NoCurrentThread),
            Some((pid, tid)) => if message_at(self.processes[pid].message_allocations, id, 0)
                is None {
                Some(KernelError::UnknownMessage)
            } else if self.ack_has_buffer(id) {
                self.release_error(frames, pid, self.ack_addr(id))
            } else {
                None
            },
        }
    }

    /// What is left for the caller of the registry to deallocate after
    /// message `id` was acknowledged.
    pub open spec fn ack_result(self, id: u64) -> Option<Allocation> {
        if self.ack_has_buffer(id) {
            self.release_result(self.current_pid->0, self.ack_addr(id))
        } else {
            None
        }
    }

    /// The registry after the caller acknowledged message `id`: the message
    /// has no source any more and is not tracked, and its buffer, if the
    /// account still held it, has left the account.
    pub open spec fn after_ack(self, frames: AllocatorState, id: u64) -> SchedulerView {
        if self.ack_error(frames, id) is Some {
            self
        } else {
            let pid = self.current_pid->0;
            let released = if self.ack_has_buffer(id) {
                self.after_release(frames, pid, self.ack_addr(id))
            } else {
                self
            };
            let p = released.processes[pid];
            let i = message_at(p.message_allocations, id, 0)->0;
            SchedulerView {
                message_sources: self.message_sources.remove(id),
                ..released.with_process(
                    pid,
                    ProcessView { message_allocations: p.message_allocations.remove(i), ..p },
                )
            }
        }
    }

    /// The frame allocator after the caller acknowledged message `id`.
    pub open spec fn frames_after_ack(self, frames: AllocatorState, id: u64) -> AllocatorState {
        if self.ack_error(frames, id) is Some || !self.ack_has_buffer(id) {
            frames
        } else {
            self.frames_after_release(frames, self.current_pid->0, self.ack_addr(id))
        }
    }

    // ----- providers -----

    /// Why the caller cannot register provider `provider`.
    pub open spec fn provider_error(self, provider: u64) -> Option<KernelError> {
        if self.caller() is None {
            Some(KernelError::NoCurrentThread)
        } else if self.providers.contains_key(provider) {
            Some(KernelError::ProviderTaken)
        } else {
            None
        }
    }

    /// The registry after the caller registered provider `provider`.
    pub open spec fn after_register_provider(self, provider: u64) -> SchedulerView {
        if self.provider_error(provider) is Some {
            self
        } else {
            let pid = self.current_pid->0;
            let p = self.processes[pid];
            SchedulerView {
                providers: self.providers.insert(provider, pid),
                ..self.with_process(pid, ProcessView { providers: p.providers.push(provider), ..p })
            }
        }
    }

    /// The process behind provider `provider`.
    pub open spec fn providing_process(self, provider: u64) -> Result<u64, KernelError> {
        if self.providers.contains_key(provider) {
            Ok(self.providers[provider])
        } else {
            Err(KernelError::NoSuchProvider)
        }
    }

    // ----- interrupt lines -----

    /// Why the caller cannot register for interrupt line `line`.
    pub open spec fn register_irq_error(self, line: u64) -> Option<KernelError> {
        if self.caller() is None {
            Some(KernelError::NoCurrentThread)
        } else if line > 0xDF {
            Some(KernelError::IrqOutOfRange)
        } else if self.irq_handlers.contains_key(line as u8) {
            Some(KernelError::IrqAlreadyOwned)
        } else {
            None
        }
    }

    /// The registry after the caller registered for interrupt line `line`.
    pub open spec fn after_register_irq(self, line: u64) -> SchedulerView {
        if self.register_irq_error(line) is Some {
            self
        } else {
            SchedulerView {
                irq_handlers: self.irq_handlers.insert(line as u8, self.current_pid->0),
                ..self
            }
        }
    }
}

impl SchedulerView {
    // ----- teardown -----

    /// The registry after process `pid` was torn down: the process is gone,
    /// and with it its threads, its providers, its interrupt lines and the
    /// sources of the messages it held. If it was the current process,
    /// nothing is scheduled any more.
    pub open spec fn terminate(self, pid: u64) -> SchedulerView {
        if !self.processes.contains_key(pid) {
            self
        } else {
            let p = self.processes[pid];
            SchedulerView {
                irq_handlers: lines_without(self.irq_handlers, pid),
                message_sources: sources_without(self.message_sources, p.message_allocations),
                processes: self.processes.remove(pid),
                threads: threads_without(self.threads, p.tids, pid),
                providers: providers_without(self.providers, p.providers, pid),
                current_pid: if self.current_pid == Some(pid) {
                    None
                } else {
                    self.current_pid
                },
                current_tid: if self.current_pid == Some(pid) {
                    None
                } else {
                    self.current_tid
                },
                ..self
            }
        }
    }

    /// The kernel-side buffers that the teardown of process `pid` leaves
    /// for the caller of the registry to deallocate.
    pub open spec fn terminate_released(self, pid: u64) -> Seq<Allocation> {
        if self.processes.contains_key(pid) {
            kernelside_of(self.processes[pid].allocations)
        } else {
            Seq::empty()
        }
    }

    /// The frame allocator after the teardown of process `pid`: it was
    /// asked to take back every buffer of the process that came from it.
    pub open spec fn frames_after_terminate(
        self,
        frames: AllocatorState,
        pid: u64,
    ) -> AllocatorState {
        if self.processes.contains_key(pid) {
            frames_free_all(frames, self.processes[pid].allocations)
        } else {
            frames
        }
    }

    /// The registry after the calling thread left, before anything else is
    /// torn down: the thread is gone from the registry and from its process,
    /// and nothing is scheduled.
    pub open spec fn without_caller(self) -> SchedulerView {
        match self.caller() {
            None => self,
            Some((pid, tid)) => {
                let p = self.processes[pid];
                let rest = match position(p.tids, tid, 0) {
                    Some(i) => p.tids.remove(i),
                    None => p.tids,
                };
                SchedulerView {
                    threads: self.threads.remove(tid),
                    current_pid: None,
                    current_tid: None,
                    ..self.with_process(pid, ProcessView { tids: rest, ..p })
                }
            },
        }
    }

    /// Whether the calling thread is the last of its process.
    pub open spec fn quit_ends_process(self) -> bool {
        self.caller() is Some && self.without_caller().processes[self.current_pid->0].tids.len()
            == 0
    }

    /// The registry after the calling thread quit: the thread is gone, and
    /// if it was the last of its process, so is the process.
    pub open spec fn after_quit(self) -> SchedulerView {
        if self.quit_ends_process() {
            self.without_caller().terminate(self.current_pid->0)
        } else {
            self.without_caller()
        }
    }

    /// The kernel-side buffers left to deallocate after the calling thread quit.
    pub open spec fn quit_released(self) -> Seq<Allocation> {
        if self.quit_ends_process() {
            self.without_caller().terminate_released(self.current_pid->0)
        } else {
            Seq::empty()
        }
    }

    /// The frame allocator after the calling thread quit.
    pub open spec fn frames_after_quit(self, frames: AllocatorState) -> AllocatorState {
        if self.quit_ends_process() {
            self.without_caller().frames_after_terminate(frames, self.current_pid->0)
        } else {
            frames
        }
    }
}

} // verus!
