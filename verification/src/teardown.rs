//! Tearing down a thread, and with its last thread a process and all that
//! the registry holds for it.

use crate::handlers::free_frames;
use crate::pmm::BitmapAllocator;
use crate::registry::{Process, Scheduler};
use crate::registry_model::{
    frames_free_all, holds_message, kernelside_of, lines_without, position, providers_without,
    sources_without, threads_without,
};
use crate::types::{Allocation, KernelError, Thread, TrackedMessage};
use std::collections::HashMap;
use vstd::prelude::*;

verus! {

broadcast use vstd::std_specs::hash::group_hash_axioms;

/// The first `i + 1` elements hold what the first `i` hold, and element `i`.
proof fn lemma_take_contains(s: Seq<u64>, i: int, k: u64)
    requires
        0 <= i < s.len(),
    ensures
        s.take(i + 1).contains(k) == (s.take(i).contains(k) || s[i] == k),
{
    let more = s.take(i + 1);
    if s[i] == k {
        assert(more[i] == k);
    }
}

/// The first `i + 1` tracked messages hold what the first `i` hold, and message `i`.
proof fn lemma_take_holds(s: Seq<TrackedMessage>, i: int, k: u64)
    requires
        0 <= i < s.len(),
    ensures
        holds_message(s.take(i + 1), k) == (holds_message(s.take(i), k) || s[i].id == k),
{
    let more = s.take(i + 1);
    if s[i].id == k {
        assert(more[i].id == k);
    }
}

/// Finds the first occurrence of `x`.
pub(crate) fn find_position(list: &Vec<u64>, x: u64) -> (r: Option<usize>)
    ensures
        match r {
            Some(i) => position(list@, x, 0) == Some(i as int) && i < list.len(),
            None => position(list@, x, 0) is None,
        },
{
    let mut i: usize = 0;
    while i < list.len()
        invariant
            i <= list.len(),
            position(list@, x, 0) == position(list@, x, i as int),
        decreases list.len() - i,
    {
        if list[i] == x {
            return Some(i);
        }
        i += 1;
    }
    None
}

/// Removes the threads of `tids` that belong to process `pid`.
fn remove_threads(threads: &mut HashMap<u64, Thread>, tids: &Vec<u64>, pid: u64)
    ensures
        final(threads)@ == threads_without(old(threads)@, tids@, pid),
{
    let mut i: usize = 0;
    while i < tids.len()
        invariant
            i <= tids.len(),
            threads@ == threads_without(old(threads)@, tids@.take(i as int), pid),
        decreases tids.len() - i,
    {
        let tid: u64 = tids[i];
        let owned: bool = match threads.get(&tid) {
            Some(t) => t.pid == pid,
            None => false,
        };
        if owned {
            threads.remove(&tid);
        }
        proof {
            assert forall|k: u64|
                tids@.take(i + 1).contains(k) == (tids@.take(i as int).contains(k)
                    || tids@[i as int] == k) by {
                lemma_take_contains(tids@, i as int, k);
            }
        }
        i += 1;
    }
    assert(tids@.take(tids.len() as int) =~= tids@);
}

/// Removes the providers of `list` that belong to process `pid`.
fn remove_providers(providers: &mut HashMap<u64, u64>, list: &Vec<u64>, pid: u64)
    ensures
        final(providers)@ == providers_without(old(providers)@, list@, pid),
{
    let mut i: usize = 0;
    while i < list.len()
        invariant
            i <= list.len(),
            providers@ == providers_without(old(providers)@, list@.take(i as int), pid),
        decreases list.len() - i,
    {
        let provider: u64 = list[i];
        let owned: bool = match providers.get(&provider) {
            Some(owner) => *owner == pid,
            None => false,
        };
        if owned {
            providers.remove(&provider);
        }
        proof {
            assert forall|k: u64|
                list@.take(i + 1).contains(k) == (list@.take(i as int).contains(k)
                    || list@[i as int] == k) by {
                lemma_take_contains(list@, i as int, k);
            }
        }
        i += 1;
    }
    assert(list@.take(list.len() as int) =~= list@);
}

/// Removes the sources of the messages in `list`.
fn remove_sources(sources: &mut HashMap<u64, u64>, list: &Vec<TrackedMessage>)
    ensures
        final(sources)@ == sources_without(old(sources)@, list@),
{
    let mut i: usize = 0;
    while i < list.len()
        invariant
            i <= list.len(),
            sources@ == sources_without(old(sources)@, list@.take(i as int)),
        decreases list.len() - i,
    {
        let id: u64 = list[i].id;
        sources.remove(&id);
        proof {
            assert forall|k: u64|
                holds_message(list@.take(i + 1), k) == (holds_message(list@.take(i as int), k)
                    || list@[i as int].id == k) by {
                lemma_take_holds(list@, i as int, k);
            }
        }
        i += 1;
    }
    assert(list@.take(list.len() as int) =~= list@);
}

/// Removes the interrupt lines registered for process `pid`.
fn remove_lines(lines: &mut HashMap<u8, u64>, pid: u64)
    ensures
        final(lines)@ == lines_without(old(lines)@, pid),
{
    let mut i: u16 = 0;
    while i < 256
        invariant
            i <= 256,
            lines@ == Map::new(
                |k: u8| old(lines)@.contains_key(k) && !(k < i && old(lines)@[k] == pid),
                |k: u8| old(lines)@[k],
            ),
        decreases 256 - i,
    {
        let line: u8 = i as u8;
        let owned: bool = match lines.get(&line) {
            Some(owner) => *owner == pid,
            None => false,
        };
        if owned {
            lines.remove(&line);
        }
        i += 1;
    }
}

/// Gives every buffer of `allocations` that came from the frame allocator
/// back to it, and returns those that lie on the kernel's heap.
fn release_all(pmm: &mut BitmapAllocator, allocations: &Vec<Allocation>) -> (kept: Vec<Allocation>)
    ensures
        final(pmm)@ == frames_free_all(old(pmm)@, allocations@),
        kept@ == kernelside_of(allocations@),
{
    let mut kept: Vec<Allocation> = Vec::new();
    let mut i: usize = 0;
    while i < allocations.len()
        invariant
            i <= allocations.len(),
            pmm@ == frames_free_all(old(pmm)@, allocations@.take(i as int)),
            kept@ == kernelside_of(allocations@.take(i as int)),
        decreases allocations.len() - i,
    {
        let buffer: Allocation = allocations[i];
        proof {
            assert(allocations@.take(i + 1).drop_last() =~= allocations@.take(i as int));
        }
        if buffer.kernelside {
            kept.push(buffer);
        } else {
            free_frames(pmm, buffer.addr, buffer.size);
        }
        i += 1;
    }
    assert(allocations@.take(allocations.len() as int) =~= allocations@);
    kept
}

impl Scheduler {
    /// Tears down process `pid`: removes it with its threads, its
    /// providers, its interrupt lines and the sources of the messages it
    /// held, and gives its pages back to the frame allocator. Returns the
    /// kernel-side buffers of the process, which the caller deallocates.
    /// Without such a process nothing changes.
    pub fn terminate_process(&mut self, pmm: &mut BitmapAllocator, pid: u64) -> (released: Vec<
        Allocation,
    >)
        ensures
            final(self)@ == old(self)@.terminate(pid),
            final(pmm)@ == old(self)@.frames_after_terminate(old(pmm)@, pid),
            released@ == old(self)@.terminate_released(pid),
    {
        let process: Process = match self.processes.remove(&pid) {
            Some(p) => p,
            None => {
                return Vec::new();
            },
        };
        remove_threads(&mut self.threads, &process.tids, pid);
        remove_providers(&mut self.providers, &process.providers, pid);
        remove_sources(&mut self.message_sources, &process.message_allocations);
        remove_lines(&mut self.irq_handlers, pid);
        let released: Vec<Allocation> = release_all(pmm, &process.allocations);
        let current: bool = match self.current_pid {
            Some(c) => c == pid,
            None => false,
        };
        if current {
            self.current_pid = None;
            self.current_tid = None;
        }
        released
    }

    /// Tears down the calling thread, and with the last thread of a process
    /// the process as `terminate_process` does. Afterwards nothing is
    /// scheduled. Returns the kernel-side buffers left to deallocate.
    pub fn thread_teardown(&mut self, pmm: &mut BitmapAllocator) -> (r: Result<
        Vec<Allocation>,
        KernelError,
    >)
        ensures
            final(self)@ == old(self)@.after_quit(),
            final(pmm)@ == old(self)@.frames_after_quit(old(pmm)@),
            match r {
                Ok(released) => old(self)@.caller() is Some && released@
                    == old(self)@.quit_released(),
                Err(e) => old(self)@.caller() is None && e == KernelError::NoCurrentThread,
            },
    {
        let (pid, tid) = match self.caller() {
            Some(c) => c,
            None => {
                return Err(KernelError::NoCurrentThread);
            },
        };
        let mut process: Process = self.processes.remove(&pid).unwrap();
        match find_position(&process.tids, tid) {
            Some(i) => {
                process.tids.remove(i);
            },
            None => {},
        }
        let last: bool = process.tids.len() == 0;
        self.processes.insert(pid, process);
        self.threads.remove(&tid);
        self.current_pid = None;
        self.current_tid = None;
        if last {
            Ok(self.terminate_process(pmm, pid))
        } else {
            Ok(Vec::new())
        }
    }
}

} // verus!
