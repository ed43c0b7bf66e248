//! The registry of processes and threads with their messages, tracked
//! buffers, providers and interrupt lines.

use crate::registry_model::{first_suspended, ProcessView, SchedulerView};
use crate::types::{Allocation, KernelError, Message, Thread, ThreadState, TrackedMessage};
use std::collections::HashMap;
use std::collections::VecDeque;
use vstd::prelude::*;

verus! {

broadcast use vstd::std_specs::hash::group_hash_axioms;

/// What the registry knows of one process.
pub struct Process {
    pub(crate) pid: u64,
    pub(crate) tids: Vec<u64>,
    pub(crate) messages: VecDeque<Message>,
    pub(crate) allocations: Vec<Allocation>,
    pub(crate) message_allocations: Vec<TrackedMessage>,
    pub(crate) providers: Vec<u64>,
}

impl Process {
    /// The mathematical content of the process.
    pub open(crate) spec fn view(&self) -> ProcessView {
        ProcessView {
            pid: self.pid,
            tids: self.tids@,
            messages: self.messages@,
            allocations: self.allocations@,
            message_allocations: self.message_allocations@,
            providers: self.providers@,
        }
    }
}

/// The state shared by the dispatcher and the interrupt bridge.
pub struct Scheduler {
    pub(crate) irq_handlers: HashMap<u8, u64>,
    pub(crate) message_sources: HashMap<u64, u64>,
    pub(crate) processes: HashMap<u64, Process>,
    pub(crate) threads: HashMap<u64, Thread>,
    pub(crate) providers: HashMap<u64, u64>,
    pub(crate) current_pid: Option<u64>,
    pub(crate) current_tid: Option<u64>,
    pub(crate) msg_id_gen: u64,
    pub(crate) pid_gen: u64,
    pub(crate) tid_gen: u64,
}

impl Scheduler {
    /// The mathematical content of the registry.
    pub open(crate) spec fn view(&self) -> SchedulerView {
        SchedulerView {
            irq_handlers: self.irq_handlers@,
            message_sources: self.message_sources@,
            processes: Map::new(
                |pid: u64| self.processes@.contains_key(pid),
                |pid: u64| self.processes@[pid]@,
            ),
            threads: self.threads@,
            providers: self.providers@,
            current_pid: self.current_pid,
            current_tid: self.current_tid,
            next_msg_id: self.msg_id_gen,
            next_pid: self.pid_gen,
            next_tid: self.tid_gen,
        }
    }

    /// An empty registry: no process, no thread, nothing running. The first
    /// message, process and thread each get the identifier 1.
    pub fn new() -> (s: Scheduler)
        ensures
            s@ == SchedulerView::empty(),
    {
        Scheduler::with_identifiers(1, 1, 1)
    }

    /// An empty registry whose first message, process and thread get the
    /// identifiers given.
    pub fn with_identifiers(next_msg_id: u64, next_pid: u64, next_tid: u64) -> (s: Scheduler)
        ensures
            s@ == (SchedulerView { next_msg_id, next_pid, next_tid, ..SchedulerView::empty() }),
    {
        let s = Scheduler {
            irq_handlers: HashMap::new(),
            message_sources: HashMap::new(),
            processes: HashMap::new(),
            threads: HashMap::new(),
            providers: HashMap::new(),
            current_pid: None,
            current_tid: None,
            msg_id_gen: next_msg_id,
            pid_gen: next_pid,
            tid_gen: next_tid,
        };
        s
    }
}

/// Copies a vector of plain values.
pub(crate) fn copy_vec<T: Copy>(v: &Vec<T>) -> (copy: Vec<T>)
    ensures
        copy@ == v@,
{
    let mut copy: Vec<T> = Vec::new();
    let mut i: usize = 0;
    while i < v.len()
        invariant
            i <= v.len(),
            copy@ == v@.take(i as int),
        decreases v.len() - i,
    {
        copy.push(v[i]);
        i += 1;
    }
    copy
}

impl Process {
    /// A process without threads, messages, buffers or providers.
    pub(crate) fn empty(pid: u64) -> (p: Process)
        ensures
            p@ == ProcessView::empty(pid),
    {
        Process {
            pid,
            tids: Vec::new(),
            messages: VecDeque::new(),
            allocations: Vec::new(),
            message_allocations: Vec::new(),
            providers: Vec::new(),
        }
    }
}

impl Scheduler {
    /// The process on whose behalf the processor runs, if any.
    pub fn current_pid(&self) -> (pid: Option<u64>)
        ensures
            pid == self@.current_pid,
    {
        self.current_pid
    }

    /// The thread that runs, if any.
    pub fn current_tid(&self) -> (tid: Option<u64>)
        ensures
            tid == self@.current_tid,
    {
        self.current_tid
    }

    /// The identifier that the next message gets.
    pub fn next_message_id(&self) -> (id: u64)
        ensures
            id == self@.next_msg_id,
    {
        self.msg_id_gen
    }

    /// What the registry knows of thread `tid`.
    pub fn thread(&self, tid: u64) -> (t: Option<Thread>)
        ensures
            t == if self@.threads.contains_key(tid) {
                Some(self@.threads[tid])
            } else {
                None
            },
    {
        match self.threads.get(&tid) {
            Some(t) => Some(*t),
            None => None,
        }
    }

    /// The process registered for interrupt line `irq`.
    pub fn irq_owner(&self, irq: u8) -> (pid: Option<u64>)
        ensures
            pid == if self@.irq_handlers.contains_key(irq) {
                Some(self@.irq_handlers[irq])
            } else {
                None
            },
    {
        match self.irq_handlers.get(&irq) {
            Some(pid) => Some(*pid),
            None => None,
        }
    }

    /// The entity that message `id` came from, while the message is live.
    pub fn message_source(&self, id: u64) -> (source: Option<u64>)
        ensures
            source == if self@.message_sources.contains_key(id) {
                Some(self@.message_sources[id])
            } else {
                None
            },
    {
        match self.message_sources.get(&id) {
            Some(source) => Some(*source),
            None => None,
        }
    }

    /// Whether process `pid` exists.
    pub fn has_process(&self, pid: u64) -> (found: bool)
        ensures
            found == self@.processes.contains_key(pid),
    {
        self.processes.contains_key(&pid)
    }

    /// The threads of process `pid`, oldest first.
    pub fn thread_ids(&self, pid: u64) -> (tids: Option<Vec<u64>>)
        ensures
            match tids {
                Some(v) => self@.processes.contains_key(pid) && v@ == self@.processes[pid].tids,
                None => !self@.processes.contains_key(pid),
            },
    {
        match self.processes.get(&pid) {
            Some(p) => Some(copy_vec(&p.tids)),
            None => None,
        }
    }

    /// The pending messages of process `pid`; the first is received next.
    pub fn queued_messages(&self, pid: u64) -> (messages: Option<Vec<Message>>)
        ensures
            match messages {
                Some(v) => self@.processes.contains_key(pid) && v@
                    == self@.processes[pid].messages,
                None => !self@.processes.contains_key(pid),
            },
    {
        match self.processes.get(&pid) {
            Some(p) => {
                let mut copy: Vec<Message> = Vec::new();
                let mut i: usize = 0;
                while i < p.messages.len()
                    invariant
                        i <= p.messages.len(),
                        copy@ == p.messages@.take(i as int),
                    decreases p.messages.len() - i,
                {
                    copy.push(p.messages[i]);
                    i += 1;
                }
                Some(copy)
            },
            None => None,
        }
    }

    /// The buffers that process `pid` accounts for, in the order they came.
    pub fn allocations(&self, pid: u64) -> (allocations: Option<Vec<Allocation>>)
        ensures
            match allocations {
                Some(v) => self@.processes.contains_key(pid) && v@
                    == self@.processes[pid].allocations,
                None => !self@.processes.contains_key(pid),
            },
    {
        match self.processes.get(&pid) {
            Some(p) => Some(copy_vec(&p.allocations)),
            None => None,
        }
    }

    /// The buffers of the messages that process `pid` has not acknowledged yet.
    pub fn message_allocations(&self, pid: u64) -> (messages: Option<Vec<TrackedMessage>>)
        ensures
            match messages {
                Some(v) => self@.processes.contains_key(pid) && v@
                    == self@.processes[pid].message_allocations,
                None => !self@.processes.contains_key(pid),
            },
    {
        match self.processes.get(&pid) {
            Some(p) => Some(copy_vec(&p.message_allocations)),
            None => None,
        }
    }

    /// Adds a process without threads and returns its identifier, which no
    /// process had before. Where the identifiers are used up, nothing
    /// changes and the result is `None`.
    pub fn spawn_process(&mut self) -> (pid: Option<u64>)
        ensures
            final(self)@ == old(self)@.spawn_process(),
            pid == if old(self)@.next_pid == u64::MAX {
                None
            } else {
                Some(old(self)@.next_pid)
            },
    {
        if self.pid_gen == u64::MAX {
            return None;
        }
        let pid: u64 = self.pid_gen;
        self.pid_gen = pid + 1;
        self.processes.insert(pid, Process::empty(pid));
        Some(pid)
    }

    /// Adds a thread to process `pid` and returns its identifier, which no
    /// thread had before. The thread can run. Where the process does not
    /// exist or the identifiers are used up, nothing changes and the result
    /// is `None`.
    pub fn spawn_thread(&mut self, pid: u64) -> (tid: Option<u64>)
        ensures
            final(self)@ == old(self)@.spawn_thread(pid),
            tid == if old(self)@.can_spawn_thread(pid) {
                Some(old(self)@.next_tid)
            } else {
                None
            },
    {
        if self.tid_gen == u64::MAX {
            return None;
        }
        let mut p: Process = match self.processes.remove(&pid) {
            Some(p) => p,
            None => {
                return None;
            },
        };
        let tid: u64 = self.tid_gen;
        self.tid_gen = tid + 1;
        p.tids.push(tid);
        self.processes.insert(pid, p);
        self.threads.insert(tid, Thread { id: tid, pid, state: ThreadState::Inactive });
        Some(tid)
    }

    /// Puts the running thread, if it still is running, back among those that can run.
    fn preempt(&mut self)
        ensures
            final(self)@ == old(self)@.preempt(),
    {
        if let Some(tid) = self.current_tid {
            let found: Option<Thread> = self.thread(tid);
            if let Some(t) = found {
                if let ThreadState::Running = t.state {
                    self.threads.insert(
                        tid,
                        Thread { id: t.id, pid: t.pid, state: ThreadState::Inactive },
                    );
                }
            }
        }
    }

    /// Gives the processor to thread `next`, or to nobody. The thread that
    /// ran, if it still was running, can run again later; `next` becomes the
    /// running thread and its process the current one. A thread that does
    /// not exist or waits for a message cannot be switched to: then nothing
    /// changes.
    pub fn switch_to(&mut self, next: Option<u64>) -> (r: Result<(), KernelError>)
        ensures
            final(self)@ == old(self)@.switch_to(next),
            r == if old(self)@.can_switch_to(next) {
                Ok::<(), KernelError>(())
            } else {
                Err::<(), KernelError>(KernelError::NoSuchThread)
            },
    {
        match next {
            Some(tid) => {
                let found: Option<Thread> = self.thread(tid);
                match found {
                    Some(t) => {
                        if let ThreadState::Suspended = t.state {
                            return Err(KernelError::NoSuchThread);
                        }
                        self.preempt();
                        self.threads.insert(
                            tid,
                            Thread { id: t.id, pid: t.pid, state: ThreadState::Running },
                        );
                        self.current_pid = Some(t.pid);
                        self.current_tid = Some(tid);
                        Ok(())
                    },
                    None => Err(KernelError::NoSuchThread),
                }
            },
            None => {
                self.preempt();
                self.current_pid = None;
                self.current_tid = None;
                Ok(())
            },
        }
    }

    /// Lets the first thread of process `pid` that waits for a message run again.
    pub(crate) fn wake_first_suspended(&mut self, pid: u64) -> (tid: Option<u64>)
        requires
            old(self)@.processes.contains_key(pid),
        ensures
            tid == old(self)@.woken(pid),
            final(self)@ == old(self)@.wake(pid),
    {
        let p: &Process = self.processes.get(&pid).unwrap();
        let mut i: usize = 0;
        while i < p.tids.len()
            invariant
                i <= p.tids.len(),
                self@ == old(self)@,
                p@.tids == old(self)@.processes[pid].tids,
                p.tids@ == p@.tids,
                old(self)@.woken(pid) == first_suspended(self@.threads, p.tids@, i as int),
            decreases p.tids.len() - i,
        {
            let tid: u64 = p.tids[i];
            let found: Option<Thread> = match self.threads.get(&tid) {
                Some(t) => Some(*t),
                None => None,
            };
            if let Some(t) = found {
                if let ThreadState::Suspended = t.state {
                    self.threads.insert(
                        tid,
                        Thread { id: t.id, pid: t.pid, state: ThreadState::Inactive },
                    );
                    return Some(tid);
                }
            }
            i += 1;
        }
        None
    }
}

} // verus!
