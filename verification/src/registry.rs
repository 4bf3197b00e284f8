//! The live-process registry: the single source of truth for which processes
//! are currently owned by the supervisor.
//!
//! Each entry records the OS process id and a role label. The registry keeps
//! its entries in registration order and never holds the same process id
//! twice; an entry stays from the moment its launch is recorded until the
//! registry is drained for shutdown.
use vstd::prelude::*;

verus! {

/// One process owned by the supervisor: its OS process id and the worker
/// role it was launched for.
pub struct SupervisedProcess {
    pub pid: u32,
    pub role: String,
}

impl View for SupervisedProcess {
    type V = (u32, Seq<char>);

    open spec fn view(&self) -> (u32, Seq<char>) {
        (self.pid, self.role@)
    }
}

/// An ordered collection of the processes this supervisor has launched and
/// not yet torn down.
pub struct ProcessRegistry {
    entries: Vec<SupervisedProcess>,
}

impl View for ProcessRegistry {
    type V = Seq<(u32, Seq<char>)>;

    closed spec fn view(&self) -> Seq<(u32, Seq<char>)> {
        self.entries@.map_values(|p: SupervisedProcess| p@)
    }
}

/// Whether some entry of `entries` carries the process id `pid`.
pub open spec fn spec_has_pid(entries: Seq<(u32, Seq<char>)>, pid: u32) -> bool {
    exists|i: int| 0 <= i < entries.len() && entries[i].0 == pid
}

impl ProcessRegistry {
    /// No process id occurs twice.
    pub open spec fn wf(&self) -> bool {
        forall|i: int, j: int|
            0 <= i < j < self@.len() ==> self@[i].0 != self@[j].0
    }

    /// An empty registry.
    pub fn new() -> (r: Self)
        ensures
            r@ =~= Seq::<(u32, Seq<char>)>::empty(),
            r.wf(),
    {
        ProcessRegistry { entries: Vec::new() }
    }

    /// How many processes are currently registered.
    pub fn len(&self) -> (n: usize)
        ensures
            n == self@.len(),
    {
        self.entries.len()
    }

    /// Whether a process with id `pid` is currently registered.
    pub fn has_pid(&self, pid: u32) -> (b: bool)
        ensures
            b == spec_has_pid(self@, pid),
    {
        let mut i: usize = 0;
        while i < self.entries.len()
            invariant
                0 <= i <= self@.len(),
                self@.len() == self.entries@.len(),
                forall|k: int| 0 <= k < i ==> self@[k].0 != pid,
                forall|k: int| 0 <= k < self@.len() ==> self@[k] == self.entries@[k]@,
            decreases self@.len() - i,
        {
            if self.entries[i].pid == pid {
                assert(self@[i as int].0 == pid);
                return true;
            }
            i += 1;
        }
        false
    }

    /// Record a newly launched process. The registry refuses a process id it
    /// already holds: in that case nothing changes and `added` is false.
    pub fn register(&mut self, p: SupervisedProcess) -> (added: bool)
        requires
            old(self).wf(),
        ensures
            final(self).wf(),
            added == !spec_has_pid(old(self)@, p.pid),
            added ==> final(self)@ =~= old(self)@.push(p@),
            !added ==> final(self)@ =~= old(self)@,
    {
        if self.has_pid(p.pid) {
            false
        } else {
            let ghost pre = self@;
            self.entries.push(p);
            assert(self@ =~= pre.push(p@));
            true
        }
    }

    /// Atomically remove every entry, in registration order, handing them to
    /// the caller. Afterwards the registry is empty.
    pub fn drain(&mut self) -> (v: Vec<SupervisedProcess>)
        ensures
            final(self)@ =~= Seq::<(u32, Seq<char>)>::empty(),
            final(self).wf(),
            v@.map_values(|p: SupervisedProcess| p@) =~= old(self)@,
    {
        let v = self.entries.split_off(0);
        assert(self.entries@ =~= Seq::<SupervisedProcess>::empty());
        assert(v@ =~= old(self).entries@);
        v
    }
}

} // verus!
