//! The role catalog: a fixed mapping from a worker role name to the
//! runtime module that role runs. Lookups for unknown roles fail closed.
use vstd::prelude::*;

use crate::strutil::str_eq;

verus! {

/// One worker role and the runtime module/entry-point it launches.
pub struct RoleBinding {
    pub role: String,
    pub target: String,
}

impl View for RoleBinding {
    type V = (Seq<char>, Seq<char>);

    open spec fn view(&self) -> (Seq<char>, Seq<char>) {
        (self.role@, self.target@)
    }
}

/// The fixed role-to-target mapping, in launch order.
pub struct RoleCatalog {
    entries: Vec<RoleBinding>,
}

impl View for RoleCatalog {
    type V = Seq<(Seq<char>, Seq<char>)>;

    closed spec fn view(&self) -> Seq<(Seq<char>, Seq<char>)> {
        self.entries@.map_values(|b: RoleBinding| b@)
    }
}

/// Whether some binding carries the role name `role`.
pub open spec fn spec_has_role(entries: Seq<(Seq<char>, Seq<char>)>, role: Seq<char>) -> bool {
    exists|i: int| 0 <= i < entries.len() && entries[i].0 == role
}

/// The target of the first binding for `role`, or nothing: unknown roles
/// fail closed.
pub open spec fn spec_lookup(entries: Seq<(Seq<char>, Seq<char>)>, role: Seq<char>) -> Option<
    Seq<char>,
>
    decreases entries.len(),
{
    if entries.len() == 0 {
        None
    } else if entries[0].0 == role {
        Some(entries[0].1)
    } else {
        spec_lookup(entries.drop_first(), role)
    }
}

impl RoleCatalog {
    /// No role name is bound twice.
    pub open spec fn wf(&self) -> bool {
        forall|i: int, j: int| 0 <= i < j < self@.len() ==> self@[i].0 != self@[j].0
    }

    /// An empty catalog.
    pub fn new() -> (r: Self)
        ensures
            r@ =~= Seq::<(Seq<char>, Seq<char>)>::empty(),
            r.wf(),
    {
        RoleCatalog { entries: Vec::new() }
    }

    /// How many roles are configured.
    pub fn len(&self) -> (n: usize)
        ensures
            n == self@.len(),
    {
        self.entries.len()
    }

    /// The binding at launch position `i`.
    pub fn binding(&self, i: usize) -> (b: &RoleBinding)
        requires
            i < self@.len(),
        ensures
            b@ == self@[i as int],
    {
        &self.entries[i]
    }

    /// Whether `role` is already bound.
    pub fn has_role(&self, role: &str) -> (b: bool)
        ensures
            b == spec_has_role(self@, role@),
    {
        let mut i: usize = 0;
        while i < self.entries.len()
            invariant
                0 <= i <= self@.len(),
                self@.len() == self.entries@.len(),
                forall|k: int| 0 <= k < self@.len() ==> self@[k] == self.entries@[k]@,
                forall|k: int| 0 <= k < i ==> self@[k].0 != role@,
            decreases self@.len() - i,
        {
            if str_eq(self.entries[i].role.as_str(), role) {
                assert(self@[i as int].0 == role@);
                return true;
            }
            i += 1;
        }
        false
    }

    /// Bind a role to its target, in launch order. A role name already
    /// bound is refused: nothing changes and `added` is false.
    pub fn define(&mut self, role: String, target: String) -> (added: bool)
        requires
            old(self).wf(),
        ensures
            final(self).wf(),
            added == !spec_has_role(old(self)@, role@),
            added ==> final(self)@ =~= old(self)@.push((role@, target@)),
            !added ==> final(self)@ =~= old(self)@,
    {
        if self.has_role(role.as_str()) {
            false
        } else {
            let ghost pre = self@;
            self.entries.push(RoleBinding { role, target });
            assert(self@ =~= pre.push(self.entries@.last()@));
            true
        }
    }

    /// The runtime target bound to `role`, or nothing for an unknown role.
    pub fn lookup(&self, role: &str) -> (r: Option<&String>)
        ensures
            r matches Some(t) ==> spec_lookup(self@, role@) == Some(t@),
            r is None ==> spec_lookup(self@, role@) is None,
    {
        proof {
            assert(self@.skip(0) =~= self@);
        }
        let n = self.entries.len();
        let mut i: usize = 0;
        while i < n
            invariant
                0 <= i <= n,
                n == self@.len(),
                self@.len() == self.entries@.len(),
                forall|k: int| 0 <= k < self@.len() ==> self@[k] == self.entries@[k]@,
                spec_lookup(self@.skip(i as int), role@) == spec_lookup(self@, role@),
            decreases n - i,
        {
            let ghost rest = self@.skip(i as int);
            proof {
                assert(rest[0] == self@[i as int]);
                assert(rest.drop_first() =~= self@.skip(i as int + 1));
            }
            if str_eq(self.entries[i].role.as_str(), role) {
                assert(rest[0].0 == role@);
                return Some(&self.entries[i].target);
            }
            i += 1;
        }
        proof {
            assert(self@.skip(n as int) =~= Seq::<(Seq<char>, Seq<char>)>::empty());
        }
        None
    }
}

} // verus!
