use vstd::prelude::*;
use crate::schema::{QualifiedName, QualifiedNameV, qname_view, qualified_name_eq};

verus! {

/// The visited-names registry: the set of qualified names already taken care
/// of during one top-level conversion run. It is created empty at the start
/// of the run, threaded through every recursive step, and discarded at the
/// end; registering a name before descending into its members is what makes
/// the traversal terminate on self-referential schemas and declare each name
/// exactly once.
pub struct Registry {
    names: Vec<QualifiedName>,
}

impl Registry {
    pub closed spec fn view(&self) -> Set<QualifiedNameV> {
        Set::new(|q: QualifiedNameV| exists|i: int|
            0 <= i < self.names@.len() && qname_view(#[trigger] self.names@[i]) == q)
    }

    /// A fresh registry with no names in it.
    pub fn new() -> (r: Registry)
        ensures
            r@ == Set::<QualifiedNameV>::empty(),
    {
        let r = Registry { names: Vec::new() };
        proof {
            assert(r@ =~= Set::<QualifiedNameV>::empty());
        }
        r
    }

    /// Whether the name was already registered in this run.
    pub fn contains(&self, name: &QualifiedName) -> (b: bool)
        ensures
            b == self@.contains(qname_view(*name)),
    {
        let mut i: usize = 0;
        while i < self.names.len()
            invariant
                i <= self.names@.len(),
                forall|j: int| 0 <= j < i ==> qname_view(#[trigger] self.names@[j]) != qname_view(
                    *name,
                ),
            decreases self.names@.len() - i,
        {
            let same = qualified_name_eq(&self.names[i], name);
            if same {
                return true;
            }
            i += 1;
        }
        false
    }

    /// Registers the name; registering a name twice changes nothing.
    pub fn insert(&mut self, name: QualifiedName)
        ensures
            final(self)@ == old(self)@.insert(qname_view(name)),
    {
        let ghost before = self@;
        let ghost q = qname_view(name);
        self.names.push(name);
        proof {
            let n = self.names@.len();
            assert forall|x: QualifiedNameV| self@.contains(x) implies before.insert(q).contains(
                x,
            ) by {
                let i = choose|i: int|
                    0 <= i < self.names@.len() && qname_view(#[trigger] self.names@[i]) == x;
                if i < n - 1 {
                    assert(qname_view(old(self).names@[i]) == x);
                    assert(before.contains(x));
                }
            }
            assert forall|x: QualifiedNameV| before.insert(q).contains(x) implies self@.contains(
                x,
            ) by {
                if x == q {
                    assert(qname_view(self.names@[n - 1]) == x);
                } else {
                    let i = choose|i: int|
                        0 <= i < old(self).names@.len() && qname_view(
                            #[trigger] old(self).names@[i],
                        ) == x;
                    assert(qname_view(self.names@[i]) == x);
                }
            }
            assert(self@ =~= before.insert(q));
        }
    }
}

} // verus!
