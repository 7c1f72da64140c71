//! Kernel names and the catalogue of kernels that are known by name.

use crate::pool::Descriptor;
use vstd::prelude::*;

verus! {

/// The name of a kernel.
#[derive(Clone, Debug, PartialEq, Eq, Hash)]
pub struct KernelKey {
    name: String,
}

impl View for KernelKey {
    type V = Seq<char>;

    closed spec fn view(&self) -> Seq<char> {
        self.name@
    }
}

impl KernelKey {
    /// The key with the given name.
    pub fn new(name: &str) -> (key: Self)
        ensures
            key@ == name@,
    {
        KernelKey { name: String::from_str(name) }
    }

    /// The name.
    pub fn as_str(&self) -> (name: &str)
        ensures
            name@ == self@,
    {
        self.name.as_str()
    }
}

impl Descriptor for KernelKey {
    fn same(&self, other: &Self) -> (r: bool) {
        self.name == other.name
    }

    fn duplicate(&self) -> (r: Self) {
        KernelKey { name: self.name.clone() }
    }
}

/// The catalogue of kernels whose source is known by name. It is filled
/// once, before the first lookup, and only read after that.
pub struct KernelRegistry {
    names: Vec<String>,
    sources: Vec<String>,
}

impl View for KernelRegistry {
    type V = Map<Seq<char>, Seq<char>>;

    /// The source text of each name.
    closed spec fn view(&self) -> Map<Seq<char>, Seq<char>> {
        Map::new(
            |name: Seq<char>| self.position(name) is Some,
            |name: Seq<char>| self.sources@[self.position(name)->0]@,
        )
    }
}

impl KernelRegistry {
    /// Where `name` stands in the catalogue.
    spec fn position(&self, name: Seq<char>) -> Option<int> {
        if exists|i: int| 0 <= i < self.names@.len() && (#[trigger] self.names@[i])@ == name {
            Some(choose|i: int| 0 <= i < self.names@.len() && (#[trigger] self.names@[i])@ == name)
        } else {
            None
        }
    }

    /// Every name stands once, with its source.
    pub closed spec fn wf(&self) -> bool {
        &&& self.names@.len() == self.sources@.len()
        &&& forall|i: int, j: int|
            0 <= i < j < self.names@.len() ==> (#[trigger] self.names@[i])@ != (
            #[trigger] self.names@[j])@
    }

    /// The number of kernels in the catalogue.
    pub closed spec fn spec_len(&self) -> nat {
        self.names@.len()
    }

    /// The empty catalogue.
    pub fn new() -> (registry: Self)
        ensures
            registry.wf(),
            registry@ == Map::<Seq<char>, Seq<char>>::empty(),
            registry.spec_len() == 0,
    {
        let registry = KernelRegistry { names: Vec::new(), sources: Vec::new() };
        assert(registry@ =~= Map::<Seq<char>, Seq<char>>::empty());
        registry
    }

    /// The number of kernels in the catalogue.
    pub fn len(&self) -> (n: usize)
        ensures
            n == self.spec_len(),
    {
        self.names.len()
    }

    fn find(&self, name: &str) -> (r: Option<usize>)
        requires
            self.wf(),
        ensures
            r matches Some(i) ==> self.position(name@) == Some(i as int) && 0 <= i
                < self.names@.len() && self.names@[i as int]@ == name@,
            r is None ==> self.position(name@) is None,
    {
        let wanted = String::from_str(name);
        let mut i: usize = 0;
        while i < self.names.len()
            invariant
                self.wf(),
                wanted@ == name@,
                0 <= i <= self.names@.len(),
                forall|j: int| 0 <= j < i ==> (#[trigger] self.names@[j])@ != name@,
            decreases self.names@.len() - i,
        {
            if self.names[i] == wanted {
                proof {
                    let k = self.position(name@)->0;
                    assert(self.names@[k]@ == name@);
                    assert(k == i);
                }
                return Some(i);
            }
            i += 1;
        }
        None
    }

    /// The source of the kernel called `name`, if the catalogue has it.
    pub fn get(&self, name: &str) -> (r: Option<&str>)
        requires
            self.wf(),
        ensures
            self@.contains_key(name@) ==> (r matches Some(source) && source@ == self@[name@]),
            !self@.contains_key(name@) ==> r is None,
    {
        match self.find(name) {
            Some(i) => Some(self.sources[i].as_str()),
            None => None,
        }
    }

    /// Enters the kernel called `name`. A name that the catalogue has
    /// already keeps its source, and the answer is `false`.
    pub fn register(&mut self, name: &str, source: &str) -> (added: bool)
        requires
            old(self).wf(),
        ensures
            final(self).wf(),
            added == !old(self)@.contains_key(name@),
            added ==> final(self)@ == old(self)@.insert(name@, source@),
            !added ==> final(self)@ == old(self)@,
            final(self).spec_len() == old(self).spec_len() + (if added {
                1nat
            } else {
                0nat
            }),
    {
        match self.find(name) {
            Some(_) => false,
            None => {
                self.names.push(String::from_str(name));
                self.sources.push(String::from_str(source));
                proof {
                    let last = old(self).names@.len() as int;
                    assert(self.names@[last]@ == name@);
                    assert forall|n: Seq<char>| #[trigger]
                        old(self)@.insert(name@, source@).contains_key(n) implies self@.contains_key(
                        n,
                    ) && self@[n] == old(self)@.insert(name@, source@)[n] by {
                        if n == name@ {
                            let k = self.position(n)->0;
                            assert(self.names@[k]@ == n);
                            assert(k == last);
                        } else {
                            let k0 = old(self).position(n)->0;
                            assert(old(self).names@[k0]@ == n);
                            assert(self.names@[k0] == old(self).names@[k0]);
                            let k = self.position(n)->0;
                            assert(self.names@[k]@ == n);
                            assert(k == k0);
                            assert(self.sources@[k] == old(self).sources@[k]);
                        }
                    }
                    assert forall|n: Seq<char>| #[trigger] self@.contains_key(n) implies old(
                        self,
                    )@.insert(name@, source@).contains_key(n) by {
                        let k = self.position(n)->0;
                        assert(self.names@[k]@ == n);
                        if k < last {
                            assert(self.names@[k] == old(self).names@[k]);
                            assert(old(self).position(n) is Some);
                        }
                    }
                    assert(self@ =~= old(self)@.insert(name@, source@));
                }
                true
            },
        }
    }
}

} // verus!
