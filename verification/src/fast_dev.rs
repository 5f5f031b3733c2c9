//! The fast-device path: a registry that stores concrete device objects
//! under names and hands them out whole, with no framework in between.
//! Each registry is parameterized by the concrete device type at its use
//! site, so recovering a device needs no runtime type check.

use vstd::prelude::*;

verus! {

/// A device taken out of a [`FastRegistry`], together with the name it
/// must be returned under.
pub struct FastDev<T> {
    pub dev: T,
    pub name: String,
}

/// A name-to-object store for one concrete device type. Taking a device
/// removes it, so at most one caller holds it at a time; releasing it puts
/// it back under its name.
pub struct FastRegistry<T> {
    names: Vec<String>,
    devs: Vec<T>,
}

impl<T> FastRegistry<T> {
    /// Validity: one object per name, and every name registered once.
    pub closed spec fn wf(&self) -> bool {
        &&& self.names@.len() == self.devs@.len()
        &&& forall|i: int, j: int|
            0 <= i < j < self.names@.len() ==> self.names@[i]@ != self.names@[j]@
    }

    /// The number of stored objects.
    pub closed spec fn spec_len(&self) -> int {
        self.devs@.len() as int
    }

    /// The name of the object at an index.
    pub closed spec fn name_at(&self, i: int) -> Seq<char> {
        self.names@[i]@
    }

    /// The object at an index.
    pub closed spec fn dev_at(&self, i: int) -> T {
        self.devs@[i]
    }

    /// Whether some object is stored under the name.
    pub open spec fn spec_contains(&self, n: Seq<char>) -> bool {
        exists|i: int| 0 <= i < self.spec_len() && self.name_at(i) == n
    }

    /// The index of the object stored under a name.
    pub open spec fn index_of(&self, n: Seq<char>) -> int {
        choose|i: int| 0 <= i < self.spec_len() && self.name_at(i) == n
    }

    /// The count of stored objects is never negative.
    pub proof fn lemma_len_nonneg(&self)
        ensures
            self.spec_len() >= 0,
    {
    }

    /// An empty store.
    pub fn new() -> (r: FastRegistry<T>)
        ensures
            r.wf(),
            r.spec_len() == 0,
    {
        FastRegistry { names: Vec::new(), devs: Vec::new() }
    }

    /// The index holding `name`, when some object is stored under it.
    fn find_index(&self, name: &str) -> (r: Option<usize>)
        requires
            self.wf(),
        ensures
            r matches Some(i) ==> i < self.spec_len() && self.name_at(i as int) == name@,
            r is None ==> !self.spec_contains(name@),
    {
        let key: String = name.to_owned();
        let n = self.names.len();
        let mut i: usize = 0;
        while i < n
            invariant
                self.wf(),
                n == self.spec_len(),
                i <= n,
                key@ == name@,
                forall|j: int| 0 <= j < i ==> self.name_at(j) != name@,
            decreases n - i,
        {
            if self.names[i] == key {
                return Some(i);
            }
            i = i + 1;
        }
        None
    }

    /// Stores an object under a name: fails with a duplicate-name
    /// condition when the name is taken, otherwise appends it. Existing
    /// entries are untouched either way.
    pub fn register(&mut self, dev: T, name: &str) -> (r: Result<(), crate::error::IOError>)
        requires
            old(self).wf(),
        ensures
            final(self).wf(),
            old(self).spec_contains(name@) ==> r == Err::<(), crate::error::IOError>(
                crate::error::IOError::RegisterError,
            ) && *final(self) == *old(self),
            !old(self).spec_contains(name@) ==> r == Ok::<(), crate::error::IOError>(()) && final(self).spec_len()
                == old(self).spec_len() + 1 && final(self).name_at(old(self).spec_len()) == name@
                && final(self).dev_at(old(self).spec_len()) == dev && forall|i: int|
                0 <= i < old(self).spec_len() ==> final(self).name_at(i) == old(self).name_at(i)
                    && final(self).dev_at(i) == old(self).dev_at(i),
    {
        match self.find_index(name) {
            Some(_) => Err(crate::error::IOError::RegisterError),
            None => {
                self.names.push(name.to_owned());
                self.devs.push(dev);
                proof {
                    assert forall|i: int, j: int|
                        0 <= i < j < self.names@.len() implies self.names@[i]@
                        != self.names@[j]@ by {
                        if j == self.names@.len() - 1 {
                            assert(old(self).name_at(i) == name@ ==> old(self).spec_contains(
                                name@,
                            ));
                        }
                    }
                }
                Ok(())
            },
        }
    }

    /// Takes the object stored under a name out of the store, leaving the
    /// other entries in place; fails with a not-found condition when the
    /// name is absent.
    pub fn take(&mut self, name: &str) -> (r: Result<FastDev<T>, crate::error::IOError>)
        requires
            old(self).wf(),
        ensures
            final(self).wf(),
            !old(self).spec_contains(name@) ==> r == Err::<FastDev<T>, crate::error::IOError>(
                crate::error::IOError::FindError,
            ) && *final(self) == *old(self),
            old(self).spec_contains(name@) ==> (r matches Ok(fd) && fd.name@ == name@ && fd.dev
                == old(self).dev_at(old(self).index_of(name@)) && final(self).spec_len() == old(
                self,
            ).spec_len() - 1 && !final(self).spec_contains(name@) && forall|i: int|
                #![trigger final(self).name_at(i)]
                0 <= i < final(self).spec_len() ==> {
                    let s = if i < old(self).index_of(name@) {
                        i
                    } else {
                        i + 1
                    };
                    final(self).name_at(i) == old(self).name_at(s) && final(self).dev_at(i) == old(
                        self,
                    ).dev_at(s)
                }),
    {
        match self.find_index(name) {
            None => Err(crate::error::IOError::FindError),
            Some(i) => {
                proof {
                    assert(self.spec_contains(name@));
                    assert forall|k: int|
                        0 <= k < self.spec_len() && self.name_at(k) == name@ implies k
                        == i as int by {
                        if k != i as int {
                            assert(self.names@[k]@ != self.names@[i as int]@);
                        }
                    }
                    assert(self.index_of(name@) == i as int);
                }
                let n = self.names.remove(i);
                let d = self.devs.remove(i);
                proof {
                    assert forall|k: int| 0 <= k < self.names@.len() implies #[trigger] self.names@[k]@ != name@ by {
                        if k < i {
                            assert(self.names@[k] == old(self).names@[k]);
                        } else {
                            assert(self.names@[k] == old(self).names@[k + 1]);
                        }
                    }
                }
                Ok(FastDev { dev: d, name: n })
            },
        }
    }
}

} // verus!
