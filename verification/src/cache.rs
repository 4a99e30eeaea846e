use vstd::prelude::*;

use crate::models::Platform;
use vstd::pervasive::VecAdditionalExecFns;

verus! {

/// An append-only store keyed by text, standing in for a hash map: entries
/// are kept as a list whose keys are pairwise distinct.
pub struct Cache<V> {
    entries: Vec<(String, V)>,
}

impl<V> Cache<V> {
    /// Keys are pairwise distinct.
    pub closed spec fn wf(&self) -> bool {
        forall|i: int, j: int|
            0 <= i < j < self.entries@.len() ==> self.entries@[i].0@ != self.entries@[j].0@
    }

    /// Whether the store holds an entry for the key.
    pub closed spec fn spec_contains(&self, k: Seq<char>) -> bool {
        exists|i: int| 0 <= i < self.entries@.len() && self.entries@[i].0@ == k
    }

    /// The value stored for the key, if any.
    pub closed spec fn spec_get(&self, k: Seq<char>) -> Option<V> {
        if self.spec_contains(k) {
            let i = choose|i: int| 0 <= i < self.entries@.len() && self.entries@[i].0@ == k;
            Some(self.entries@[i].1)
        } else {
            None
        }
    }

    /// An empty store.
    pub fn new() -> (r: Self)
        ensures
            r.wf(),
            forall|k: Seq<char>| !r.spec_contains(k),
            forall|k: Seq<char>| r.spec_get(k) is None,
    {
        Cache { entries: Vec::new() }
    }

    /// Whether an entry exists for the key.
    pub fn contains_key(&self, k: &String) -> (r: bool)
        ensures
            r == self.spec_contains(k@),
    {
        let n = self.entries.len();
        let mut i: usize = 0;
        while i < n
            invariant
                0 <= i <= n,
                n == self.entries@.len(),
                forall|j: int| 0 <= j < i ==> self.entries@[j].0@ != k@,
            decreases n - i,
        {
            if self.entries[i].0 == *k {
                return true;
            }
            i = i + 1;
        }
        false
    }

    /// The stored value for the key, if any.
    pub fn get(&self, k: &String) -> (r: Option<&V>)
        requires
            self.wf(),
        ensures
            match r {
                Some(v) => self.spec_get(k@) == Some(*v),
                None => !self.spec_contains(k@),
            },
    {
        let n = self.entries.len();
        let mut i: usize = 0;
        while i < n
            invariant
                0 <= i <= n,
                self.wf(),
                n == self.entries@.len(),
                forall|j: int| 0 <= j < i ==> self.entries@[j].0@ != k@,
            decreases n - i,
        {
            if self.entries[i].0 == *k {
                return Some(&self.entries[i].1);
            }
            i = i + 1;
        }
        None
    }

    /// Stores a value under the key, replacing any previous entry.
    pub fn insert(&mut self, k: String, v: V)
        requires
            old(self).wf(),
        ensures
            final(self).wf(),
            final(self).spec_contains(k@),
            final(self).spec_get(k@) == Some(v),
            forall|k2: Seq<char>|
                k2 != k@ ==> final(self).spec_contains(k2) == old(self).spec_contains(k2),
            forall|k2: Seq<char>|
                k2 != k@ ==> final(self).spec_get(k2) == old(self).spec_get(k2),
    {
        let n = self.entries.len();
        let mut i: usize = 0;
        while i < n
            invariant
                0 <= i <= n,
                self.wf(),
                n == self.entries@.len(),
                *self == *old(self),
                forall|j: int| 0 <= j < i ==> self.entries@[j].0@ != k@,
            decreases n - i,
        {
            if self.entries[i].0 == k {
                self.entries.set(i, (k, v));
                proof {
                    let post = *self;
                    let pre = *old(self);
                    assert(post.wf());
                    assert(post.entries@[i as int].0@ == k@);
                    assert(post.spec_contains(k@));
                    let w = choose|w: int|
                        0 <= w < post.entries@.len() && post.entries@[w].0@ == k@;
                    assert(w == i as int);
                    assert forall|k2: Seq<char>| k2 != k@ implies post.spec_contains(k2)
                        == pre.spec_contains(k2) && post.spec_get(k2) == pre.spec_get(k2) by {
                        assert(forall|j: int|
                            0 <= j < post.entries@.len() && j != i ==> post.entries@[j]
                                == pre.entries@[j]);
                        if pre.spec_contains(k2) {
                            let u = choose|u: int|
                                0 <= u < pre.entries@.len() && pre.entries@[u].0@ == k2;
                            assert(u != i as int);
                            assert(post.entries@[u].0@ == k2);
                        }
                        if post.spec_contains(k2) {
                            let u = choose|u: int|
                                0 <= u < post.entries@.len() && post.entries@[u].0@ == k2;
                            assert(u != i as int);
                            assert(pre.entries@[u].0@ == k2);
                        }
                    }
                }
                return ;
            }
            i = i + 1;
        }
        proof {
            assert(!self.spec_contains(k@));
        }
        self.entries.push((k, v));
        proof {
            let post = *self;
            let pre = *old(self);
            let m = pre.entries@.len() as int;
            assert(post.entries@[m].0@ == k@);
            assert(post.spec_contains(k@));
            assert(post.wf());
            let w = choose|w: int| 0 <= w < post.entries@.len() && post.entries@[w].0@ == k@;
            assert(w == m);
            assert forall|k2: Seq<char>| k2 != k@ implies post.spec_contains(k2)
                == pre.spec_contains(k2) && post.spec_get(k2) == pre.spec_get(k2) by {
                if pre.spec_contains(k2) {
                    let u = choose|u: int|
                        0 <= u < pre.entries@.len() && pre.entries@[u].0@ == k2;
                    assert(post.entries@[u].0@ == k2);
                }
                if post.spec_contains(k2) {
                    let u = choose|u: int|
                        0 <= u < post.entries@.len() && post.entries@[u].0@ == k2;
                    assert(u != m);
                    assert(pre.entries@[u].0@ == k2);
                }
            }
        }
    }
}

impl<V> Cache<V> {
    /// Takes the entry for the key out of the store, if one exists.
    pub fn remove(&mut self, k: &String) -> (r: Option<V>)
        requires
            old(self).wf(),
        ensures
            final(self).wf(),
            r == old(self).spec_get(k@),
            !final(self).spec_contains(k@),
            forall|k2: Seq<char>|
                k2 != k@ ==> final(self).spec_contains(k2) == old(self).spec_contains(k2),
            forall|k2: Seq<char>|
                k2 != k@ ==> final(self).spec_get(k2) == old(self).spec_get(k2),
    {
        let n = self.entries.len();
        let mut i: usize = 0;
        while i < n
            invariant
                0 <= i <= n,
                self.wf(),
                n == self.entries@.len(),
                *self == *old(self),
                forall|j: int| 0 <= j < i ==> self.entries@[j].0@ != k@,
            decreases n - i,
        {
            if self.entries[i].0 == *k {
                proof {
                    let pre = *old(self);
                    assert(pre.spec_contains(k@));
                    let w = choose|w: int|
                        0 <= w < pre.entries@.len() && pre.entries@[w].0@ == k@;
                    assert(w == i as int);
                }
                let entry = self.entries.remove(i);
                proof {
                    let post = *self;
                    let pre = *old(self);
                    assert forall|k2: Seq<char>| post.spec_contains(k2) implies k2 != k@
                        && pre.spec_contains(k2) by {
                        let w = choose|w: int|
                            0 <= w < post.entries@.len() && post.entries@[w].0@ == k2;
                        if w < i as int {
                            assert(pre.entries@[w].0@ == k2);
                        } else {
                            assert(pre.entries@[w + 1].0@ == k2);
                        }
                    }
                    assert forall|k2: Seq<char>| k2 != k@ && pre.spec_contains(k2) implies
                        post.spec_contains(k2) by {
                        let w = choose|w: int|
                            0 <= w < pre.entries@.len() && pre.entries@[w].0@ == k2;
                        if w < i as int {
                            assert(post.entries@[w].0@ == k2);
                        } else {
                            assert(w != i as int);
                            assert(post.entries@[w - 1].0@ == k2);
                        }
                    }
                    assert forall|k2: Seq<char>| k2 != k@ && post.spec_contains(k2) implies
                        post.spec_get(k2) == pre.spec_get(k2) by {
                        let w = choose|w: int|
                            0 <= w < post.entries@.len() && post.entries@[w].0@ == k2;
                        let wp = choose|wp: int|
                            0 <= wp < pre.entries@.len() && pre.entries@[wp].0@ == k2;
                        if w < i as int {
                            assert(pre.entries@[w] == post.entries@[w]);
                            assert(wp == w);
                        } else {
                            assert(pre.entries@[w + 1] == post.entries@[w]);
                            assert(wp == w + 1);
                        }
                    }
                }
                return Some(entry.1);
            }
            i = i + 1;
        }
        None
    }
}

/// The set of storefronts that the user has enabled, kept as a list of
/// pairwise-distinct platforms.
pub struct PlatformSet {
    items: Vec<Platform>,
}

impl PlatformSet {
    /// List entries are pairwise distinct.
    pub closed spec fn wf(&self) -> bool {
        forall|i: int, j: int| 0 <= i < j < self.items@.len() ==> self.items@[i] != self.items@[j]
    }

    /// Whether the platform is enabled.
    pub closed spec fn spec_contains(&self, p: Platform) -> bool {
        self.items@.contains(p)
    }

    /// An empty set.
    pub fn new() -> (r: Self)
        ensures
            r.wf(),
            forall|p: Platform| !r.spec_contains(p),
    {
        PlatformSet { items: Vec::new() }
    }

    /// Whether the platform is enabled.
    pub fn contains(&self, p: Platform) -> (r: bool)
        ensures
            r == self.spec_contains(p),
    {
        let n = self.items.len();
        let mut i: usize = 0;
        while i < n
            invariant
                0 <= i <= n,
                n == self.items@.len(),
                forall|j: int| 0 <= j < i ==> self.items@[j] != p,
            decreases n - i,
        {
            if self.items[i] == p {
                return true;
            }
            i = i + 1;
        }
        false
    }

    /// Enables the platform; a no-op when already enabled.
    pub fn insert(&mut self, p: Platform)
        requires
            old(self).wf(),
        ensures
            final(self).wf(),
            final(self).spec_contains(p),
            forall|q: Platform|
                q != p ==> final(self).spec_contains(q) == old(self).spec_contains(q),
    {
        if !self.contains(p) {
            self.items.push(p);
            proof {
                let post = *self;
                let pre = *old(self);
                assert(post.items@[pre.items@.len() as int] == p);
                assert forall|q: Platform| q != p implies post.spec_contains(q)
                    == pre.spec_contains(q) by {
                    if pre.spec_contains(q) {
                        let u = choose|u: int| 0 <= u < pre.items@.len() && pre.items@[u] == q;
                        assert(post.items@[u] == q);
                    }
                    if post.spec_contains(q) {
                        let u = choose|u: int| 0 <= u < post.items@.len() && post.items@[u] == q;
                        assert(u != pre.items@.len() as int);
                        assert(pre.items@[u] == q);
                    }
                }
            }
        }
    }

    /// Disables the platform; a no-op when not enabled.
    pub fn remove(&mut self, p: Platform)
        requires
            old(self).wf(),
        ensures
            final(self).wf(),
            !final(self).spec_contains(p),
            forall|q: Platform|
                q != p ==> final(self).spec_contains(q) == old(self).spec_contains(q),
    {
        let n = self.items.len();
        let mut i: usize = 0;
        while i < n
            invariant
                0 <= i <= n,
                self.wf(),
                n == self.items@.len(),
                *self == *old(self),
                forall|j: int| 0 <= j < i ==> self.items@[j] != p,
            decreases n - i,
        {
            if self.items[i] == p {
                self.items.remove(i);
                proof {
                    let post = *self;
                    let pre = *old(self);
                    assert forall|q: Platform| post.spec_contains(q) implies q != p
                        && pre.spec_contains(q) by {
                        let u = choose|u: int| 0 <= u < post.items@.len() && post.items@[u] == q;
                        if u < i as int {
                            assert(pre.items@[u] == q);
                        } else {
                            assert(pre.items@[u + 1] == q);
                        }
                    }
                    assert forall|q: Platform| q != p && pre.spec_contains(q) implies
                        post.spec_contains(q) by {
                        let u = choose|u: int| 0 <= u < pre.items@.len() && pre.items@[u] == q;
                        if u < i as int {
                            assert(post.items@[u] == q);
                        } else {
                            assert(u != i as int);
                            assert(post.items@[u - 1] == q);
                        }
                    }
                }
                return ;
            }
            i = i + 1;
        }
    }
}

} // verus!
