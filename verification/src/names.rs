//! Small collections keyed by name.
//!
//! A session deals with a few hundred ids at most, so these are plain vectors
//! searched from end to end; what they mean is a mathematical map and a
//! mathematical set.

use vstd::prelude::*;

use crate::text::{owned, same};

verus! {

spec fn map_of<T>(s: Seq<(String, T)>) -> Map<Seq<char>, T>
    decreases s.len(),
{
    if s.len() == 0 {
        Map::empty()
    } else {
        map_of(s.drop_last()).insert(s.last().0@, s.last().1)
    }
}

proof fn map_of_skips<T>(s: Seq<(String, T)>, i: int)
    requires
        0 <= i < s.len(),
    ensures
        map_of(s.remove(i)).remove(s[i].0@) == map_of(s).remove(s[i].0@),
    decreases s.len(),
{
    s.remove_ensures(i);
    let cut = s.remove(i);
    if i == s.len() - 1 {
        assert(cut =~= s.drop_last());
        assert(map_of(cut).remove(s[i].0@) =~= map_of(s).remove(s[i].0@));
    } else {
        map_of_skips(s.drop_last(), i);
        assert(s.drop_last()[i] == s[i]);
        assert(cut.drop_last() =~= s.drop_last().remove(i));
        assert(cut.last() == s.last());
        let k = s[i].0@;
        let (name, value) = (s.last().0@, s.last().1);
        let below = map_of(cut.drop_last());
        let whole = map_of(s.drop_last());
        if name == k {
            assert(below.insert(name, value).remove(k) =~= below.remove(k));
            assert(whole.insert(name, value).remove(k) =~= whole.remove(k));
        } else {
            assert(below.insert(name, value).remove(k) =~= below.remove(k).insert(name, value));
            assert(whole.insert(name, value).remove(k) =~= whole.remove(k).insert(name, value));
        }
    }
}

proof fn map_of_keys<T>(s: Seq<(String, T)>, k: Seq<char>)
    ensures
        map_of(s).dom().contains(k) == (exists|i: int| 0 <= i < s.len() && (#[trigger] s[i]).0@ == k),
    decreases s.len(),
{
    if s.len() > 0 {
        let low = s.drop_last();
        map_of_keys(low, k);
        if map_of(s).dom().contains(k) {
            if s.last().0@ == k {
                assert(s[s.len() - 1].0@ == k);
            } else {
                let i = choose|i: int| 0 <= i < low.len() && (#[trigger] low[i]).0@ == k;
                assert(s[i].0@ == k);
            }
        }
        if exists|i: int| 0 <= i < s.len() && (#[trigger] s[i]).0@ == k {
            let i = choose|i: int| 0 <= i < s.len() && (#[trigger] s[i]).0@ == k;
            if i < s.len() - 1 {
                assert(low[i].0@ == k);
            }
        }
    }
}

/// A map from names to values.
#[derive(Debug)]
pub struct NameMap<T> {
    entries: Vec<(String, T)>,
}

impl<T> View for NameMap<T> {
    type V = Map<Seq<char>, T>;

    closed spec fn view(&self) -> Map<Seq<char>, T> {
        map_of(self.entries@)
    }
}

impl<T> NameMap<T> {
    /// The empty map.
    pub fn new() -> (out: Self)
        ensures
            out@ == Map::<Seq<char>, T>::empty(),
    {
        NameMap { entries: Vec::new() }
    }

    /// The value under `name`, if there is one.
    pub fn get(&self, name: &str) -> (out: Option<&T>)
        ensures
            out == (if self@.dom().contains(name@) {
                Some(&self@[name@])
            } else {
                None::<&T>
            }),
    {
        let mut i: usize = self.entries.len();
        assert(self.entries@.take(i as int) =~= self.entries@);
        while i > 0
            invariant
                i <= self.entries.len(),
                self@.dom().contains(name@) == map_of(self.entries@.take(i as int)).dom().contains(
                    name@,
                ),
                self@.dom().contains(name@) ==> self@[name@] == map_of(
                    self.entries@.take(i as int),
                )[name@],
            decreases i,
        {
            let ghost part = self.entries@.take(i as int);
            assert(part.drop_last() =~= self.entries@.take(i - 1));
            assert(part.last() == self.entries@[i - 1]);
            if same(&self.entries[i - 1].0, name) {
                return Some(&self.entries[i - 1].1);
            }
            i -= 1;
        }
        assert(self.entries@.take(0) =~= Seq::<(String, T)>::empty());
        None
    }

    /// Whether nothing is stored.
    pub fn is_empty(&self) -> (out: bool)
        ensures
            out == (self@ == Map::<Seq<char>, T>::empty()),
    {
        proof {
            if self.entries@.len() > 0 {
                map_of_keys(self.entries@, self.entries@[0].0@);
                assert(self@.dom().contains(self.entries@[0].0@));
            }
        }
        self.entries.len() == 0
    }

    /// Forget `name`.
    pub fn remove(&mut self, name: &str)
        ensures
            final(self)@ == old(self)@.remove(name@),
    {
        let ghost before = self@;
        let mut i: usize = 0;
        while i < self.entries.len()
            invariant
                i <= self.entries.len(),
                before == old(self)@,
                self@.remove(name@) == before.remove(name@),
                forall|k: int| 0 <= k < i ==> (#[trigger] self.entries@[k]).0@ != name@,
            decreases self.entries.len() - i,
        {
            if same(&self.entries[i].0, name) {
                proof {
                    map_of_skips(self.entries@, i as int);
                }
                let _ = self.entries.remove(i);
            } else {
                i += 1;
            }
        }
        proof {
            map_of_keys(self.entries@, name@);
            assert(self@.remove(name@) =~= self@);
        }
    }

    /// Store `value` under `name`, replacing whatever was there.
    pub fn insert(&mut self, name: String, value: T)
        ensures
            final(self)@ == old(self)@.insert(name@, value),
    {
        self.remove(&name);
        let ghost rest = self.entries@;
        let ghost entry = (name, value);
        self.entries.push((name, value));
        assert(self.entries@.drop_last() =~= rest);
        assert(self@ =~= old(self)@.insert(entry.0@, value));
    }

    /// Forget every name that is not in `names`.
    pub fn keep_only(&mut self, names: &NameSet)
        ensures
            final(self)@ == old(self)@.restrict(names@),
    {
        let ghost before = self@;
        let mut i: usize = 0;
        while i < self.entries.len()
            invariant
                i <= self.entries.len(),
                before == old(self)@,
                self@.restrict(names@) == before.restrict(names@),
                forall|k: int|
                    0 <= k < i ==> names@.contains((#[trigger] self.entries@[k]).0@),
            decreases self.entries.len() - i,
        {
            if names.contains(&self.entries[i].0) {
                i += 1;
            } else {
                let ghost gone = self.entries@[i as int].0@;
                let ghost now = self@;
                proof {
                    map_of_skips(self.entries@, i as int);
                }
                let _ = self.entries.remove(i);
                proof {
                    assert(self@.remove(gone) == now.remove(gone));
                    assert forall|k: Seq<char>| names@.contains(k) implies self@.dom().contains(k)
                        == now.dom().contains(k) && (now.dom().contains(k) ==> self@[k] == now[k]) by {
                        assert(self@.remove(gone).dom().contains(k) == now.remove(
                            gone,
                        ).dom().contains(k));
                        if now.dom().contains(k) {
                            assert(self@.remove(gone)[k] == now.remove(gone)[k]);
                        }
                    }
                    assert(self@.restrict(names@) =~= now.restrict(names@));
                }
            }
        }
        proof {
            assert forall|k: Seq<char>| self@.dom().contains(k) implies names@.contains(k) by {
                map_of_keys(self.entries@, k);
            }
            assert(self@.restrict(names@) =~= self@);
        }
    }
}

spec fn set_of(s: Seq<String>) -> Set<Seq<char>> {
    Set::new(|k: Seq<char>| exists|i: int| 0 <= i < s.len() && (#[trigger] s[i])@ == k)
}

/// A set of names.
#[derive(Debug)]
pub struct NameSet {
    names: Vec<String>,
}

impl View for NameSet {
    type V = Set<Seq<char>>;

    closed spec fn view(&self) -> Set<Seq<char>> {
        set_of(self.names@)
    }
}

impl NameSet {
    /// The empty set.
    pub fn new() -> (out: Self)
        ensures
            out@ == Set::<Seq<char>>::empty(),
    {
        let out = NameSet { names: Vec::new() };
        assert(out@ =~= Set::<Seq<char>>::empty());
        out
    }

    /// Whether `name` is in the set.
    pub fn contains(&self, name: &str) -> (out: bool)
        ensures
            out == self@.contains(name@),
    {
        let mut i: usize = 0;
        while i < self.names.len()
            invariant
                i <= self.names.len(),
                forall|k: int| 0 <= k < i ==> (#[trigger] self.names@[k])@ != name@,
            decreases self.names.len() - i,
        {
            if same(&self.names[i], name) {
                return true;
            }
            i += 1;
        }
        false
    }

    /// Add `name`.
    pub fn insert(&mut self, name: &str)
        ensures
            final(self)@ == old(self)@.insert(name@),
    {
        if !self.contains(name) {
            let ghost before = self.names@;
            self.names.push(owned(name));
            proof {
                assert forall|k: Seq<char>| set_of(self.names@).contains(k) == set_of(before).insert(
                    name@,
                ).contains(k) by {
                    if set_of(before).contains(k) {
                        let i = choose|i: int| 0 <= i < before.len() && (#[trigger] before[i])@ == k;
                        assert(self.names@[i]@ == k);
                    }
                    if k == name@ {
                        assert(self.names@[before.len() as int]@ == k);
                    }
                }
            }
        }
        assert(self@ =~= old(self)@.insert(name@));
    }

    /// Take `name` out, and say whether it was there.
    pub fn remove(&mut self, name: &str) -> (out: bool)
        ensures
            final(self)@ == old(self)@.remove(name@),
            out == old(self)@.contains(name@),
    {
        let found = self.contains(name);
        let ghost before = self@;
        let mut i: usize = 0;
        while i < self.names.len()
            invariant
                i <= self.names.len(),
                before == old(self)@,
                self@.remove(name@) == before.remove(name@),
                forall|k: int| 0 <= k < i ==> (#[trigger] self.names@[k])@ != name@,
            decreases self.names.len() - i,
        {
            if same(&self.names[i], name) {
                let ghost now = self.names@;
                let _ = self.names.remove(i);
                proof {
                    let cut = self.names@;
                    assert forall|k: Seq<char>| k != name@ implies set_of(cut).contains(k)
                        == set_of(now).contains(k) by {
                        if set_of(now).contains(k) {
                            let j = choose|j: int| 0 <= j < now.len() && (#[trigger] now[j])@ == k;
                            assert(cut[if j < i { j } else { j - 1 }]@ == k);
                        }
                        if set_of(cut).contains(k) {
                            let j = choose|j: int| 0 <= j < cut.len() && (#[trigger] cut[j])@ == k;
                            assert(now[if j < i { j } else { j + 1 }]@ == k);
                        }
                    }
                    assert(set_of(cut).remove(name@) =~= set_of(now).remove(name@));
                }
            } else {
                i += 1;
            }
        }
        assert(self@.remove(name@) =~= self@);
        found
    }

    /// Empty the set.
    pub fn clear(&mut self)
        ensures
            final(self)@ == Set::<Seq<char>>::empty(),
    {
        self.names = Vec::new();
        assert(self@ =~= Set::<Seq<char>>::empty());
    }
}

} // verus!
