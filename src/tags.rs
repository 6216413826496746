//! An ordered map from tag names to values, as written into a container's
//! metadata dictionary.

use vstd::prelude::*;

verus! {

/// Whether no two entries of `s` share a name.
pub open spec fn names_unique(s: Seq<(Seq<char>, Seq<char>)>) -> bool {
    forall|i: int, j: int|
        0 <= i < s.len() && 0 <= j < s.len() && i != j ==> #[trigger] s[i].0 != #[trigger] s[j].0
}

/// Whether some entry of `s` is named `name`.
pub open spec fn has_name(s: Seq<(Seq<char>, Seq<char>)>, name: Seq<char>) -> bool {
    exists|i: int| 0 <= i < s.len() && #[trigger] s[i].0 == name
}

/// The value of the entry named `name`, if there is one.
pub open spec fn lookup(s: Seq<(Seq<char>, Seq<char>)>, name: Seq<char>) -> Option<Seq<char>> {
    if has_name(s, name) {
        Some(s[choose|i: int| 0 <= i < s.len() && #[trigger] s[i].0 == name].1)
    } else {
        None
    }
}

/// `s` with `name` set to `value`: an existing entry keeps its place and
/// takes the new value, a new name goes to the end.
pub open spec fn inserted(s: Seq<(Seq<char>, Seq<char>)>, name: Seq<char>, value: Seq<char>) -> Seq<
    (Seq<char>, Seq<char>),
> {
    if has_name(s, name) {
        s.update(choose|i: int| 0 <= i < s.len() && #[trigger] s[i].0 == name, (name, value))
    } else {
        s.push((name, value))
    }
}

/// The view of one entry.
pub open spec fn entry_view(e: (String, String)) -> (Seq<char>, Seq<char>) {
    (e.0@, e.1@)
}

/// Tag names and their values, in the order in which names were first set.
#[derive(Debug)]
pub struct TagMap {
    entries: Vec<(String, String)>,
}

impl View for TagMap {
    type V = Seq<(Seq<char>, Seq<char>)>;

    closed spec fn view(&self) -> Seq<(Seq<char>, Seq<char>)> {
        self.entries@.map_values(|e: (String, String)| entry_view(e))
    }
}

impl TagMap {
    /// Well-formed: no two entries share a name.
    pub open spec fn wf(&self) -> bool {
        names_unique(self@)
    }

    /// The empty map.
    pub fn new() -> (r: TagMap)
        ensures
            r.wf(),
            r@ == Seq::<(Seq<char>, Seq<char>)>::empty(),
    {
        let r = TagMap { entries: Vec::new() };
        proof {
            assert(r@ =~= Seq::<(Seq<char>, Seq<char>)>::empty());
        }
        r
    }

    /// Number of entries.
    pub fn len(&self) -> (r: usize)
        ensures
            r == self@.len(),
    {
        self.entries.len()
    }

    /// The entries, in order.
    pub fn entries(&self) -> (r: &Vec<(String, String)>)
        ensures
            r@.map_values(|e: (String, String)| entry_view(e)) == self@,
    {
        &self.entries
    }

    /// Position of the entry named `name`, if any.
    fn position(&self, name: &String) -> (r: Option<usize>)
        ensures
            r.is_none() <==> !has_name(self@, name@),
            r.is_some() ==> r.unwrap() < self@.len() && self@[r.unwrap() as int].0 == name@,
    {
        let mut i: usize = 0;
        while i < self.entries.len()
            invariant
                i <= self.entries@.len(),
                self@.len() == self.entries@.len(),
                forall|j: int| 0 <= j < i ==> #[trigger] self@[j].0 != name@,
            decreases self.entries.len() - i,
        {
            if self.entries[i].0 == *name {
                assert(self@[i as int] == entry_view(self.entries@[i as int]));
                assert(self@[i as int].0 == name@);
                return Some(i);
            }
            i = i + 1;
        }
        None
    }

    /// The value of the entry named `name`, if any.
    pub fn get(&self, name: &String) -> (r: Option<&String>)
        requires
            self.wf(),
        ensures
            r.is_some() == lookup(self@, name@).is_some(),
            r.is_some() ==> r.unwrap()@ == lookup(self@, name@).unwrap(),
    {
        match self.position(name) {
            Some(i) => {
                let ghost k = choose|k: int| 0 <= k < self@.len() && #[trigger] self@[k].0 == name@;
                assert(k == i);
                Some(&self.entries[i].1)
            },
            None => None,
        }
    }

    /// Sets `name` to `value`: an existing entry takes the new value in its
    /// place, a new name is added at the end.
    pub fn insert(&mut self, name: String, value: String)
        requires
            old(self).wf(),
        ensures
            final(self).wf(),
            final(self)@ == inserted(old(self)@, name@, value@),
    {
        match self.position(&name) {
            Some(i) => {
                let ghost k = choose|k: int| 0 <= k < self@.len() && #[trigger] self@[k].0 == name@;
                assert(k == i);
                let ghost before = self@;
                self.entries.set(i, (name, value));
                proof {
                    assert(self@ =~= before.update(i as int, (name@, value@)));
                }
            },
            None => {
                let ghost before = self@;
                self.entries.push((name, value));
                proof {
                    assert(self@ =~= before.push((name@, value@)));
                }
            },
        }
    }
}

} // verus!
