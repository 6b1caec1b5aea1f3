//! The ports of a component: a mapping from port names to values.
//!
//! A name occurs once; writing under a name that is there replaces its value.
//! The order of the names carries no meaning.

use crate::value::Value;
use vstd::prelude::*;
use vstd::string::*;
use crate::text::text_eq;

verus! {

/// The mapping that a list of named values builds up when its items are
/// written one after the other: an item replaces the one of its name that
/// came before it.
pub open spec fn map_of(entries: Seq<(Seq<char>, Value)>) -> Map<Seq<char>, Value>
    decreases entries.len(),
{
    if entries.len() == 0 {
        Map::empty()
    } else {
        map_of(entries.drop_last()).insert(entries.last().0, entries.last().1)
    }
}

/// No name occurs twice.
pub open spec fn distinct_names(entries: Seq<(Seq<char>, Value)>) -> bool {
    forall|i: int, j: int| 0 <= i < j < entries.len() ==> entries[i].0 != entries[j].0
}

/// Whether some item carries the name.
pub open spec fn has_name(entries: Seq<(Seq<char>, Value)>, name: Seq<char>) -> bool {
    exists|i: int| 0 <= i < entries.len() && #[trigger] entries[i].0 == name
}

/// The names of `map_of` are the names of the items.
pub proof fn lemma_map_of_names(entries: Seq<(Seq<char>, Value)>, name: Seq<char>)
    ensures
        map_of(entries).contains_key(name) <==> has_name(entries, name),
    decreases entries.len(),
{
    if entries.len() > 0 {
        let front = entries.drop_last();
        lemma_map_of_names(front, name);
        if has_name(entries, name) {
            let i = choose|i: int| 0 <= i < entries.len() && #[trigger] entries[i].0 == name;
            if i < front.len() {
                assert(front[i].0 == name);
            }
        }
        if has_name(front, name) {
            let i = choose|i: int| 0 <= i < front.len() && #[trigger] front[i].0 == name;
            assert(entries[i].0 == name);
        }
        if entries.last().0 == name {
            assert(entries[entries.len() - 1].0 == name);
        }
    }
}

/// Under a name, `map_of` holds the value of the last item of that name.
pub proof fn lemma_map_of_value(entries: Seq<(Seq<char>, Value)>, i: int)
    requires
        0 <= i < entries.len(),
        forall|j: int| i < j < entries.len() ==> entries[j].0 != entries[i].0,
    ensures
        map_of(entries).contains_key(entries[i].0),
        map_of(entries)[entries[i].0] == entries[i].1,
    decreases entries.len(),
{
    if i < entries.len() - 1 {
        let front = entries.drop_last();
        assert(front[i] == entries[i]);
        assert forall|j: int| i < j < front.len() implies front[j].0 != front[i].0 by {
            assert(front[j] == entries[j]);
        }
        lemma_map_of_value(front, i);
    }
}

/// Without a repeated name, `map_of` has as many names as there are items.
pub proof fn lemma_map_of_len(entries: Seq<(Seq<char>, Value)>)
    requires
        distinct_names(entries),
    ensures
        map_of(entries).dom().finite(),
        map_of(entries).dom().len() == entries.len(),
    decreases entries.len(),
{
    if entries.len() > 0 {
        let front = entries.drop_last();
        assert(distinct_names(front)) by {
            assert forall|i: int, j: int| 0 <= i < j < front.len() implies front[i].0
                != front[j].0 by {
                assert(front[i] == entries[i]);
                assert(front[j] == entries[j]);
            }
        }
        lemma_map_of_len(front);
        lemma_map_of_names(front, entries.last().0);
        if has_name(front, entries.last().0) {
            let i = choose|i: int| 0 <= i < front.len() && #[trigger] front[i].0 == entries.last().0;
            assert(front[i] == entries[i]);
            assert(false);
        }
    }
}

/// Writing a value in place over the last item of a name is writing into
/// `map_of` under that name.
pub proof fn lemma_map_of_update(entries: Seq<(Seq<char>, Value)>, i: int, value: Value)
    requires
        0 <= i < entries.len(),
        forall|j: int| i < j < entries.len() ==> entries[j].0 != entries[i].0,
    ensures
        map_of(entries.update(i, (entries[i].0, value))) == map_of(entries).insert(
            entries[i].0,
            value,
        ),
    decreases entries.len(),
{
    let name = entries[i].0;
    let after = entries.update(i, (name, value));
    let front = entries.drop_last();
    if i == entries.len() - 1 {
        assert(after.drop_last() =~= front);
        assert(map_of(after) =~= map_of(entries).insert(name, value));
    } else {
        assert(front[i] == entries[i]);
        assert forall|j: int| i < j < front.len() implies front[j].0 != front[i].0 by {
            assert(front[j] == entries[j]);
        }
        lemma_map_of_update(front, i, value);
        assert(after.drop_last() =~= front.update(i, (name, value)));
        assert(map_of(after) =~= map_of(entries).insert(name, value));
    }
}

/// Writing a value in place keeps the names as they are.
pub proof fn lemma_update_keeps_names(entries: Seq<(Seq<char>, Value)>, i: int, value: Value)
    requires
        0 <= i < entries.len(),
        distinct_names(entries),
    ensures
        distinct_names(entries.update(i, (entries[i].0, value))),
{
    let after = entries.update(i, (entries[i].0, value));
    assert forall|a: int, b: int| 0 <= a < b < after.len() implies after[a].0 != after[b].0 by {
        assert(after[a].0 == entries[a].0);
        assert(after[b].0 == entries[b].0);
    }
}

/// Adding an item of a new name keeps the names distinct.
pub proof fn lemma_push_keeps_names(entries: Seq<(Seq<char>, Value)>, name: Seq<char>, value: Value)
    requires
        distinct_names(entries),
        !has_name(entries, name),
    ensures
        distinct_names(entries.push((name, value))),
{
    let after = entries.push((name, value));
    assert forall|a: int, b: int| 0 <= a < b < after.len() implies after[a].0 != after[b].0 by {
        if b == entries.len() {
            assert(entries[a].0 != name);
        }
    }
}

/// A mapping from port names to values.
#[derive(Clone, Debug)]
pub struct Ports {
    entries: Vec<(String, Value)>,
}

impl Ports {
    /// The ports as a list, in an order that means nothing.
    pub closed spec fn entries(&self) -> Seq<(Seq<char>, Value)> {
        Seq::new(self.entries@.len(), |i: int| (self.entries@[i].0@, self.entries@[i].1))
    }

    /// The ports as a mapping.
    pub open spec fn view(&self) -> Map<Seq<char>, Value> {
        map_of(self.entries())
    }

    /// No name is held twice. `new` establishes this and `insert` keeps it,
    /// so it holds of every `Ports` that this crate hands out.
    pub open spec fn wf(&self) -> bool {
        distinct_names(self.entries())
    }

    /// Ports without a name.
    pub fn new() -> (ports: Ports)
        ensures
            ports@ == Map::<Seq<char>, Value>::empty(),
            ports.entries() == Seq::<(Seq<char>, Value)>::empty(),
            ports.wf(),
    {
        Ports { entries: Vec::new() }
    }

    /// The ports that a list of named values builds up when its items are
    /// written one after the other.
    pub fn from_pairs(pairs: Vec<(String, Value)>) -> (ports: Ports)
        ensures
            ports@ == map_of(Seq::new(pairs@.len(), |i: int| (pairs@[i].0@, pairs@[i].1))),
            ports.wf(),
    {
        let ghost named = Seq::new(pairs@.len(), |i: int| (pairs@[i].0@, pairs@[i].1));
        let mut ports = Ports::new();
        let mut i: usize = 0;
        while i < pairs.len()
            invariant
                i <= pairs@.len(),
                named == Seq::new(pairs@.len(), |k: int| (pairs@[k].0@, pairs@[k].1)),
                ports@ == map_of(named.take(i as int)),
                ports.wf(),
            decreases pairs@.len() - i,
        {
            ports.insert(String::from_str(pairs[i].0.as_str()), pairs[i].1);
            proof {
                assert(named.take(i + 1).drop_last() =~= named.take(i as int));
            }
            i += 1;
        }
        assert(named.take(i as int) =~= named);
        ports
    }

    /// The number of entries, which is the number of names.
    pub fn len(&self) -> (n: usize)
        ensures
            n == self.entries().len(),
            self.wf() ==> self@.dom().finite() && n == self@.dom().len(),
    {
        proof {
            if self.wf() {
                lemma_map_of_len(self.entries());
            }
        }
        self.entries.len()
    }

    /// Whether no name is held.
    pub fn is_empty(&self) -> (b: bool)
        ensures
            b == (self@ == Map::<Seq<char>, Value>::empty()),
    {
        proof {
            if self.entries().len() > 0 {
                assert(self@.contains_key(self.entries().last().0));
            }
        }
        self.entries.len() == 0
    }

    /// The place of the last entry that carries `name`.
    fn position(&self, name: &str) -> (r: Option<usize>)
        ensures
            match r {
                Some(i) => {
                    &&& i < self.entries().len()
                    &&& self.entries()[i as int].0 == name@
                    &&& forall|j: int| i < j < self.entries().len() ==> self.entries()[j].0 != name@
                },
                None => !has_name(self.entries(), name@),
            },
    {
        let mut i: usize = self.entries.len();
        while i > 0
            invariant
                i <= self.entries@.len(),
                forall|j: int| i <= j < self.entries().len() ==> self.entries()[j].0 != name@,
            decreases i,
        {
            i -= 1;
            if text_eq(self.entries[i].0.as_str(), name) {
                return Some(i);
            }
        }
        None
    }

    /// The value under `name`, if the name is held.
    pub fn get(&self, name: &str) -> (r: Option<Value>)
        ensures
            r == if self@.contains_key(name@) {
                Some(self@[name@])
            } else {
                None::<Value>
            },
    {
        proof {
            lemma_map_of_names(self.entries(), name@);
        }
        match self.position(name) {
            Some(i) => {
                proof {
                    lemma_map_of_value(self.entries(), i as int);
                }
                Some(self.entries[i].1)
            },
            None => None,
        }
    }

    /// Whether `name` is held.
    pub fn contains_key(&self, name: &str) -> (b: bool)
        ensures
            b == self@.contains_key(name@),
    {
        proof {
            lemma_map_of_names(self.entries(), name@);
        }
        self.position(name).is_some()
    }

    /// Writes `value` under `name`. A value that was there is replaced.
    pub fn insert(&mut self, name: String, value: Value)
        ensures
            final(self)@ == old(self)@.insert(name@, value),
            old(self).wf() ==> final(self).wf(),
    {
        let ghost before = self.entries();
        match self.position(name.as_str()) {
            Some(i) => {
                self.entries.set(i, (name, value));
                proof {
                    assert(self.entries() =~= before.update(i as int, (before[i as int].0, value)));
                    lemma_map_of_update(before, i as int, value);
                    if distinct_names(before) {
                        lemma_update_keeps_names(before, i as int, value);
                    }
                }
            },
            None => {
                self.entries.push((name, value));
                proof {
                    assert(self.entries() =~= before.push((name@, value)));
                    assert(self.entries().drop_last() =~= before);
                    if distinct_names(before) {
                        lemma_push_keeps_names(before, name@, value);
                    }
                }
            },
        }
    }

    /// The name of the entry at `index`.
    pub fn name_at(&self, index: usize) -> (name: &str)
        requires
            index < self.entries().len(),
        ensures
            name@ == self.entries()[index as int].0,
    {
        self.entries[index].0.as_str()
    }

    /// The value of the entry at `index`.
    pub fn value_at(&self, index: usize) -> (value: Value)
        requires
            index < self.entries().len(),
        ensures
            value == self.entries()[index as int].1,
    {
        self.entries[index].1
    }
}

} // verus!
