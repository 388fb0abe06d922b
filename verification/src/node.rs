//! Nodes as the tasks see them: a name and a ledger of annotations.
//!
//! The annotations of a node are the only record of which tasks it has seen.
//! A task is recorded by a marker: an annotation with the task's key and the
//! value that stands for "applied".

use vstd::prelude::*;

verus! {

/// An annotation: a key and its value.
#[derive(Debug, PartialEq, Eq)]
pub struct Annotation {
    pub key: String,
    pub value: String,
}

impl DeepView for Annotation {
    type V = (Seq<char>, Seq<char>);

    open spec fn deep_view(&self) -> (Seq<char>, Seq<char>) {
        (self.key@, self.value@)
    }
}

/// The mapping that a list of assignments amounts to, where a later
/// assignment to a key replaces an earlier one.
pub open spec fn assigned(entries: Seq<(Seq<char>, Seq<char>)>) -> Map<Seq<char>, Seq<char>>
    decreases entries.len(),
{
    if entries.len() == 0 {
        Map::empty()
    } else {
        assigned(entries.drop_last()).insert(entries.last().0, entries.last().1)
    }
}

/// A key that no assignment names is not in the mapping.
pub proof fn lemma_unassigned(entries: Seq<(Seq<char>, Seq<char>)>, key: Seq<char>)
    requires
        forall|i: int| 0 <= i < entries.len() ==> (#[trigger] entries[i]).0 != key,
    ensures
        !assigned(entries).dom().contains(key),
    decreases entries.len(),
{
    if entries.len() > 0 {
        let init = entries.drop_last();
        assert forall|i: int| 0 <= i < init.len() implies (#[trigger] init[i]).0 != key by {
            assert(init[i] == entries[i]);
        }
        lemma_unassigned(init, key);
        assert(entries.last() == entries[entries.len() - 1]);
    }
}

/// The mapping gives a key the value of the last assignment that names it.
pub proof fn lemma_last_assignment(entries: Seq<(Seq<char>, Seq<char>)>, key: Seq<char>, at: int)
    requires
        0 <= at < entries.len(),
        entries[at].0 == key,
        forall|i: int| at < i < entries.len() ==> (#[trigger] entries[i]).0 != key,
    ensures
        assigned(entries).dom().contains(key),
        assigned(entries)[key] == entries[at].1,
    decreases entries.len(),
{
    let init = entries.drop_last();
    if at < entries.len() - 1 {
        assert(init[at] == entries[at]);
        assert forall|i: int| at < i < init.len() implies (#[trigger] init[i]).0 != key by {
            assert(init[i] == entries[i]);
        }
        lemma_last_assignment(init, key, at);
        assert(entries.last() == entries[entries.len() - 1]);
    }
}

/// Whether no key is assigned twice.
pub open spec fn distinct_keys(entries: Seq<(Seq<char>, Seq<char>)>) -> bool {
    forall|i: int, j: int|
        0 <= i < j < entries.len() ==> (#[trigger] entries[i]).0 != (#[trigger] entries[j]).0
}

/// Where every key is assigned once, a new value in the place of a key's
/// assignment is a new value for the key in the mapping.
pub proof fn lemma_reassigned(
    entries: Seq<(Seq<char>, Seq<char>)>,
    at: int,
    key: Seq<char>,
    value: Seq<char>,
)
    requires
        distinct_keys(entries),
        0 <= at < entries.len(),
        entries[at].0 == key,
    ensures
        assigned(entries.update(at, (key, value))) == assigned(entries).insert(key, value),
        distinct_keys(entries.update(at, (key, value))),
    decreases entries.len(),
{
    let changed = entries.update(at, (key, value));
    let init = entries.drop_last();
    assert forall|i: int, j: int| 0 <= i < j < changed.len() implies (#[trigger] changed[i]).0
        != (#[trigger] changed[j]).0 by {
        assert(changed[i].0 == entries[i].0);
        assert(changed[j].0 == entries[j].0);
    }
    if at == entries.len() - 1 {
        assert(changed.drop_last() =~= init);
        assert(assigned(changed) =~= assigned(entries).insert(key, value));
    } else {
        assert forall|i: int, j: int| 0 <= i < j < init.len() implies (#[trigger] init[i]).0 != (
        #[trigger] init[j]).0 by {
            assert(init[i] == entries[i]);
            assert(init[j] == entries[j]);
        }
        assert(init[at] == entries[at]);
        lemma_reassigned(init, at, key, value);
        assert(changed.drop_last() =~= init.update(at, (key, value)));
        assert(changed.last() == entries.last());
        assert(entries[at].0 != entries[entries.len() - 1].0);
        assert(assigned(changed) =~= assigned(entries).insert(key, value));
    }
}

/// The annotations of a node: a mapping from keys to values. Every key is
/// held once.
#[derive(Debug)]
pub struct Annotations {
    entries: Vec<Annotation>,
}

impl View for Annotations {
    type V = Map<Seq<char>, Seq<char>>;

    closed spec fn view(&self) -> Map<Seq<char>, Seq<char>> {
        assigned(self.entries.deep_view())
    }
}

impl DeepView for Annotations {
    type V = Map<Seq<char>, Seq<char>>;

    open spec fn deep_view(&self) -> Map<Seq<char>, Seq<char>> {
        self@
    }
}

impl Annotations {
    #[verifier::type_invariant]
    closed spec fn well_formed(&self) -> bool {
        distinct_keys(self.entries.deep_view())
    }

    /// The empty mapping.
    pub fn new() -> (r: Annotations)
        ensures
            r@ == Map::<Seq<char>, Seq<char>>::empty(),
    {
        let entries: Vec<Annotation> = Vec::new();
        assert(entries.deep_view() =~= Seq::empty());
        Annotations { entries }
    }

    /// Gives `key` the value `value`, in place of any value it had.
    pub fn insert(&mut self, key: String, value: String)
        ensures
            final(self)@ == old(self)@.insert(key@, value@),
    {
        proof {
            use_type_invariant(&*self);
        }
        let ghost before = self.entries.deep_view();
        let mut entries: Vec<Annotation> = Vec::new();
        std::mem::swap(&mut entries, &mut self.entries);
        let mut i: usize = 0;
        while i < entries.len() && entries[i].key != key
            invariant
                0 <= i <= entries.len(),
                before == entries.deep_view(),
                before.len() == entries.len(),
                forall|j: int| 0 <= j < i ==> (#[trigger] before[j]).0 != key@,
            decreases entries.len() - i,
        {
            assert(before[i as int] == entries[i as int].deep_view());
            i = i + 1;
        }
        if i < entries.len() {
            proof {
                assert(before[i as int] == entries[i as int].deep_view());
                lemma_reassigned(before, i as int, key@, value@);
            }
            entries.set(i, Annotation { key, value });
            assert(entries.deep_view() =~= before.update(i as int, (key@, value@)));
        } else {
            entries.push(Annotation { key, value });
            proof {
                let after = entries.deep_view();
                assert(after.drop_last() =~= before);
                assert(after.last() == (key@, value@));
                assert forall|a: int, b: int| 0 <= a < b < after.len() implies (
                #[trigger] after[a]).0 != (#[trigger] after[b]).0 by {
                    assert(after[a] == before[a]);
                    if b < before.len() {
                        assert(after[b] == before[b]);
                    }
                }
            }
        }
        self.entries = entries;
    }

    /// The value of `key`, if it has one.
    pub fn get(&self, key: &String) -> (r: Option<&String>)
        ensures
            r is Some <==> self@.dom().contains(key@),
            r matches Some(value) ==> value@ == self@[key@],
    {
        let ghost entries = self.entries.deep_view();
        let mut i: usize = self.entries.len();
        while i > 0
            invariant
                0 <= i <= self.entries.len(),
                entries == self.entries.deep_view(),
                entries.len() == self.entries.len(),
                forall|j: int| i <= j < entries.len() ==> (#[trigger] entries[j]).0 != key@,
            decreases i,
        {
            i = i - 1;
            assert(entries[i as int] == self.entries[i as int].deep_view());
            if self.entries[i].key == *key {
                proof {
                    lemma_last_assignment(entries, key@, i as int);
                }
                return Some(&self.entries[i].value);
            }
        }
        proof {
            lemma_unassigned(entries, key@);
        }
        None
    }
}

/// Whether a ledger records a task: the marker's key is present and has the
/// expected value. A key with any other value records nothing.
pub open spec fn marker_satisfied(
    annotations: Map<Seq<char>, Seq<char>>,
    key: Seq<char>,
    expected: Seq<char>,
) -> bool {
    annotations.dom().contains(key) && annotations[key] == expected
}

impl Annotations {
    /// The idempotency guard: says whether the marker `key` is present with
    /// the value `expected`.
    pub fn satisfies(&self, key: &String, expected: &String) -> (satisfied: bool)
        ensures
            satisfied == marker_satisfied(self@, key@, expected@),
    {
        match self.get(key) {
            Some(value) => *value == *expected,
            None => false,
        }
    }
}

/// A node of the cluster, as listed. Either field may be missing from what
/// the cluster reports.
#[derive(Debug)]
pub struct Node {
    pub name: Option<String>,
    pub annotations: Option<Annotations>,
}

pub struct NodeView {
    pub name: Option<Seq<char>>,
    pub annotations: Option<Map<Seq<char>, Seq<char>>>,
}

impl DeepView for Node {
    type V = NodeView;

    open spec fn deep_view(&self) -> NodeView {
        NodeView { name: self.name.deep_view(), annotations: self.annotations.deep_view() }
    }
}

impl View for Node {
    type V = NodeView;

    open spec fn view(&self) -> NodeView {
        self.deep_view()
    }
}

} // verus!
