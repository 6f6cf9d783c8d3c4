//! The node weight table: for each node that is named in it, the weight with
//! which the pool prefers that node when it picks nodes to ask.

use vstd::prelude::*;

verus! {

/// One line of the table. The weight is a single-precision number, held as
/// its bit pattern: the session hands weights on and never computes with
/// them.
#[derive(Debug, PartialEq)]
pub struct NodeWeight {
    pub name: String,
    pub weight_bits: u32,
}

/// Whether no two lines of `entries` name the same node.
pub open spec fn distinct_names(entries: Seq<NodeWeight>) -> bool {
    forall|i: int, j: int|
        0 <= i < j < entries.len() ==> (#[trigger] entries[i]).name@ != (#[trigger] entries[j]).name@
}

/// Whether some line of `entries` names `name`.
pub open spec fn names(entries: Seq<NodeWeight>, name: Seq<char>) -> bool {
    exists|i: int| 0 <= i < entries.len() && (#[trigger] entries[i]).name@ == name
}

/// The place of a line of `entries` that names `name`.
pub open spec fn position(entries: Seq<NodeWeight>, name: Seq<char>) -> int {
    choose|i: int| 0 <= i < entries.len() && (#[trigger] entries[i]).name@ == name
}

/// The table that `entries` spells out.
pub open spec fn table(entries: Seq<NodeWeight>) -> Map<Seq<char>, u32> {
    Map::new(
        |name: Seq<char>| names(entries, name),
        |name: Seq<char>| entries[position(entries, name)].weight_bits,
    )
}

/// Where names are distinct, the line that names a node is found at the one
/// place where it stands.
pub proof fn lemma_position_is_unique(entries: Seq<NodeWeight>, i: int)
    requires
        distinct_names(entries),
        0 <= i < entries.len(),
    ensures
        names(entries, entries[i].name@),
        position(entries, entries[i].name@) == i,
{
    let name = entries[i].name@;
    assert(names(entries, name));
    let at = position(entries, name);
    assert(0 <= at < entries.len() && entries[at].name@ == name);
    if at < i {
        assert(entries[at].name@ != entries[i].name@);
    } else if i < at {
        assert(entries[i].name@ != entries[at].name@);
    }
}

/// A table from node names to weights. No name occurs twice.
#[derive(Debug, PartialEq)]
pub struct NodeWeights {
    entries: Vec<NodeWeight>,
}

impl View for NodeWeights {
    type V = Map<Seq<char>, u32>;

    closed spec fn view(&self) -> Map<Seq<char>, u32> {
        table(self.entries@)
    }
}

impl NodeWeights {
    #[verifier::type_invariant]
    closed spec fn inv(&self) -> bool {
        distinct_names(self.entries@)
    }

    /// The table without any line.
    pub fn new() -> (weights: NodeWeights)
        ensures
            weights@ == Map::<Seq<char>, u32>::empty(),
    {
        let weights = NodeWeights { entries: Vec::new() };
        assert(weights@ =~= Map::<Seq<char>, u32>::empty());
        weights
    }

    /// The number of nodes that the table names.
    pub fn len(&self) -> (n: usize)
        ensures
            n == self@.dom().len(),
            self@.dom().finite(),
    {
        proof {
            use_type_invariant(self);
            lemma_domain_size(self.entries@);
        }
        self.entries.len()
    }

    fn find(&self, name: &String) -> (at: Option<usize>)
        ensures
            match at {
                Some(i) => i < self.entries@.len() && self.entries@[i as int].name@ == name@,
                None => !names(self.entries@, name@),
            },
    {
        let mut i: usize = 0;
        while i < self.entries.len()
            invariant
                i <= self.entries@.len(),
                forall|k: int| 0 <= k < i ==> (#[trigger] self.entries@[k]).name@ != name@,
            decreases self.entries@.len() - i,
        {
            if self.entries[i].name == *name {
                return Some(i);
            }
            i += 1;
        }
        None
    }

    /// The weight of the node `name`, where the table names it.
    pub fn get(&self, name: &String) -> (weight_bits: Option<u32>)
        ensures
            weight_bits == (if self@.contains_key(name@) {
                Some(self@[name@])
            } else {
                None
            }),
    {
        proof {
            use_type_invariant(self);
        }
        match self.find(name) {
            Some(i) => {
                proof {
                    lemma_position_is_unique(self.entries@, i as int);
                }
                Some(self.entries[i].weight_bits)
            },
            None => None,
        }
    }

    /// Gives the node `name` the weight `weight_bits`, whether or not the
    /// table named it before. Every other node keeps its weight.
    pub fn insert(&mut self, name: String, weight_bits: u32)
        ensures
            final(self)@ == old(self)@.insert(name@, weight_bits),
    {
        proof {
            use_type_invariant(&*self);
        }
        let ghost before = self.entries@;
        let ghost key = name@;
        let found = self.find(&name);
        let mut lines: Vec<NodeWeight> = Vec::new();
        let mut i: usize = 0;
        while i < self.entries.len()
            invariant
                i <= self.entries@.len(),
                self.entries@ == before,
                lines@.len() == i,
                forall|k: int|
                    0 <= k < i ==> (#[trigger] lines@[k]).name@ == before[k].name@
                        && lines@[k].weight_bits == (if found == Some(k as usize) {
                        weight_bits
                    } else {
                        before[k].weight_bits
                    }),
            decreases self.entries@.len() - i,
        {
            let line = &self.entries[i];
            let kept = if found == Some(i) {
                weight_bits
            } else {
                line.weight_bits
            };
            lines.push(NodeWeight { name: line.name.clone(), weight_bits: kept });
            i += 1;
        }
        match found {
            Some(at) => {
                proof {
                    lemma_same_names_stay_distinct(before, lines@);
                    lemma_update_table(before, lines@, at as int, key, weight_bits);
                }
            },
            None => {
                lines.push(NodeWeight { name, weight_bits });
                proof {
                    let after = lines@;
                    assert(distinct_names(after)) by {
                        assert forall|a: int, b: int| 0 <= a < b < after.len() implies (
                        #[trigger] after[a]).name@ != (#[trigger] after[b]).name@ by {
                            if b < before.len() {
                                assert(before[a].name@ != before[b].name@);
                            } else {
                                assert(before[a].name@ != key);
                            }
                        }
                    }
                    lemma_push_table(before, after, key, weight_bits);
                }
            },
        }
        self.entries = lines;
    }

    /// The lines of the table, each node once, in no order that callers may
    /// rely on.
    pub fn entries(&self) -> (lines: Vec<NodeWeight>)
        ensures
            distinct_names(lines@),
            table(lines@) == self@,
    {
        proof {
            use_type_invariant(self);
        }
        let mut lines: Vec<NodeWeight> = Vec::new();
        let mut i: usize = 0;
        while i < self.entries.len()
            invariant
                i <= self.entries@.len(),
                lines@.len() == i,
                forall|k: int|
                    0 <= k < i ==> (#[trigger] lines@[k]).name@ == self.entries@[k].name@
                        && lines@[k].weight_bits == self.entries@[k].weight_bits,
            decreases self.entries@.len() - i,
        {
            let line = &self.entries[i];
            lines.push(NodeWeight { name: line.name.clone(), weight_bits: line.weight_bits });
            i += 1;
        }
        proof {
            lemma_same_lines_same_table(self.entries@, lines@);
        }
        lines
    }
}

impl Clone for NodeWeights {
    fn clone(&self) -> (copy: NodeWeights)
        ensures
            copy@ == self@,
    {
        let lines = self.entries();
        NodeWeights { entries: lines }
    }
}

/// Two lists that agree line by line on name and weight spell out the same
/// table, and the second has distinct names where the first has.
pub proof fn lemma_same_lines_same_table(first: Seq<NodeWeight>, second: Seq<NodeWeight>)
    requires
        distinct_names(first),
        first.len() == second.len(),
        forall|k: int|
            0 <= k < first.len() ==> (#[trigger] second[k]).name@ == first[k].name@
                && second[k].weight_bits == first[k].weight_bits,
    ensures
        distinct_names(second),
        table(second) == table(first),
{
    lemma_same_names_stay_distinct(first, second);
    assert forall|name: Seq<char>| names(first, name) == names(second, name) by {
        if names(first, name) {
            let i = position(first, name);
            assert(second[i].name@ == name);
        }
        if names(second, name) {
            let i = position(second, name);
            assert(first[i].name@ == name);
        }
    }
    assert forall|name: Seq<char>| names(first, name) implies first[position(
        first,
        name,
    )].weight_bits == second[position(second, name)].weight_bits by {
        let i = position(first, name);
        assert(second[i].name@ == name);
        lemma_position_is_unique(second, i);
    }
    assert(table(second) =~= table(first));
}

/// A list that names, line by line, the nodes of a list with distinct names
/// has distinct names too.
proof fn lemma_same_names_stay_distinct(first: Seq<NodeWeight>, second: Seq<NodeWeight>)
    requires
        distinct_names(first),
        first.len() == second.len(),
        forall|k: int| 0 <= k < first.len() ==> (#[trigger] second[k]).name@ == first[k].name@,
    ensures
        distinct_names(second),
{
    assert forall|a: int, b: int| 0 <= a < b < second.len() implies (#[trigger] second[a]).name@
        != (#[trigger] second[b]).name@ by {
        assert(first[a].name@ != first[b].name@);
    }
}

/// Replacing the weight in the line that names `key` changes the table at
/// `key` and nowhere else.
proof fn lemma_update_table(
    before: Seq<NodeWeight>,
    after: Seq<NodeWeight>,
    i: int,
    key: Seq<char>,
    weight_bits: u32,
)
    requires
        distinct_names(before),
        distinct_names(after),
        0 <= i < before.len(),
        before[i].name@ == key,
        after.len() == before.len(),
        after[i].name@ == key,
        after[i].weight_bits == weight_bits,
        forall|k: int|
            0 <= k < before.len() ==> (#[trigger] after[k]).name@ == before[k].name@,
        forall|k: int|
            0 <= k < before.len() && k != i ==> (#[trigger] after[k]).weight_bits
                == before[k].weight_bits,
    ensures
        table(after) == table(before).insert(key, weight_bits),
{
    assert forall|name: Seq<char>| names(after, name) == (names(before, name) || name == key) by {
        if names(after, name) {
            let k = position(after, name);
            assert(before[k].name@ == name);
        }
        if names(before, name) {
            let k = position(before, name);
            assert(after[k].name@ == name);
        }
        if name == key {
            assert(after[i].name@ == name);
        }
    }
    assert forall|name: Seq<char>| names(after, name) implies after[position(
        after,
        name,
    )].weight_bits == (if name == key {
        weight_bits
    } else {
        before[position(before, name)].weight_bits
    }) by {
        let k = position(after, name);
        if name == key {
            lemma_position_is_unique(after, i);
        } else {
            assert(k != i);
            assert(before[k].name@ == name);
            lemma_position_is_unique(before, k);
        }
    }
    assert(table(after) =~= table(before).insert(key, weight_bits));
}

/// Adding a line for a node that the list does not name yet adds that node
/// to the table and changes nothing else.
proof fn lemma_push_table(
    before: Seq<NodeWeight>,
    after: Seq<NodeWeight>,
    key: Seq<char>,
    weight_bits: u32,
)
    requires
        distinct_names(after),
        !names(before, key),
        after.len() == before.len() + 1,
        after[before.len() as int].name@ == key,
        after[before.len() as int].weight_bits == weight_bits,
        forall|k: int|
            0 <= k < before.len() ==> (#[trigger] after[k]).name@ == before[k].name@
                && after[k].weight_bits == before[k].weight_bits,
    ensures
        table(after) == table(before).insert(key, weight_bits),
{
    let last = before.len() as int;
    assert forall|name: Seq<char>| names(after, name) == (names(before, name) || name == key) by {
        if names(after, name) {
            let k = position(after, name);
            if k < last {
                assert(before[k].name@ == name);
            }
        }
        if names(before, name) {
            let k = position(before, name);
            assert(after[k].name@ == name);
        }
        if name == key {
            assert(after[last].name@ == name);
        }
    }
    assert forall|name: Seq<char>| names(after, name) implies after[position(
        after,
        name,
    )].weight_bits == (if name == key {
        weight_bits
    } else {
        before[position(before, name)].weight_bits
    }) by {
        let k = position(after, name);
        if name == key {
            lemma_position_is_unique(after, last);
        } else {
            assert(k != last);
            assert(before[k].name@ == name);
            assert(distinct_names(before)) by {
                assert forall|a: int, b: int| 0 <= a < b < before.len() implies (
                #[trigger] before[a]).name@ != (#[trigger] before[b]).name@ by {
                    assert(after[a].name@ != after[b].name@);
                }
            }
            lemma_position_is_unique(before, k);
        }
    }
    assert(table(after) =~= table(before).insert(key, weight_bits));
}

/// A list with distinct names spells out a table with as many nodes as the
/// list has lines.
proof fn lemma_domain_size(entries: Seq<NodeWeight>)
    requires
        distinct_names(entries),
    ensures
        table(entries).dom().finite(),
        table(entries).dom().len() == entries.len(),
    decreases entries.len(),
{
    if entries.len() == 0 {
        assert(table(entries).dom() =~= Set::<Seq<char>>::empty());
    } else {
        let front = entries.drop_last();
        let last = entries.last();
        assert(distinct_names(front)) by {
            assert forall|a: int, b: int| 0 <= a < b < front.len() implies (#[trigger] front[a]).name@
                != (#[trigger] front[b]).name@ by {
                assert(entries[a].name@ != entries[b].name@);
            }
        }
        lemma_domain_size(front);
        assert(!names(front, last.name@)) by {
            if names(front, last.name@) {
                let k = position(front, last.name@);
                assert(entries[k].name@ != entries[entries.len() - 1].name@);
            }
        }
        lemma_push_table(front, entries, last.name@, last.weight_bits);
        assert(table(entries).dom() =~= table(front).dom().insert(last.name@));
    }
}

} // verus!
