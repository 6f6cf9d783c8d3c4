//! The transaction set: the ordered, append-only log of the records that
//! describe the validator nodes of a pool.

use vstd::prelude::*;

verus! {

/// The records of `items`, each as the text it holds.
pub open spec fn texts(items: Seq<String>) -> Seq<Seq<char>> {
    items.map_values(|item: String| item@)
}

/// The records of `records` in order, with one line feed between each two
/// neighbours and none at either end.
pub open spec fn join_lines(records: Seq<Seq<char>>) -> Seq<char>
    decreases records.len(),
{
    if records.len() == 0 {
        Seq::empty()
    } else if records.len() == 1 {
        records[0]
    } else {
        join_lines(records.drop_last()) + seq!['\n'] + records.last()
    }
}

/// A copy of `items` that holds the same texts in the same order.
pub fn clone_texts(items: &Vec<String>) -> (copy: Vec<String>)
    ensures
        texts(copy@) == texts(items@),
{
    let mut copy: Vec<String> = Vec::new();
    let mut i: usize = 0;
    while i < items.len()
        invariant
            i <= items.len(),
            copy.len() == i,
            forall|k: int| 0 <= k < i ==> copy@[k]@ == items@[k]@,
        decreases items.len() - i,
    {
        copy.push(items[i].clone());
        i += 1;
    }
    assert(texts(copy@) =~= texts(items@));
    copy
}

/// Joins `items` into one text, a line feed between each two neighbours.
pub fn join_records(items: &Vec<String>) -> (joined: String)
    ensures
        joined@ == join_lines(texts(items@)),
{
    let mut joined = String::new();
    let mut i: usize = 0;
    while i < items.len()
        invariant
            i <= items.len(),
            joined@ == join_lines(texts(items@).take(i as int)),
        decreases items.len() - i,
    {
        let ghost done = texts(items@).take(i as int);
        let ghost next = texts(items@).take(i + 1);
        proof {
            assert(next.drop_last() =~= done);
            assert(next.last() == items@[i as int]@);
        }
        if i > 0 {
            proof {
                reveal_strlit("\n");
                assert("\n"@ =~= seq!['\n']);
            }
            joined.append("\n");
        }
        joined.append(items[i].as_str());
        proof {
            if i == 0 {
                assert(joined@ =~= next[0]);
            }
        }
        i += 1;
    }
    assert(texts(items@).take(items.len() as int) =~= texts(items@));
    joined
}

/// An ordered set of transaction records. The order is significant and is
/// never changed; the only way a set grows is at its end.
#[derive(Debug, PartialEq)]
pub struct PoolTransactions {
    inner: Vec<String>,
}

impl View for PoolTransactions {
    type V = Seq<Seq<char>>;

    closed spec fn view(&self) -> Seq<Seq<char>> {
        texts(self.inner@)
    }
}

impl Clone for PoolTransactions {
    fn clone(&self) -> (copy: PoolTransactions)
        ensures
            copy@ == self@,
    {
        PoolTransactions { inner: clone_texts(&self.inner) }
    }
}

impl PoolTransactions {
    /// The set that holds `records`, in their order.
    pub fn new(records: Vec<String>) -> (txns: PoolTransactions)
        ensures
            txns@ == texts(records@),
    {
        PoolTransactions { inner: records }
    }

    /// The number of records.
    pub fn len(&self) -> (n: usize)
        ensures
            n == self@.len(),
    {
        self.inner.len()
    }

    /// Whether the set holds no record.
    pub fn is_empty(&self) -> (empty: bool)
        ensures
            empty == (self@.len() == 0),
    {
        self.inner.len() == 0
    }

    /// The records, in order, each as its own text.
    pub fn encode_json(&self) -> (records: Vec<String>)
        ensures
            texts(records@) == self@,
    {
        clone_texts(&self.inner)
    }

    /// Appends the records of `more`, in their order, after those already
    /// held. Nothing already held is moved, changed or dropped.
    pub fn extend(&mut self, more: &PoolTransactions)
        ensures
            final(self)@ == old(self)@ + more@,
    {
        let ghost before = self.inner@;
        let mut i: usize = 0;
        while i < more.inner.len()
            invariant
                i <= more.inner.len(),
                self.inner@.len() == before.len() + i,
                forall|k: int| 0 <= k < before.len() ==> self.inner@[k] == before[k],
                forall|k: int| 0 <= k < i ==> self.inner@[before.len() + k]@ == more.inner@[k]@,
            decreases more.inner.len() - i,
        {
            self.inner.push(more.inner[i].clone());
            i += 1;
        }
        assert(texts(self.inner@) =~= texts(before) + texts(more.inner@));
    }
}

} // verus!
