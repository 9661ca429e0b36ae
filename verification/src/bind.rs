//! Bindings of key sequences to editing operations.

use vstd::prelude::*;
use crate::key::Key;
use crate::op::Op;

verus! {

/// Whether `short` is a proper beginning of `long`: `long` is longer and
/// starts with exactly the keys of `short`.
pub open spec fn is_strict_prefix(short: Seq<Key>, long: Seq<Key>) -> bool {
    short.len() < long.len() && long.take(short.len() as int) == short
}

/// Whether some bound sequence is longer than `keys` and begins with it.
pub open spec fn begins_bound(table: Map<Seq<Key>, Op>, keys: Seq<Key>) -> bool {
    exists|bound: Seq<Key>| #[trigger] table.dom().contains(bound) && is_strict_prefix(keys, bound)
}

/// Whether `keys` is a prefix in the sense of the resolver: it is not bound
/// itself, and some longer bound sequence begins with it.
pub open spec fn awaits_more(table: Map<Seq<Key>, Op>, keys: Seq<Key>) -> bool {
    !table.dom().contains(keys) && begins_bound(table, keys)
}

/// The operation bound to exactly `keys`, if there is one.
pub open spec fn bound_op(table: Map<Seq<Key>, Op>, keys: Seq<Key>) -> Option<Op> {
    if table.dom().contains(keys) {
        Some(table[keys])
    } else {
        None
    }
}

/// One key sequence and the operation bound to it.
struct Binding {
    keys: Vec<Key>,
    op: Op,
}

/// The table that a list of bindings stands for. A sequence bound more than
/// once keeps the operation given last.
spec fn table_of(entries: Seq<Binding>) -> Map<Seq<Key>, Op>
    decreases entries.len(),
{
    if entries.len() == 0 {
        Map::empty()
    } else {
        table_of(entries.drop_last()).insert(entries.last().keys@, entries.last().op)
    }
}

proof fn lemma_table_domain(entries: Seq<Binding>, keys: Seq<Key>)
    ensures
        table_of(entries).dom().contains(keys) <==> exists|j: int|
            0 <= j < entries.len() && (#[trigger] entries[j]).keys@ == keys,
    decreases entries.len(),
{
    if entries.len() > 0 {
        let front = entries.drop_last();
        lemma_table_domain(front, keys);
        if table_of(entries).dom().contains(keys) {
            if entries.last().keys@ == keys {
                assert(entries[entries.len() - 1].keys@ == keys);
            } else {
                let j = choose|j: int| 0 <= j < front.len() && (#[trigger] front[j]).keys@ == keys;
                assert(entries[j].keys@ == keys);
            }
        }
        if exists|j: int| 0 <= j < entries.len() && (#[trigger] entries[j]).keys@ == keys {
            let j = choose|j: int| 0 <= j < entries.len() && (#[trigger] entries[j]).keys@ == keys;
            if j < front.len() {
                assert(front[j].keys@ == keys);
            }
        }
    }
}

proof fn lemma_table_latest(entries: Seq<Binding>, keys: Seq<Key>, j: int)
    requires
        0 <= j < entries.len(),
        entries[j].keys@ == keys,
        forall|k: int| j < k < entries.len() ==> (#[trigger] entries[k]).keys@ != keys,
    ensures
        table_of(entries).dom().contains(keys),
        table_of(entries)[keys] == entries[j].op,
    decreases entries.len(),
{
    if j < entries.len() - 1 {
        let front = entries.drop_last();
        assert(entries[entries.len() - 1].keys@ != keys);
        assert forall|k: int| j < k < front.len() implies (#[trigger] front[k]).keys@ != keys by {
            assert(entries[k].keys@ != keys);
        }
        lemma_table_latest(front, keys, j);
    }
}

/// Whether `long` has at least the keys of `short` and begins with them.
fn begins_with(long: &Vec<Key>, short: &Vec<Key>) -> (b: bool)
    ensures
        b == (short@.len() <= long@.len() && long@.take(short@.len() as int) == short@),
{
    if short.len() > long.len() {
        return false;
    }
    let mut i: usize = 0;
    while i < short.len()
        invariant
            i <= short.len() <= long.len(),
            forall|k: int| 0 <= k < i ==> long@[k] == short@[k],
        decreases short.len() - i,
    {
        if long[i] != short[i] {
            assert(long@.take(short@.len() as int)[i as int] != short@[i as int]);
            return false;
        }
        i = i + 1;
    }
    assert(long@.take(short@.len() as int) =~= short@);
    true
}

/// Whether two key sequences hold the same keys in the same order.
pub fn same_keys(a: &Vec<Key>, b: &Vec<Key>) -> (same: bool)
    ensures
        same == (a@ == b@),
{
    if a.len() != b.len() {
        return false;
    }
    let same = begins_with(a, b);
    assert(a@.take(b@.len() as int) =~= a@);
    same
}

/// Resolves key sequences to editing operations.
pub struct Bindings {
    entries: Vec<Binding>,
}

impl View for Bindings {
    type V = Map<Seq<Key>, Op>;

    /// The bound sequences, each with its operation.
    closed spec fn view(&self) -> Map<Seq<Key>, Op> {
        table_of(self.entries@)
    }
}

impl Bindings {
    /// A resolver with nothing bound.
    pub fn new() -> (bindings: Bindings)
        ensures
            bindings@ == Map::<Seq<Key>, Op>::empty(),
    {
        Bindings { entries: Vec::new() }
    }

    /// Binds `keys` to `op`, in place of what `keys` was bound to before.
    pub fn bind(&mut self, keys: Vec<Key>, op: Op)
        ensures
            final(self)@ == old(self)@.insert(keys@, op),
    {
        self.entries.push(Binding { keys, op });
        assert(self.entries@.drop_last() =~= old(self).entries@);
    }

    /// The operation bound to exactly `keys`: the same length and the same
    /// keys in the same order.
    pub fn find(&self, keys: &Vec<Key>) -> (found: Option<Op>)
        ensures
            found == bound_op(self@, keys@),
    {
        let mut i: usize = self.entries.len();
        while i > 0
            invariant
                i <= self.entries.len(),
                forall|k: int| i <= k < self.entries.len() ==> (#[trigger] self.entries@[k]).keys@ != keys@,
            decreases i,
        {
            i = i - 1;
            if same_keys(&self.entries[i].keys, keys) {
                proof {
                    lemma_table_latest(self.entries@, keys@, i as int);
                }
                return Some(self.entries[i].op);
            }
        }
        proof {
            lemma_table_domain(self.entries@, keys@);
        }
        None
    }

    /// Whether more input is awaited after `keys`: true if and only if
    /// `keys` is not bound itself and some longer bound sequence begins with
    /// exactly these keys.
    pub fn is_prefix(&self, keys: &Vec<Key>) -> (awaited: bool)
        ensures
            awaited == awaits_more(self@, keys@),
    {
        if self.find(keys).is_some() {
            return false;
        }
        let mut i: usize = 0;
        while i < self.entries.len()
            invariant
                i <= self.entries.len(),
                !self@.dom().contains(keys@),
                forall|k: int| 0 <= k < i ==> !is_strict_prefix(keys@, (#[trigger] self.entries@[k]).keys@),
            decreases self.entries.len() - i,
        {
            let bound = &self.entries[i].keys;
            if bound.len() > keys.len() && begins_with(bound, keys) {
                proof {
                    lemma_table_domain(self.entries@, bound@);
                    assert(self.entries@[i as int].keys@ == bound@);
                    assert(self@.dom().contains(bound@) && is_strict_prefix(keys@, bound@));
                }
                return true;
            }
            i = i + 1;
        }
        proof {
            assert forall|bound: Seq<Key>| #[trigger] self@.dom().contains(bound) implies !is_strict_prefix(
                keys@,
                bound,
            ) by {
                lemma_table_domain(self.entries@, bound);
                let j = choose|j: int| 0 <= j < self.entries@.len() && (#[trigger] self.entries@[j]).keys@ == bound;
                assert(!is_strict_prefix(keys@, self.entries@[j].keys@));
            }
        }
        false
    }
}

} // verus!
