//! The adaptive breakpoint-address table.
//!
//! A set of program-counter addresses that should halt execution. While the
//! table is small it is an unordered vector scanned linearly; once an
//! insertion would push its cardinality past `BP_SMALL_MAX` it is rebuilt as
//! a hash set, and it never reverts. Membership, insertion and removal are
//! observably identical across the two variants.

use vstd::prelude::*;
use vstd::seq_lib::*;
use std::collections::HashSet;

verus! {

/// Largest cardinality served by the linear-scan variant.
pub const BP_SMALL_MAX: usize = 30;

/// The table: a small unordered vector, or a large hash set.
pub enum BreakpointTable {
    Small(Vec<u64>),
    Large(HashSet<u64>),
}

/// Pushing an element adds exactly it to the set a sequence represents.
proof fn lemma_to_set_push(s: Seq<u64>, a: u64)
    ensures
        s.push(a).to_set() == s.to_set().insert(a),
{
    assert forall|x: u64| s.push(a).to_set().contains(x) implies s.to_set().insert(a).contains(
        x,
    ) by {
        let k = choose|k: int| 0 <= k < s.push(a).len() && s.push(a)[k] == x;
        if k < s.len() {
            assert(s[k] == x);
        }
    }
    assert forall|x: u64| s.to_set().insert(a).contains(x) implies s.push(a).to_set().contains(
        x,
    ) by {
        if x == a {
            assert(s.push(a)[s.len() as int] == x);
        } else {
            let k = choose|k: int| 0 <= k < s.len() && s[k] == x;
            assert(s.push(a)[k] == x);
        }
    }
    assert(s.push(a).to_set() =~= s.to_set().insert(a));
}

/// Removing position `i` from a duplicate-free sequence removes exactly the
/// element there from the set it represents, and keeps it duplicate-free.
proof fn lemma_to_set_remove_at(s: Seq<u64>, i: int)
    requires
        0 <= i < s.len(),
        s.no_duplicates(),
    ensures
        s.remove(i).to_set() == s.to_set().remove(s[i]),
        s.remove(i).no_duplicates(),
{
    s.remove_ensures(i);
    let r = s.remove(i);
    assert forall|x: u64| r.to_set().contains(x) implies s.to_set().remove(s[i]).contains(x) by {
        let k = choose|k: int| 0 <= k < r.len() && r[k] == x;
        if k < i {
            assert(s[k] == x);
        } else {
            assert(s[k + 1] == x);
        }
    }
    assert forall|x: u64| s.to_set().remove(s[i]).contains(x) implies r.to_set().contains(x) by {
        let k = choose|k: int| 0 <= k < s.len() && s[k] == x;
        if k < i {
            assert(r[k] == x);
        } else {
            assert(r[k - 1] == x);
        }
    }
    assert(r.to_set() =~= s.to_set().remove(s[i]));
    assert forall|p: int, q: int| 0 <= p < r.len() && 0 <= q < r.len() && p != q implies r[p]
        != r[q] by {
        let sp: int = if p < i {
            p
        } else {
            p + 1
        };
        let sq: int = if q < i {
            q
        } else {
            q + 1
        };
        assert(s[sp] != s[sq]);
    }
}

/// Linear scan for an address, returning its position if present.
fn find_index(v: &Vec<u64>, addr: u64) -> (r: Option<usize>)
    ensures
        r matches Some(i) ==> i < v@.len() && v@[i as int] == addr,
        r is None ==> !v@.contains(addr),
{
    let n = v.len();
    let mut i: usize = 0;
    while i < n
        invariant
            i <= n,
            n == v@.len(),
            forall|j: int| 0 <= j < i ==> v@[j] != addr,
        decreases n - i,
    {
        if v[i] == addr {
            return Some(i);
        }
        i = i + 1;
    }
    None
}

impl View for BreakpointTable {
    type V = Set<u64>;

    /// The set of addresses the table represents, whichever variant holds
    /// them.
    open spec fn view(&self) -> Set<u64> {
        match self {
            BreakpointTable::Small(v) => v@.to_set(),
            BreakpointTable::Large(h) => h@,
        }
    }
}

impl BreakpointTable {
    /// Whether the table has transitioned to the hash-set variant.
    pub open spec fn is_large(&self) -> bool {
        match self {
            BreakpointTable::Small(_) => false,
            BreakpointTable::Large(_) => true,
        }
    }

    /// Well-formedness: the small variant holds no duplicates and never more
    /// than `BP_SMALL_MAX` addresses.
    pub open spec fn inv(&self) -> bool {
        match self {
            BreakpointTable::Small(v) => v@.no_duplicates() && v@.len() <= BP_SMALL_MAX,
            BreakpointTable::Large(_) => true,
        }
    }

    /// An empty table, starting in the small variant.
    pub fn new() -> (t: BreakpointTable)
        ensures
            t@ == Set::<u64>::empty(),
            !t.is_large(),
            t.inv(),
    {
        let t = BreakpointTable::Small(Vec::new());
        proof {
            assert(t@ =~= Set::<u64>::empty());
        }
        t
    }

    /// True iff `addr` was inserted and not subsequently removed.
    pub fn contains(&self, addr: u64) -> (r: bool)
        requires
            self.inv(),
        ensures
            r == self@.contains(addr),
    {
        match self {
            BreakpointTable::Small(v) => {
                match find_index(v, addr) {
                    Some(i) => {
                        proof {
                            assert(v@[i as int] == addr);
                        }
                        true
                    },
                    None => false,
                }
            },
            BreakpointTable::Large(h) => h.contains(&addr),
        }
    }

    /// The number of addresses currently represented.
    pub fn len(&self) -> (r: usize)
        requires
            self.inv(),
        ensures
            r == self@.len(),
    {
        match self {
            BreakpointTable::Small(v) => {
                proof {
                    v@.unique_seq_to_set();
                }
                v.len()
            },
            BreakpointTable::Large(h) => h.len(),
        }
    }

    /// Insert an address. Idempotent: inserting a present address changes
    /// nothing. If the small variant's cardinality would exceed
    /// `BP_SMALL_MAX`, the table is rebuilt in place as the large variant
    /// holding all prior members plus the new one.
    pub fn insert(&mut self, addr: u64)
        requires
            old(self).inv(),
        ensures
            final(self).inv(),
            final(self)@ == spec_table_insert(old(self)@, old(self).is_large(), addr).0,
            final(self).is_large() == spec_table_insert(old(self)@, old(self).is_large(), addr).1,
    {
        proof {
            if !old(self).is_large() {
                old(self)->Small_0@.unique_seq_to_set();
            }
        }
        if self.contains(addr) {
            proof {
                assert(old(self)@.insert(addr) =~= old(self)@);
            }
            return ;
        }
        match self {
            BreakpointTable::Small(v) => {
                if v.len() < BP_SMALL_MAX {
                    v.push(addr);
                    proof {
                        lemma_to_set_push(old(self)->Small_0@, addr);
                    }
                } else {
                    let ghost old_seq = v@;
                    let mut h: HashSet<u64> = HashSet::new();
                    let n = v.len();
                    let mut i: usize = 0;
                    while i < n
                        invariant
                            i <= n,
                            n == v@.len(),
                            v@ == old_seq,
                            h@ == v@.take(i as int).to_set(),
                        decreases n - i,
                    {
                        h.insert(v[i]);
                        proof {
                            assert(v@.take(i + 1) =~= v@.take(i as int).push(v@[i as int]));
                            lemma_to_set_push(v@.take(i as int), v@[i as int]);
                        }
                        i = i + 1;
                    }
                    proof {
                        assert(v@.take(n as int) =~= v@);
                    }
                    h.insert(addr);
                    *self = BreakpointTable::Large(h);
                }
            },
            BreakpointTable::Large(h) => {
                h.insert(addr);
            },
        }
    }

    /// Remove an address. Idempotent: removing an absent address changes
    /// nothing. Works on whichever variant is current; the table never
    /// downgrades to the small variant.
    pub fn remove(&mut self, addr: u64)
        requires
            old(self).inv(),
        ensures
            final(self).inv(),
            final(self)@ == spec_table_remove(old(self)@, old(self).is_large(), addr).0,
            final(self).is_large() == spec_table_remove(old(self)@, old(self).is_large(), addr).1,
    {
        match self {
            BreakpointTable::Small(v) => {
                match find_index(v, addr) {
                    Some(i) => {
                        proof {
                            lemma_to_set_remove_at(v@, i as int);
                        }
                        v.remove(i);
                    },
                    None => {
                        proof {
                            assert(v@.to_set() =~= v@.to_set().remove(addr));
                        }
                    },
                }
            },
            BreakpointTable::Large(h) => {
                h.remove(&addr);
            },
        }
    }
}

/// The mathematical model of one insertion: the tracked set always gains the
/// address; the variant flag flips exactly when a small table at capacity
/// receives a fresh address, and never flips back.
pub open spec fn spec_table_insert(s: Set<u64>, large: bool, addr: u64) -> (Set<u64>, bool) {
    (s.insert(addr), large || (s.len() == BP_SMALL_MAX && !s.contains(addr)))
}

/// The mathematical model of one removal: the tracked set loses the address;
/// the variant flag never changes on removal.
pub open spec fn spec_table_remove(s: Set<u64>, large: bool, addr: u64) -> (Set<u64>, bool) {
    (s.remove(addr), large)
}

/// A table mutation, for stating laws over operation sequences.
pub enum TableOp {
    Insert(u64),
    Remove(u64),
}

/// Apply one operation to the table model.
pub open spec fn apply_op(m: (Set<u64>, bool), op: TableOp) -> (Set<u64>, bool) {
    match op {
        TableOp::Insert(a) => spec_table_insert(m.0, m.1, a),
        TableOp::Remove(a) => spec_table_remove(m.0, m.1, a),
    }
}

/// Apply a sequence of operations, front first, to the table model.
pub open spec fn apply_ops(m: (Set<u64>, bool), ops: Seq<TableOp>) -> (Set<u64>, bool)
    decreases ops.len(),
{
    if ops.len() == 0 {
        m
    } else {
        apply_ops(apply_op(m, ops[0]), ops.drop_first())
    }
}

/// Apply a sequence of operations to a bare set of addresses, ignoring any
/// variant bookkeeping.
pub open spec fn apply_ops_set(s: Set<u64>, ops: Seq<TableOp>) -> Set<u64>
    decreases ops.len(),
{
    if ops.len() == 0 {
        s
    } else {
        apply_ops_set(
            match ops[0] {
                TableOp::Insert(a) => s.insert(a),
                TableOp::Remove(a) => s.remove(a),
            },
            ops.drop_first(),
        )
    }
}

/// Variant independence: after any sequence of insertions and removals, the
/// set of addresses the table represents is exactly the net inserted set —
/// the same fold over a bare set — regardless of whether or when the
/// small-to-large transition occurred.
pub proof fn lemma_table_variant_independent(m: (Set<u64>, bool), ops: Seq<TableOp>)
    ensures
        apply_ops(m, ops).0 == apply_ops_set(m.0, ops),
    decreases ops.len(),
{
    if ops.len() > 0 {
        lemma_table_variant_independent(apply_op(m, ops[0]), ops.drop_first());
    }
}

/// The model of inserting a sequence of addresses, one by one, last one
/// last.
pub open spec fn insert_all(m: (Set<u64>, bool), addrs: Seq<u64>) -> (Set<u64>, bool)
    decreases addrs.len(),
{
    if addrs.len() == 0 {
        m
    } else {
        let prev = insert_all(m, addrs.drop_last());
        spec_table_insert(prev.0, prev.1, addrs.last())
    }
}

/// The empty table's model: no addresses, small variant.
pub open spec fn initial_table_model() -> (Set<u64>, bool) {
    (Set::<u64>::empty(), false)
}

proof fn lemma_insert_all_distinct(addrs: Seq<u64>)
    requires
        addrs.no_duplicates(),
    ensures
        insert_all(initial_table_model(), addrs).0 == addrs.to_set(),
        insert_all(initial_table_model(), addrs).1 == (addrs.len() > BP_SMALL_MAX),
    decreases addrs.len(),
{
    if addrs.len() == 0 {
        assert(insert_all(initial_table_model(), addrs).0 =~= addrs.to_set());
    } else {
        let prefix = addrs.drop_last();
        assert(prefix.no_duplicates());
        lemma_insert_all_distinct(prefix);
        prefix.unique_seq_to_set();
        assert(!prefix.to_set().contains(addrs.last()));
        assert(prefix.push(addrs.last()) =~= addrs);
        lemma_to_set_push(prefix, addrs.last());
    }
}

/// Inserting `BP_SMALL_MAX + 1` distinct addresses into an empty table
/// triggers exactly one variant transition: the table is still small after
/// each of the first `BP_SMALL_MAX` insertions, large after the last one,
/// and every inserted address — in particular each of the first
/// `BP_SMALL_MAX` — remains a member afterwards.
pub proof fn lemma_single_transition(addrs: Seq<u64>)
    requires
        addrs.no_duplicates(),
        addrs.len() == BP_SMALL_MAX + 1,
    ensures
        forall|k: int|
            0 <= k <= BP_SMALL_MAX ==> !insert_all(
                initial_table_model(),
                #[trigger] addrs.take(k),
            ).1,
        insert_all(initial_table_model(), addrs).1,
        forall|i: int|
            0 <= i < addrs.len() ==> insert_all(initial_table_model(), addrs).0.contains(addrs[i]),
{
    lemma_insert_all_distinct(addrs);
    assert forall|k: int| 0 <= k <= BP_SMALL_MAX implies !insert_all(
        initial_table_model(),
        #[trigger] addrs.take(k),
    ).1 by {
        assert(addrs.take(k).no_duplicates());
        lemma_insert_all_distinct(addrs.take(k));
    }
}

} // verus!
