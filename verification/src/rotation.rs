//! The rotation dispatcher: a fixed table of backend addresses and a cursor
//! that walks it cyclically.

use vstd::prelude::*;

verus! {

/// The mathematical state of a dispatcher: the table and the cursor.
pub struct Rotation {
    pub table: Seq<Seq<char>>,
    pub cursor: nat,
}

impl Rotation {
    /// The index that the next assignment reads: the cursor, wrapped to zero
    /// once it has reached the end of the table.
    pub open spec fn position(self) -> nat {
        if self.cursor >= self.table.len() {
            0
        } else {
            self.cursor
        }
    }

    /// The address that the next assignment hands out.
    pub open spec fn current(self) -> Seq<char>
        recommends
            self.table.len() > 0,
    {
        self.table[self.position() as int]
    }

    /// The state after one assignment.
    pub open spec fn advance(self) -> Rotation {
        Rotation { table: self.table, cursor: self.position() + 1 }
    }

    /// The state after `k` assignments.
    pub open spec fn advance_by(self, k: nat) -> Rotation
        decreases k,
    {
        if k == 0 {
            self
        } else {
            self.advance().advance_by((k - 1) as nat)
        }
    }

    /// The addresses handed out by the first `k` assignments, in order.
    pub open spec fn assignments(self, k: nat) -> Seq<Seq<char>>
        decreases k,
    {
        if k == 0 {
            Seq::empty()
        } else {
            seq![self.current()] + self.advance().assignments((k - 1) as nat)
        }
    }
}

/// Owns the backend table and the rotating cursor.
pub struct Dispatcher {
    table: Vec<String>,
    cursor: usize,
}

impl View for Dispatcher {
    type V = Rotation;

    closed spec fn view(&self) -> Rotation {
        Rotation {
            table: Seq::new(self.table@.len(), |i: int| self.table@[i]@),
            cursor: self.cursor as nat,
        }
    }
}

impl Dispatcher {
    /// A dispatcher serves a non-empty table and keeps its cursor within it.
    pub closed spec fn wf(&self) -> bool {
        &&& self.table@.len() >= 1
        &&& self.cursor <= self.table@.len()
    }

    /// Builds the dispatcher for a table of addresses, with the cursor on the
    /// first of them.
    pub fn new(table: Vec<String>) -> (d: Dispatcher)
        requires
            table@.len() >= 1,
        ensures
            d.wf(),
            d@.cursor == 0,
            d@.table.len() == table@.len(),
            forall|i: int| 0 <= i < table@.len() ==> d@.table[i] == table@[i]@,
    {
        Dispatcher { table, cursor: 0 }
    }

    /// The number of backends in the table.
    pub fn len(&self) -> (n: usize)
        ensures
            n == self@.table.len(),
    {
        self.table.len()
    }

    /// Hands out the address under the cursor and moves the cursor one step
    /// on, wrapping at the end of the table.
    pub fn next(&mut self) -> (address: String)
        requires
            old(self).wf(),
        ensures
            final(self).wf(),
            address@ == old(self)@.current(),
            final(self)@ == old(self)@.advance(),
    {
        if self.cursor >= self.table.len() {
            self.cursor = 0;
        }
        let address = self.table[self.cursor].clone();
        self.cursor = self.cursor + 1;
        proof {
            assert(final(self)@.table =~= old(self)@.table);
        }
        address
    }
}

/// Rotation law: starting from any state over a non-empty table, the `k`
/// addresses handed out are the table read cyclically from the starting
/// position, and the position after them is the starting position moved on by
/// `k`, modulo the table's length. From a fresh dispatcher the `i`-th address
/// is therefore `table[i % N]`: whole cycles, then a prefix of one. Calls that
/// are serialised in any order hand out this same sequence, hence the same
/// multiset of addresses.
pub proof fn lemma_rotation_is_cyclic(r: Rotation, k: nat)
    requires
        r.table.len() >= 1,
    ensures
        r.assignments(k).len() == k,
        forall|i: int|
            0 <= i < k ==> #[trigger] r.assignments(k)[i] == r.table[(r.position() + i) % (
            r.table.len() as int)],
        r.advance_by(k).table == r.table,
        r.advance_by(k).position() == (r.position() + k) % r.table.len(),
        r.assignments(k).to_multiset() == Seq::new(
            k,
            |i: int| r.table[(r.position() + i) % (r.table.len() as int)],
        ).to_multiset(),
    decreases k,
{
    let n = r.table.len() as int;
    let p = r.position() as int;
    vstd::arithmetic::div_mod::lemma_small_mod(p as nat, n as nat);
    if k > 0 {
        let next = r.advance();
        let q = next.position() as int;
        lemma_rotation_is_cyclic(next, (k - 1) as nat);
        assert forall|i: int| 0 <= i < k implies #[trigger] r.assignments(k)[i] == r.table[(p + i)
            % n] by {
            if i > 0 {
                lemma_shifted_position(p, q, i, n);
            }
        }
        lemma_shifted_position(p, q, k as int, n);
    }
    assert(r.assignments(k) =~= Seq::new(k, |i: int| r.table[(p + i) % n]));
}

/// The table written `count` times over.
pub open spec fn whole_cycles(table: Seq<Seq<char>>, count: nat) -> Seq<Seq<char>>
    decreases count,
{
    if count == 0 {
        Seq::empty()
    } else {
        table + whole_cycles(table, (count - 1) as nat)
    }
}

/// Rotation law for a fresh dispatcher over `N >= 1` backends: the first `k`
/// addresses are the whole table `k / N` times over, followed by its first
/// `k % N` entries. Whatever the order in which serialised callers receive
/// them, the addresses handed out are this multiset.
pub proof fn lemma_fresh_rotation_is_cycles_then_prefix(r: Rotation, k: nat)
    requires
        r.table.len() >= 1,
        r.cursor == 0,
    ensures
        r.assignments(k) == whole_cycles(r.table, k / r.table.len()) + r.table.take(
            (k % r.table.len()) as int,
        ),
        r.assignments(k).to_multiset() == whole_cycles(r.table, k / r.table.len()).to_multiset().add(
            r.table.take((k % r.table.len()) as int).to_multiset(),
        ),
{
    let n = r.table.len();
    lemma_rotation_is_cyclic(r, k);
    lemma_cycles_then_prefix(r.table, k);
    assert(r.assignments(k) =~= Seq::new(k, |i: int| r.table[i % (n as int)]));
    vstd::seq_lib::lemma_multiset_commutative(
        whole_cycles(r.table, k / n),
        r.table.take((k % n) as int),
    );
}

/// Reading a table cyclically gives whole cycles and then a prefix of one.
proof fn lemma_cycles_then_prefix(table: Seq<Seq<char>>, k: nat)
    requires
        table.len() >= 1,
    ensures
        Seq::new(k, |i: int| table[i % (table.len() as int)]) == whole_cycles(
            table,
            k / table.len(),
        ) + table.take((k % table.len()) as int),
    decreases k,
{
    let n = table.len() as int;
    let cyclic = Seq::new(k, |i: int| table[i % n]);
    if k < n {
        vstd::arithmetic::div_mod::lemma_small_mod(k, n as nat);
        vstd::arithmetic::div_mod::lemma_basic_div(k as int, n);
        assert forall|i: int| 0 <= i < k implies cyclic[i] == table.take(k as int)[i] by {
            vstd::arithmetic::div_mod::lemma_small_mod(i as nat, n as nat);
        }
        assert(whole_cycles(table, 0) =~= Seq::<Seq<char>>::empty());
        assert(cyclic =~= whole_cycles(table, 0) + table.take(k as int));
    } else {
        let rest = (k - n) as nat;
        lemma_cycles_then_prefix(table, rest);
        let shorter = Seq::new(rest, |i: int| table[i % n]);
        vstd::arithmetic::div_mod::lemma_mod_sub_multiples_vanish(k as int, n);
        vstd::arithmetic::div_mod::lemma_div_plus_one(rest as int, n);
        assert(k / (n as nat) == rest / (n as nat) + 1);
        assert(k % (n as nat) == rest % (n as nat));
        assert forall|i: int| 0 <= i < k implies cyclic[i] == (table + shorter)[i] by {
            if i < n {
                vstd::arithmetic::div_mod::lemma_small_mod(i as nat, n as nat);
            } else {
                vstd::arithmetic::div_mod::lemma_mod_sub_multiples_vanish(i, n);
            }
        }
        assert(cyclic =~= table + shorter);
        assert(whole_cycles(table, k / (n as nat)) == table + whole_cycles(
            table,
            rest / (n as nat),
        ));
        assert(cyclic =~= whole_cycles(table, k / (n as nat)) + table.take(
            (k % (n as nat)) as int,
        ));
    }
}

/// Moving on by `i` steps from `p` is moving on by `i - 1` steps from the
/// position `q` that follows `p`.
proof fn lemma_shifted_position(p: int, q: int, i: int, n: int)
    requires
        n >= 1,
        0 <= p < n,
        i >= 1,
        q == (if p + 1 >= n {
            0
        } else {
            p + 1
        }),
    ensures
        (q + (i - 1)) % n == (p + i) % n,
{
    if p + 1 >= n {
        vstd::arithmetic::div_mod::lemma_mod_add_multiples_vanish(i - 1, n);
    }
}

} // verus!
