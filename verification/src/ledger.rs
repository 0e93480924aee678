//! The cumulative deposits of the bidders, keyed by their address.

use vstd::prelude::*;

verus! {

/// One bidder and all that this bidder has deposited so far.
#[derive(Clone, Debug, PartialEq)]
struct Entry {
    addr: String,
    amount: u128,
}

/// A finite map from addresses to amounts. It is kept in the order of first
/// deposit, with no address held twice, and two ledgers compare equal with
/// `==` if they hold the same in the same order.
#[derive(Debug, PartialEq)]
pub struct Ledger {
    entries: Vec<Entry>,
}

/// Whether `entries` holds `addr` at position `i`.
spec fn holds_at(entries: Seq<Entry>, addr: Seq<char>, i: int) -> bool {
    0 <= i < entries.len() && entries[i].addr@ == addr
}

/// The map that a sequence of entries with distinct addresses stands for.
spec fn entries_map(entries: Seq<Entry>) -> Map<Seq<char>, nat> {
    Map::new(
        |addr: Seq<char>| exists|i: int| holds_at(entries, addr, i),
        |addr: Seq<char>| entries[choose|i: int| holds_at(entries, addr, i)].amount as nat,
    )
}

/// No two entries share an address.
spec fn distinct(entries: Seq<Entry>) -> bool {
    forall|i: int, j: int|
        0 <= i < j < entries.len() ==> #[trigger] entries[i].addr@ != #[trigger] entries[j].addr@
}

impl View for Ledger {
    type V = Map<Seq<char>, nat>;

    closed spec fn view(&self) -> Map<Seq<char>, nat> {
        entries_map(self.entries@)
    }
}

impl Clone for Ledger {
    fn clone(&self) -> (copy: Ledger)
        ensures
            copy@ == self@,
    {
        proof {
            use_type_invariant(self);
        }
        let mut entries: Vec<Entry> = Vec::new();
        let mut i: usize = 0;
        while i < self.entries.len()
            invariant
                i <= self.entries.len(),
                entries@ == self.entries@.subrange(0, i as int),
            decreases self.entries.len() - i,
        {
            let entry = &self.entries[i];
            entries.push(Entry { addr: entry.addr.clone(), amount: entry.amount });
            i += 1;
            assert(entries@ =~= self.entries@.subrange(0, i as int));
        }
        assert(entries@ =~= self.entries@);
        Ledger { entries }
    }
}

impl Ledger {
    #[verifier::type_invariant]
    spec fn distinct_addresses(&self) -> bool {
        distinct(self.entries@)
    }

    /// The ledger in which nobody has deposited anything.
    pub fn new() -> (ledger: Ledger)
        ensures
            ledger@ == Map::<Seq<char>, nat>::empty(),
    {
        let ledger = Ledger { entries: Vec::new() };
        assert(ledger@ =~= Map::<Seq<char>, nat>::empty());
        ledger
    }

    /// Where `addr` stands among the entries, if it does.
    fn position(&self, addr: &String) -> (at: Option<usize>)
        ensures
            match at {
                Some(i) => holds_at(self.entries@, addr@, i as int),
                None => forall|i: int| !holds_at(self.entries@, addr@, i),
            },
    {
        let mut i: usize = 0;
        while i < self.entries.len()
            invariant
                i <= self.entries.len(),
                forall|j: int| 0 <= j < i ==> !holds_at(self.entries@, addr@, j),
            decreases self.entries.len() - i,
        {
            if self.entries[i].addr == *addr {
                return Some(i);
            }
            i += 1;
        }
        None
    }

    /// What `addr` has deposited so far, or `None` for an address that never
    /// deposited.
    pub fn get(&self, addr: &String) -> (amount: Option<u128>)
        ensures
            match amount {
                Some(a) => self@.contains_key(addr@) && self@[addr@] == a,
                None => !self@.contains_key(addr@),
            },
    {
        proof {
            use_type_invariant(self);
        }
        match self.position(addr) {
            Some(i) => {
                proof {
                    lemma_entries_map_at(self.entries@, i as int);
                }
                Some(self.entries[i].amount)
            },
            None => None,
        }
    }

    /// Records `amount` as the whole of what `addr` has deposited.
    pub fn set(&mut self, addr: String, amount: u128)
        ensures
            final(self)@ == old(self)@.insert(addr@, amount as nat),
    {
        proof {
            use_type_invariant(&*self);
        }
        let ghost before = self.entries@;
        let at = self.position(&addr);
        let mut entries: Vec<Entry> = Vec::new();
        std::mem::swap(&mut entries, &mut self.entries);
        match at {
            Some(i) => {
                entries.set(i, Entry { addr, amount });
                proof {
                    lemma_entries_map_update(before, i as int, entries@[i as int]);
                }
            },
            None => {
                entries.push(Entry { addr, amount });
                proof {
                    lemma_entries_map_push(before, entries@.last());
                }
            },
        }
        std::mem::swap(&mut entries, &mut self.entries);
    }
}

/// In a sequence of distinct entries, each entry is what the map holds for
/// its address.
proof fn lemma_entries_map_at(entries: Seq<Entry>, i: int)
    requires
        distinct(entries),
        0 <= i < entries.len(),
    ensures
        entries_map(entries).contains_key(entries[i].addr@),
        entries_map(entries)[entries[i].addr@] == entries[i].amount,
{
    let addr = entries[i].addr@;
    assert(holds_at(entries, addr, i));
    let c = choose|j: int| holds_at(entries, addr, j);
    assert(holds_at(entries, addr, c));
    assert(c == i);
}

/// Replacing an entry by one of the same address changes the map at that
/// address only.
proof fn lemma_entries_map_update(entries: Seq<Entry>, i: int, entry: Entry)
    requires
        distinct(entries),
        0 <= i < entries.len(),
        entry.addr@ == entries[i].addr@,
    ensures
        distinct(entries.update(i, entry)),
        entries_map(entries.update(i, entry)) == entries_map(entries).insert(
            entry.addr@,
            entry.amount as nat,
        ),
{
    let after = entries.update(i, entry);
    assert forall|a: int, b: int| 0 <= a < b < after.len() implies #[trigger] after[a].addr@
        != #[trigger] after[b].addr@ by {
        assert(after[a].addr@ == entries[a].addr@);
        assert(after[b].addr@ == entries[b].addr@);
    }
    let expected = entries_map(entries).insert(entry.addr@, entry.amount as nat);
    assert forall|addr: Seq<char>| entries_map(after).contains_key(addr) <==> expected.contains_key(
        addr,
    ) by {
        if entries_map(after).contains_key(addr) {
            let j = choose|j: int| holds_at(after, addr, j);
            assert(holds_at(entries, addr, j));
        }
        if expected.contains_key(addr) {
            if addr == entry.addr@ {
                assert(holds_at(after, addr, i));
            } else {
                let j = choose|j: int| holds_at(entries, addr, j);
                assert(holds_at(after, addr, j));
            }
        }
    }
    assert forall|addr: Seq<char>| entries_map(after).contains_key(addr) implies entries_map(
        after,
    )[addr] == expected[addr] by {
        let j = choose|j: int| holds_at(after, addr, j);
        lemma_entries_map_at(after, j);
        if j != i {
            lemma_entries_map_at(entries, j);
        }
    }
    assert(entries_map(after) =~= expected);
}

/// Appending an entry with a new address adds that address to the map.
proof fn lemma_entries_map_push(entries: Seq<Entry>, entry: Entry)
    requires
        distinct(entries),
        forall|i: int| !holds_at(entries, entry.addr@, i),
    ensures
        distinct(entries.push(entry)),
        entries_map(entries.push(entry)) == entries_map(entries).insert(
            entry.addr@,
            entry.amount as nat,
        ),
{
    let after = entries.push(entry);
    let last = entries.len() as int;
    assert forall|a: int, b: int| 0 <= a < b < after.len() implies #[trigger] after[a].addr@
        != #[trigger] after[b].addr@ by {
        if b == last {
            assert(!holds_at(entries, entry.addr@, a));
        }
    }
    let expected = entries_map(entries).insert(entry.addr@, entry.amount as nat);
    assert forall|addr: Seq<char>| entries_map(after).contains_key(addr) <==> expected.contains_key(
        addr,
    ) by {
        if entries_map(after).contains_key(addr) {
            let j = choose|j: int| holds_at(after, addr, j);
            if j != last {
                assert(holds_at(entries, addr, j));
            }
        }
        if expected.contains_key(addr) {
            if addr == entry.addr@ {
                assert(holds_at(after, addr, last));
            } else {
                let j = choose|j: int| holds_at(entries, addr, j);
                assert(holds_at(after, addr, j));
            }
        }
    }
    assert forall|addr: Seq<char>| entries_map(after).contains_key(addr) implies entries_map(
        after,
    )[addr] == expected[addr] by {
        let j = choose|j: int| holds_at(after, addr, j);
        lemma_entries_map_at(after, j);
        if j != last {
            lemma_entries_map_at(entries, j);
        }
    }
    assert(entries_map(after) =~= expected);
}

} // verus!
