//! Snapshots: the readings of one poll cycle, keyed by controller address,
//! and the store that holds the latest one.

use crate::reading::SensorReading;
use crate::text::same_text;
use vstd::prelude::*;

verus! {

/// The readings of one poll cycle: at most one per controller address.
///
/// A snapshot is a finite map from addresses to readings. It is kept as a
/// list in which no address occurs twice.
#[derive(Debug)]
pub struct Snapshot {
    entries: Vec<(String, SensorReading)>,
}

impl View for Snapshot {
    type V = Map<Seq<char>, SensorReading>;

    closed spec fn view(&self) -> Map<Seq<char>, SensorReading> {
        Map::new(
            |address: Seq<char>| self.addresses().contains(address),
            |address: Seq<char>| self.entries@[self.addresses().index_of(address)].1,
        )
    }
}

spec fn addresses_of(entries: Seq<(String, SensorReading)>) -> Seq<Seq<char>> {
    entries.map_values(|entry: (String, SensorReading)| entry.0@)
}

impl Snapshot {
    /// The addresses that have an entry, in the order in which they are kept.
    spec fn addresses(&self) -> Seq<Seq<char>> {
        addresses_of(self.entries@)
    }

    #[verifier::type_invariant]
    closed spec fn distinct(&self) -> bool {
        self.addresses().no_duplicates()
    }

    proof fn lemma_entry(&self, i: int)
        requires
            self.distinct(),
            0 <= i < self.entries@.len(),
        ensures
            self@.contains_key(self.entries@[i].0@),
            self@[self.entries@[i].0@] == self.entries@[i].1,
    {
        let addresses = self.addresses();
        assert(addresses[i] == self.entries@[i].0@);
        let k = addresses.index_of(addresses[i]);
        assert(addresses[k] == addresses[i]);
    }

    /// A snapshot without entries.
    pub fn new() -> (snapshot: Snapshot)
        ensures
            snapshot@ == Map::<Seq<char>, SensorReading>::empty(),
    {
        let snapshot = Snapshot { entries: Vec::new() };
        assert(snapshot@ =~= Map::<Seq<char>, SensorReading>::empty());
        snapshot
    }

    fn position(&self, address: &str) -> (found: Option<usize>)
        ensures
            match found {
                Some(i) => i < self.entries@.len() && self.entries@[i as int].0@ == address@,
                None => !self.addresses().contains(address@),
            },
    {
        let mut i: usize = 0;
        while i < self.entries.len()
            invariant
                i <= self.entries@.len(),
                forall|k: int| 0 <= k < i ==> self.entries@[k].0@ != address@,
            decreases self.entries@.len() - i,
        {
            if same_text(self.entries[i].0.as_str(), address) {
                return Some(i);
            }
            i += 1;
        }
        None
    }

    /// The number of addresses that have an entry.
    pub fn len(&self) -> (n: usize)
        ensures
            self@.dom().finite(),
            n == self@.len(),
    {
        proof {
            use_type_invariant(self);
            let addresses = self.addresses();
            addresses.unique_seq_to_set();
            assert(self@.dom() =~= addresses.to_set());
        }
        self.entries.len()
    }

    /// Whether `address` has an entry.
    pub fn contains(&self, address: &str) -> (present: bool)
        ensures
            present == self@.contains_key(address@),
    {
        match self.position(address) {
            Some(i) => {
                assert(self.addresses()[i as int] == address@);
                true
            },
            None => false,
        }
    }

    /// The reading stored for `address`, if there is one.
    pub fn get(&self, address: &str) -> (reading: Option<SensorReading>)
        ensures
            reading == (if self@.contains_key(address@) {
                Some(self@[address@])
            } else {
                None
            }),
    {
        match self.position(address) {
            Some(i) => {
                proof {
                    use_type_invariant(self);
                    self.lemma_entry(i as int);
                }
                Some(self.entries[i].1)
            },
            None => None,
        }
    }

    /// Stores `reading` for `address`, in place of any reading that the
    /// address had.
    pub fn insert(&mut self, address: String, reading: SensorReading)
        ensures
            final(self)@ == old(self)@.insert(address@, reading),
    {
        proof {
            use_type_invariant(&*self);
        }
        let ghost before = *self;
        let found = self.position(address.as_str());
        let mut entries: Vec<(String, SensorReading)> = Vec::new();
        assert(addresses_of(entries@) =~= Seq::<Seq<char>>::empty());
        std::mem::swap(&mut self.entries, &mut entries);
        match found {
            Some(i) => {
                entries[i].1 = reading;
                assert(addresses_of(entries@) =~= before.addresses());
            },
            None => {
                entries.push((address, reading));
                assert(addresses_of(entries@) =~= before.addresses().push(address@));
            },
        }
        std::mem::swap(&mut self.entries, &mut entries);
        proof {
            let n = before.entries@.len() as int;
            assert forall|a: Seq<char>|
                self@.contains_key(a) <==> before@.insert(address@, reading).contains_key(a) by {
                if before.addresses().contains(a) {
                    let k = before.addresses().index_of(a);
                    assert(self.addresses()[k] == a);
                }
                if a == address@ && found is None {
                    assert(self.addresses()[n] == a);
                }
                if a == address@ && found is Some {
                    assert(before.addresses()[found->Some_0 as int] == a);
                }
            }
            assert forall|a: Seq<char>| self@.contains_key(a) implies #[trigger] self@[a]
                == before@.insert(address@, reading)[a] by {
                let k = self.addresses().index_of(a);
                assert(self.addresses()[k] == a);
                self.lemma_entry(k);
                if k < n {
                    before.lemma_entry(k);
                    assert(before.addresses()[k] == a);
                }
                match found {
                    Some(i) => {
                        assert(before.addresses()[i as int] == address@);
                    },
                    None => {},
                }
            }
            assert(self@ =~= before@.insert(address@, reading));
        }
    }
}

/// What the store holds after a run of installs, applied in order: each
/// install puts its snapshot in place of what was held, and a store that was
/// never written holds the snapshot without entries.
pub open spec fn held_after(installs: Seq<Map<Seq<char>, SensorReading>>) -> Map<
    Seq<char>,
    SensorReading,
>
    decreases installs.len(),
{
    if installs.len() == 0 {
        Map::empty()
    } else {
        replaced(held_after(installs.drop_last()), installs.last())
    }
}

/// What a store holds after `next` is installed over `held`: `next` alone.
pub open spec fn replaced(
    held: Map<Seq<char>, SensorReading>,
    next: Map<Seq<char>, SensorReading>,
) -> Map<Seq<char>, SensorReading> {
    next
}

/// Whatever a reader finds in the store is one whole snapshot, the one that
/// was installed last: an address has an entry in the store exactly if it has
/// one in that snapshot, and with the same reading. No entry of an earlier
/// install is left, and no two installs are ever mixed.
pub proof fn law_store_holds_last_install_whole(
    installs: Seq<Map<Seq<char>, SensorReading>>,
    address: Seq<char>,
)
    requires
        installs.len() > 0,
    ensures
        held_after(installs) == installs.last(),
        held_after(installs).contains_key(address) == installs.last().contains_key(address),
        held_after(installs).contains_key(address) ==> held_after(installs)[address]
            == installs.last()[address],
{
}

/// The slot that holds the latest snapshot.
///
/// The slot is written by replacing its whole content and read by borrowing
/// its whole content; no operation changes a single entry of what it holds.
#[derive(Debug)]
pub struct SnapshotStore {
    current: Snapshot,
}

impl View for SnapshotStore {
    type V = Map<Seq<char>, SensorReading>;

    closed spec fn view(&self) -> Map<Seq<char>, SensorReading> {
        self.current@
    }
}

impl SnapshotStore {
    /// A store that holds the snapshot without entries.
    pub fn new() -> (store: SnapshotStore)
        ensures
            store@ == Map::<Seq<char>, SensorReading>::empty(),
    {
        SnapshotStore { current: Snapshot::new() }
    }

    /// Installs `next` in place of the snapshot held so far, of which nothing
    /// is kept.
    pub fn replace(&mut self, next: Snapshot)
        ensures
            final(self)@ == replaced(old(self)@, next@),
    {
        self.current = next;
    }

    /// The snapshot installed last.
    pub fn current(&self) -> (snapshot: &Snapshot)
        ensures
            snapshot@ == self@,
    {
        &self.current
    }
}

} // verus!
