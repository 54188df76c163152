//! A small bounded memory map for early boot.

use vstd::prelude::*;

verus! {

#[derive(Copy, Clone, Debug, PartialEq, Eq, Structural)]
pub enum MemoryRegionType {
    Usable,
    Reserved,
    Acpi,
    Nvs,
    Bad,
}

#[derive(Copy, Clone, Debug)]
pub struct MemoryRegion {
    pub base: u64,
    pub length: u64,
    pub region_type: MemoryRegionType,
}

impl MemoryRegion {
    pub fn new(base: u64, length: u64, region_type: MemoryRegionType) -> (r: Self)
        ensures
            r.base == base,
            r.length == length,
            r.region_type == region_type,
    {
        MemoryRegion { base, length, region_type }
    }
}

/// Why a region could not be added.
#[derive(Copy, Clone, Debug, PartialEq, Eq, Structural)]
pub enum MemoryMapError {
    /// The map already holds `MAX_REGIONS` regions.
    Full,
}

impl MemoryMapError {
    pub fn message(&self) -> (r: &'static str)
        ensures
            r@ == "memory map full"@,
    {
        "memory map full"
    }
}

/// Number of regions a map can hold.
pub const MAX_REGIONS: usize = 32;

/// Memory map of at most `MAX_REGIONS` regions, in the order in which they
/// were added.
pub struct MemoryMap {
    regions: [Option<MemoryRegion>; 32],
    count: usize,
}

impl View for MemoryMap {
    type V = Seq<MemoryRegion>;

    closed spec fn view(&self) -> Seq<MemoryRegion> {
        Seq::new(self.count as nat, |i: int| self.regions[i].unwrap())
    }
}

impl MemoryMap {
    #[verifier::type_invariant]
    spec fn inv(self) -> bool {
        &&& self.count <= MAX_REGIONS
        &&& forall|i: int| 0 <= i < self.count ==> self.regions[i] is Some
    }

    pub fn new() -> (r: Self)
        ensures
            r@ == Seq::<MemoryRegion>::empty(),
    {
        let r = MemoryMap { regions: [None; 32], count: 0 };
        assert(r@ =~= Seq::<MemoryRegion>::empty());
        r
    }

    /// Adds a region at the end; a full map refuses it and stays as it is.
    pub fn add_region(&mut self, r: MemoryRegion) -> (res: Result<(), MemoryMapError>)
        ensures
            old(self)@.len() < MAX_REGIONS ==> res is Ok && final(self)@ == old(self)@.push(r),
            old(self)@.len() >= MAX_REGIONS ==> res == Err::<(), MemoryMapError>(
                MemoryMapError::Full,
            ) && final(self)@ == old(self)@,
    {
        proof {
            use_type_invariant(&*self);
        }
        if self.count >= MAX_REGIONS {
            return Err(MemoryMapError::Full);
        }
        self.regions[self.count] = Some(r);
        self.count = self.count + 1;
        assert(self@ =~= old(self)@.push(r));
        Ok(())
    }

    /// Number of regions in the map.
    pub fn len(&self) -> (r: usize)
        ensures
            r == self@.len(),
            r <= MAX_REGIONS,
    {
        proof {
            use_type_invariant(self);
        }
        self.count
    }

    /// The region at position `i`.
    pub fn region(&self, i: usize) -> (r: MemoryRegion)
        requires
            i < self@.len(),
        ensures
            r == self@[i as int],
    {
        proof {
            use_type_invariant(self);
        }
        match self.regions[i] {
            Some(r) => r,
            None => MemoryRegion { base: 0, length: 0, region_type: MemoryRegionType::Reserved },
        }
    }

    /// The region at position `i`, if there is one.
    pub fn get(&self, i: usize) -> (r: Option<MemoryRegion>)
        ensures
            r == (if i < self@.len() { Some(self@[i as int]) } else { None }),
    {
        proof {
            use_type_invariant(self);
        }
        if i < self.count {
            self.regions[i]
        } else {
            None
        }
    }

    /// A walk over the regions, front to back.
    pub fn iter(&self) -> (r: MemoryMapIter<'_>)
        ensures
            r.remaining() == self@,
    {
        let r = MemoryMapIter { map: self, idx: 0 };
        proof {
            use_type_invariant(self);
            assert(r.remaining() =~= self@);
        }
        r
    }
}

/// A walk over the regions of a map, front to back.
pub struct MemoryMapIter<'a> {
    map: &'a MemoryMap,
    idx: usize,
}

impl<'a> MemoryMapIter<'a> {
    /// The regions that are still to come.
    pub closed spec fn remaining(&self) -> Seq<MemoryRegion> {
        if self.idx <= self.map@.len() {
            self.map@.skip(self.idx as int)
        } else {
            Seq::empty()
        }
    }

    /// The next region, or `None` at the end.
    pub fn next(&mut self) -> (r: Option<MemoryRegion>)
        ensures
            old(self).remaining().len() == 0 ==> r is None && final(self).remaining()
                == old(self).remaining(),
            old(self).remaining().len() > 0 ==> r == Some(old(self).remaining()[0])
                && final(self).remaining() == old(self).remaining().skip(1),
    {
        if self.idx < self.map.len() {
            let r = self.map.region(self.idx);
            self.idx = self.idx + 1;
            proof {
                assert(self.remaining() =~= old(self).remaining().skip(1));
            }
            Some(r)
        } else {
            None
        }
    }
}

/// Those of the first `n` of `entries` that are usable, or those that are
/// not, in their order.
pub open spec fn chosen(entries: Seq<MemoryRegion>, n: int, usable: bool) -> Seq<MemoryRegion>
    decreases n,
{
    if n <= 0 {
        Seq::empty()
    } else if (entries[n - 1].region_type == MemoryRegionType::Usable) == usable {
        chosen(entries, n - 1, usable).push(entries[n - 1])
    } else {
        chosen(entries, n - 1, usable)
    }
}

/// `entries` with the usable ones in front.
pub open spec fn usable_first(entries: Seq<MemoryRegion>) -> Seq<MemoryRegion> {
    chosen(entries, entries.len() as int, true) + chosen(entries, entries.len() as int, false)
}

/// As many of the first regions of `regions` as a map holds.
pub open spec fn bounded(regions: Seq<MemoryRegion>) -> Seq<MemoryRegion> {
    if regions.len() <= MAX_REGIONS {
        regions
    } else {
        regions.subrange(0, MAX_REGIONS as int)
    }
}

/// Adds those of `entries` that are usable, or those that are not, to
/// `map`, as far as there is room.
fn add_chosen(map: &mut MemoryMap, entries: &[MemoryRegion], usable: bool)
    ensures
        final(map)@ == bounded(old(map)@ + chosen(entries@, entries@.len() as int, usable)),
        old(map)@.len() <= MAX_REGIONS,
{
    let held: usize = map.len();
    assert(held <= MAX_REGIONS);
    assert(map@ =~= bounded(map@ + chosen(entries@, 0, usable)));
    let mut i: usize = 0;
    while i < entries.len()
        invariant
            0 <= i <= entries.len(),
            old(map)@.len() <= MAX_REGIONS,
            map@ == bounded(old(map)@ + chosen(entries@, i as int, usable)),
        decreases entries.len() - i,
    {
        let entry = entries[i];
        let ghost before = old(map)@ + chosen(entries@, i as int, usable);
        if (entry.region_type == MemoryRegionType::Usable) == usable {
            let _ = map.add_region(entry);
            assert(map@ =~= bounded(before.push(entry)));
            assert(before.push(entry) =~= old(map)@ + chosen(entries@, i + 1, usable));
        }
        i = i + 1;
    }
}

/// The map of `entries`, the usable ones in front. Where there are more
/// entries than a map holds, the last are left out: others before usable
/// ones.
pub fn from_entries(entries: &[MemoryRegion]) -> (r: MemoryMap)
    ensures
        r@ == bounded(usable_first(entries@)),
{
    let mut map = MemoryMap::new();
    add_chosen(&mut map, entries, true);
    let ghost front = chosen(entries@, entries@.len() as int, true);
    assert(Seq::<MemoryRegion>::empty() + front =~= front);
    add_chosen(&mut map, entries, false);
    let ghost back = chosen(entries@, entries@.len() as int, false);
    assert(bounded(bounded(front) + back) =~= bounded(front + back));
    map
}

} // verus!
