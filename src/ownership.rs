use vstd::prelude::*;

verus! {

/// The owner recorded first for plot (`x`, `z`) in `records`.
pub open spec fn lookup(records: Seq<(i32, i32, u128)>, x: i32, z: i32) -> Option<u128>
    decreases records.len(),
{
    if records.len() == 0 {
        None
    } else if records[0].0 == x && records[0].1 == z {
        Some(records[0].2)
    } else {
        lookup(records.drop_first(), x, z)
    }
}

/// Who owns which plot.
#[derive(Debug)]
pub struct OwnershipRegistry {
    records: Vec<(i32, i32, u128)>,
}

impl OwnershipRegistry {
    /// The owner of plot (`x`, `z`), if any.
    pub closed spec fn owner(&self, x: i32, z: i32) -> Option<u128> {
        lookup(self.records@, x, z)
    }

    /// A registry in which no plot is owned.
    pub fn new() -> (r: OwnershipRegistry)
        ensures
            forall|x: i32, z: i32| r.owner(x, z) is None,
    {
        OwnershipRegistry { records: Vec::new() }
    }

    /// The owner of plot (`x`, `z`), if any.
    pub fn get_owner(&self, x: i32, z: i32) -> (r: Option<u128>)
        ensures
            r == self.owner(x, z),
    {
        let n = self.records.len();
        let mut i: usize = 0;
        assert(self.records@.subrange(0, n as int) =~= self.records@);
        while i < n
            invariant
                n == self.records@.len(),
                i <= n,
                lookup(self.records@, x, z) == lookup(self.records@.subrange(i as int, n as int), x, z),
            decreases n - i,
        {
            let (rx, rz, owner) = self.records[i];
            assert(self.records@.subrange(i as int, n as int).drop_first() =~= self.records@.subrange(
                i as int + 1,
                n as int,
            ));
            if rx == x && rz == z {
                return Some(owner);
            }
            i += 1;
        }
        None
    }

    /// Records `uuid` as the owner of plot (`x`, `z`); other plots keep theirs.
    pub fn claim(&mut self, x: i32, z: i32, uuid: u128)
        ensures
            final(self).owner(x, z) == Some(uuid),
            forall|a: i32, b: i32|
                !(a == x && b == z) ==> final(self).owner(a, b) == old(self).owner(a, b),
    {
        self.records.insert(0, (x, z, uuid));
        assert(self.records@.drop_first() =~= old(self).records@);
    }
}

} // verus!
