//! A finite set of grid cells `(x, z)`, kept as a duplicate-free vector.
use vstd::prelude::*;

verus! {

/// A set of grid cells. Iteration order is the order of first insertion.
#[derive(Debug)]
pub struct CellSet {
    items: Vec<(i32, i32)>,
}

impl View for CellSet {
    type V = Set<(i32, i32)>;

    closed spec fn view(&self) -> Set<(i32, i32)> {
        self.items@.to_set()
    }
}

impl CellSet {
    #[verifier::type_invariant]
    closed spec fn well_formed(self) -> bool {
        self.items@.no_duplicates()
    }

    /// The cells in insertion order.
    pub closed spec fn seq(&self) -> Seq<(i32, i32)> {
        self.items@
    }

    /// An empty cell set.
    pub fn new() -> (r: CellSet)
        ensures
            r@ == Set::<(i32, i32)>::empty(),
            r.seq() == Seq::<(i32, i32)>::empty(),
    {
        let r = CellSet { items: Vec::new() };
        proof {
            assert(r.items@.to_set() =~= Set::<(i32, i32)>::empty());
        }
        r
    }

    /// Whether the cell belongs to the set.
    pub fn contains(&self, cell: &(i32, i32)) -> (r: bool)
        ensures
            r == self@.contains(*cell),
    {
        let n = self.items.len();
        let mut i: usize = 0;
        while i < n
            invariant
                n == self.items@.len(),
                0 <= i <= n,
                forall|j: int| 0 <= j < i ==> self.items@[j] != *cell,
            decreases n - i,
        {
            if self.items[i].0 == cell.0 && self.items[i].1 == cell.1 {
                proof {
                    assert(self.items@.contains(*cell));
                }
                return true;
            }
            i = i + 1;
        }
        proof {
            assert(!self.items@.contains(*cell));
        }
        false
    }

    /// Add a cell; returns whether it was not yet present.
    pub fn insert(&mut self, cell: (i32, i32)) -> (r: bool)
        ensures
            final(self)@ == old(self)@.insert(cell),
            r == !old(self)@.contains(cell),
    {
        proof {
            use_type_invariant(&*self);
        }
        if self.contains(&cell) {
            proof {
                assert(self@.insert(cell) =~= self@);
            }
            false
        } else {
            let ghost before = self.items@;
            let mut items: Vec<(i32, i32)> = Vec::new();
            std::mem::swap(&mut items, &mut self.items);
            items.push(cell);
            proof {
                assert(items@ == before.push(cell));
                before.lemma_push_to_set_commute(cell);
                assert forall|i: int, j: int|
                    0 <= i < items@.len() && 0 <= j < items@.len() && i != j
                    implies items@[i] != items@[j] by {
                    if i == before.len() as int {
                        assert(before.contains(before[j]));
                    } else if j == before.len() as int {
                        assert(before.contains(before[i]));
                    }
                }
            }
            self.items = items;
            true
        }
    }

    /// Number of cells.
    pub fn len(&self) -> (r: usize)
        ensures
            r == self@.len(),
    {
        proof {
            use_type_invariant(self);
            self.items@.unique_seq_to_set();
        }
        self.items.len()
    }

    /// Whether the set holds no cell.
    pub fn is_empty(&self) -> (r: bool)
        ensures
            r == (self@.len() == 0),
    {
        proof {
            use_type_invariant(self);
            self.items@.unique_seq_to_set();
        }
        self.items.len() == 0
    }

    /// Remove every cell.
    pub fn clear(&mut self)
        ensures
            final(self)@ == Set::<(i32, i32)>::empty(),
    {
        self.items = Vec::new();
        proof {
            assert(self.items@.to_set() =~= Set::<(i32, i32)>::empty());
        }
    }

    /// The cell at position `i` of the insertion order.
    pub fn get(&self, i: usize) -> (r: (i32, i32))
        requires
            i < self.seq().len(),
        ensures
            r == self.seq()[i as int],
    {
        self.items[i]
    }

    /// Number of cells in the insertion order (same as `len`), with the facts
    /// that tie the insertion order to the set.
    pub fn count(&self) -> (r: usize)
        ensures
            r == self.seq().len(),
            r == self@.len(),
            self.seq().to_set() == self@,
            self.seq().no_duplicates(),
            self@.finite(),
            forall|c: (i32, i32)| #[trigger] self@.contains(c) <==> self.seq().contains(c),
    {
        proof {
            use_type_invariant(self);
            self.items@.unique_seq_to_set();
            broadcast use vstd::seq_lib::group_seq_properties;
        }
        self.items.len()
    }
}

impl Clone for CellSet {
    fn clone(&self) -> (r: CellSet)
        ensures
            r@ == self@,
            r.seq() == self.seq(),
    {
        proof {
            use_type_invariant(self);
        }
        let n = self.items.len();
        let mut items: Vec<(i32, i32)> = Vec::new();
        let mut i: usize = 0;
        while i < n
            invariant
                n == self.items@.len(),
                0 <= i <= n,
                items@ == self.items@.subrange(0, i as int),
            decreases n - i,
        {
            items.push(self.items[i]);
            i = i + 1;
            proof {
                assert(items@ =~= self.items@.subrange(0, i as int));
            }
        }
        proof {
            assert(items@ =~= self.items@);
        }
        CellSet { items }
    }
}

impl Default for CellSet {
    fn default() -> (r: CellSet)
        ensures
            r@ == Set::<(i32, i32)>::empty(),
    {
        CellSet::new()
    }
}

} // verus!
