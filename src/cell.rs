//! Cells: tree nodes that own one bit cursor and up to four children.
use crate::slice::Slice;
use crate::Error;
use vstd::prelude::*;

verus! {

broadcast use vstd::std_specs::vec::axiom_vec_index_decreases;

/// The most children that a cell may have.
pub const MAX_REFS: usize = 4;

/// A node of a cell tree: a payload of bits and an ordered list of at most four
/// children, each owned outright.
pub struct Cell {
    pub data: Slice,
    refs: Vec<Cell>,
}

/// The depth of the tree rooted at `c`: 1 for a cell without children, else one
/// more than the deepest child.
pub open spec fn level_of(c: Cell) -> nat
    decreases c, 1nat, 0nat,
{
    1 + max_child_level(c, c.children().len())
}

/// The greatest depth among the first `k` children of `c`, or 0 for none.
pub open spec fn max_child_level(c: Cell, k: nat) -> nat
    decreases c, 0nat, k,
{
    if k == 0 || k > c.children().len() {
        0
    } else {
        let rest = max_child_level(c, (k - 1) as nat);
        let last = level_of(c.children()[k - 1]);
        if rest >= last {
            rest
        } else {
            last
        }
    }
}

/// `x`, held at the largest `usize` when it exceeds it.
pub open spec fn saturate(x: nat) -> nat {
    if x <= usize::MAX {
        x
    } else {
        usize::MAX as nat
    }
}

/// A cell without children has level 1.
pub proof fn leaf_level(c: Cell)
    requires
        c.children().len() == 0,
    ensures
        level_of(c) == 1,
{
}

/// A cell is one level deeper than each of its children.
pub proof fn level_exceeds_child(c: Cell, i: int)
    requires
        0 <= i < c.children().len(),
    ensures
        level_of(c) >= level_of(c.children()[i]) + 1,
{
    max_child_level_bounds(c, c.children().len(), i);
}

proof fn max_child_level_bounds(c: Cell, k: nat, i: int)
    requires
        0 <= i < k <= c.children().len(),
    ensures
        max_child_level(c, k) >= level_of(c.children()[i]),
    decreases k,
{
    if i < k - 1 {
        max_child_level_bounds(c, (k - 1) as nat, i);
    }
}

impl Cell {
    #[verifier::type_invariant]
    closed spec fn inv(&self) -> bool {
        self.refs.len() <= MAX_REFS
    }

    /// The bit cursor that this cell holds.
    pub closed spec fn payload(&self) -> Slice {
        self.data
    }

    /// The children, in the order in which they were attached.
    pub closed spec fn children(&self) -> Seq<Cell> {
        self.refs@
    }

    /// A cell holding `data` and no children; never refused.
    pub fn new(data: Slice) -> (r: Result<Cell, Error>)
        ensures
            r matches Ok(c) && c.payload() == data && c.children() == Seq::<Cell>::empty(),
    {
        Ok(Cell { data, refs: Vec::new() })
    }

    /// The number of children.
    pub fn ref_len(&self) -> (r: u8)
        ensures
            r as int == self.children().len(),
            r <= 4,
    {
        proof {
            use_type_invariant(self);
        }
        self.refs.len() as u8
    }

    /// Attaches `other` as the next child; refused, with nothing changed, when
    /// four children are already attached.
    pub fn store_ref(&mut self, other: Cell) -> (r: Result<(), Error>)
        ensures
            match r {
                Ok(_) => {
                    &&& old(self).children().len() < 4
                    &&& final(self).children() == old(self).children().push(other)
                    &&& final(self).payload() == old(self).payload()
                },
                Err(e) => {
                    &&& old(self).children().len() >= 4
                    &&& e == Error::TooManyChildren
                    &&& *final(self) == *old(self)
                },
            },
    {
        if self.ref_len() >= MAX_REFS as u8 {
            return Err(Error::TooManyChildren);
        }
        let mut refs: Vec<Cell> = Vec::new();
        std::mem::swap(&mut self.refs, &mut refs);
        refs.push(other);
        std::mem::swap(&mut self.refs, &mut refs);
        Ok(())
    }

    /// The children, in the order in which they were attached.
    pub fn get_refs(&self) -> (r: &Vec<Cell>)
        ensures
            r@ == self.children(),
    {
        &self.refs
    }

    /// The depth of the tree rooted here, counting this cell as 1, held at the
    /// largest `usize` should it ever exceed it.
    pub fn level(&self) -> (r: usize)
        ensures
            r as nat == saturate(level_of(*self)),
        decreases self,
    {
        let mut deepest: usize = 0;
        let mut i: usize = 0;
        while i < self.refs.len()
            invariant
                i <= self.refs@.len(),
                deepest as nat == saturate(max_child_level(*self, i as nat)),
            decreases self.refs@.len() - i,
        {
            let l = self.refs[i].level();
            if l > deepest {
                deepest = l;
            }
            i = i + 1;
        }
        if deepest == usize::MAX {
            deepest
        } else {
            deepest + 1
        }
    }
}

} // verus!
