//! A single-owner block of elements that crosses the client library boundary, and the
//! byte-string codec over it. The block is released once, when its owner drops it; it
//! is never shared or copied implicitly.

use vstd::prelude::*;
use crate::cstr::{cstr_bytes, has_nul, holds_cstr};

verus! {

/// A block of elements with exactly one owner.
pub struct CBox<T> {
    block: Vec<T>,
}

impl<T> View for CBox<T> {
    type V = Seq<T>;

    closed spec fn view(&self) -> Seq<T> {
        self.block@
    }
}

impl<T: Copy> CBox<T> {
    /// A block of `size` elements, each set to `fill`.
    pub fn new(size: usize, fill: T) -> (r: Self)
        ensures
            r@ == Seq::new(size as nat, |_i: int| fill),
    {
        let mut block: Vec<T> = Vec::new();
        let mut i: usize = 0;
        while i < size
            invariant
                i <= size,
                block@ == Seq::new(i as nat, |_i: int| fill),
            decreases size - i,
        {
            block.push(fill);
            i = i + 1;
            assert(block@ =~= Seq::new(i as nat, |_i: int| fill));
        }
        CBox { block }
    }

    /// A block holding a copy of the elements of `var`.
    pub fn from_raw(var: &[T]) -> (r: Self)
        ensures
            r@ == var@,
    {
        let mut block: Vec<T> = Vec::new();
        let mut i: usize = 0;
        while i < var.len()
            invariant
                i <= var@.len(),
                block@ == var@.subrange(0, i as int),
            decreases var@.len() - i,
        {
            block.push(var[i]);
            i = i + 1;
            assert(block@ =~= var@.subrange(0, i as int));
        }
        assert(var@.subrange(0, var@.len() as int) =~= var@);
        CBox { block }
    }

    /// The element at `index`.
    pub fn index(&self, index: usize) -> (r: T)
        requires
            index < self@.len(),
        ensures
            r == self@[index as int],
    {
        self.block[index]
    }

    /// Sets the element at `index` to `value`.
    pub fn set(&mut self, index: usize, value: T)
        requires
            index < old(self)@.len(),
        ensures
            final(self)@ == old(self)@.update(index as int, value),
    {
        self.block.set(index, value);
    }
}

impl<T> CBox<T> {
    /// A block that takes ownership of `var`.
    pub fn from_raw_mut(var: Vec<T>) -> (r: Self)
        ensures
            r@ == var@,
    {
        CBox { block: var }
    }

    /// The elements of the block, borrowed.
    pub fn get_raw(&self) -> (r: &[T])
        ensures
            r@ == self@,
    {
        self.block.as_slice()
    }

    /// The elements of the block, handing ownership back.
    pub fn get_raw_mut(self) -> (r: Vec<T>)
        ensures
            r@ == self@,
    {
        self.block
    }
}

/// Reads the text of the NUL-terminated byte sequence a block holds.
pub fn from_cstr(str_in: &CBox<u8>) -> (r: String)
    requires
        has_nul(str_in@),
    ensures
        holds_cstr(str_in@, r@),
{
    crate::cstr::from_cstr(str_in.get_raw())
}

/// Encodes text into a new block: its bytes, then a terminating zero byte. The caller
/// owns the block.
pub fn to_cstr(str_in: &str) -> (r: CBox<u8>)
    ensures
        r@ == cstr_bytes(str_in),
{
    CBox::from_raw_mut(crate::cstr::to_cstr(str_in))
}

} // verus!
