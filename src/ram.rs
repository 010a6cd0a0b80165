//! Flat byte stores.
use vstd::prelude::*;

verus! {

/// A vector of `len` copies of `b`.
pub fn filled(len: usize, b: u8) -> (r: Vec<u8>)
    ensures
        r@ == Seq::new(len as nat, |_i: int| b),
{
    let mut r: Vec<u8> = Vec::new();
    let mut i: usize = 0;
    while i < len
        invariant
            i <= len,
            r@ == Seq::new(i as nat, |_i: int| b),
        decreases len - i,
    {
        r.push(b);
        i = i + 1;
        assert(r@ =~= Seq::new(i as nat, |_i: int| b));
    }
    r
}

/// Overwrites every byte of `v` with `b`.
pub fn fill(v: &mut Vec<u8>, b: u8)
    ensures
        final(v)@ == Seq::new(old(v)@.len(), |_i: int| b),
{
    let mut i: usize = 0;
    let ghost len = v@.len();
    while i < v.len()
        invariant
            v@.len() == len,
            i <= len,
            forall|j: int| 0 <= j < i ==> v@[j] == b,
        decreases len - i,
    {
        v.set(i, b);
        i = i + 1;
    }
    assert(v@ =~= Seq::new(len, |_i: int| b));
}

/// A fixed-size byte store.
pub struct Ram {
    data: Vec<u8>,
}

impl View for Ram {
    type V = Seq<u8>;

    closed spec fn view(&self) -> Seq<u8> {
        self.data@
    }
}

impl Ram {
    /// Creates a store of `size` zero bytes.
    pub fn new(size: usize) -> (r: Ram)
        ensures
            r@ == Seq::new(size as nat, |_i: int| 0u8),
    {
        Ram { data: filled(size, 0) }
    }

    /// Refills the store with zeros.
    pub fn reset(&mut self)
        ensures
            final(self)@ == Seq::new(old(self)@.len(), |_i: int| 0u8),
    {
        fill(&mut self.data, 0);
    }

    /// Byte at `off`.
    pub fn byte(&self, off: u16) -> (r: u8)
        requires
            off < self@.len(),
        ensures
            r == self@[off as int],
    {
        self.data[off as usize]
    }

    /// Stores `val` at `off`.
    pub fn set_byte(&mut self, off: u16, val: u8)
        requires
            off < old(self)@.len(),
        ensures
            final(self)@ == old(self)@.update(off as int, val),
    {
        self.data.set(off as usize, val);
    }
}

} // verus!
