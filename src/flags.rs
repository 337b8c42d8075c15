//! The fixed-size container that stores flags as packed bits.
use vstd::prelude::*;

use crate::bits::{has_bit, with_bit_cleared, with_bit_set, zeroed};
use crate::flag::Flag;
use crate::render::{push_binary, rendered};

verus! {

/// A set of flags stored one bit per flag in `SIZE` bytes.
///
/// Flag `i` lives in byte `i / 8` at bit `i % 8`. A flag whose byte lies past
/// the end of the buffer is never stored: raising or lowering it does
/// nothing, and it is always reported absent.
#[derive(Clone, Copy)]
pub struct Flags<const SIZE: usize> {
    _data: [u8; SIZE],
}

impl<const SIZE: usize> View for Flags<SIZE> {
    type V = Seq<u8>;

    closed spec fn view(&self) -> Seq<u8> {
        self._data@
    }
}

impl<const SIZE: usize> Default for Flags<SIZE> {
    /// An empty set: every byte is zero.
    fn default() -> (r: Self)
        ensures
            r@ == zeroed(SIZE as nat),
    {
        let data = [0u8; SIZE];
        let r = Self { _data: data };
        assert(r@ =~= zeroed(SIZE as nat));
        r
    }
}

impl<const SIZE: usize> Flags<SIZE> {
    /// The buffer always holds exactly `SIZE` bytes.
    pub proof fn lemma_len(&self)
        ensures
            self@.len() == SIZE,
    {
    }

    /// Raises the bit of `flag`; a flag past the end of the buffer is ignored.
    pub fn add_flag<T: Flag + Default + Copy>(&mut self, flag: T)
        ensures
            final(self)@ == with_bit_set(old(self)@, flag.flag_index() as int),
    {
        let u_flag = flag.into_usize();
        let chunk = u_flag / 8;
        if chunk < SIZE {
            let bit = (u_flag % 8) as u8;
            let byte = self._data[chunk];
            self._data[chunk] = byte | (1u8 << bit);
            assert(self@ =~= with_bit_set(old(self)@, u_flag as int));
        }
    }

    /// Reports whether the bit of `flag` is raised; a flag past the end of
    /// the buffer is absent.
    pub fn has_flag<T: Flag + Default + Copy>(&self, flag: T) -> (r: bool)
        ensures
            r == has_bit(self@, flag.flag_index() as int),
    {
        let u_flag = flag.into_usize();
        let chunk = u_flag / 8;
        if chunk < SIZE {
            let bit = (u_flag % 8) as u8;
            let mask = 1u8 << bit;
            self._data[chunk] & mask == mask
        } else {
            false
        }
    }

    /// Lowers the bit of `flag`; a flag past the end of the buffer is ignored.
    pub fn remove_flag<T: Flag + Default + Copy>(&mut self, flag: T)
        ensures
            final(self)@ == with_bit_cleared(old(self)@, flag.flag_index() as int),
    {
        let u_flag = flag.into_usize();
        let chunk = u_flag / 8;
        if chunk < SIZE {
            let bit = (u_flag % 8) as u8;
            let byte = self._data[chunk];
            self._data[chunk] = byte & !(1u8 << bit);
            assert(self@ =~= with_bit_cleared(old(self)@, u_flag as int));
        }
    }

    /// The raw contents as text: each byte in binary without leading zeros,
    /// in order, so that a byte of value 1 gives "1" and one of value 255
    /// gives "11111111".
    pub fn to_bit_string(&self) -> (r: String)
        ensures
            r@ == rendered(self@),
    {
        let mut res = String::new();
        let mut i: usize = 0;
        while i < SIZE
            invariant
                i <= SIZE,
                self@.len() == SIZE,
                res@ == rendered(self@.take(i as int)),
            decreases SIZE - i,
        {
            push_binary(&mut res, self._data[i]);
            assert(self@.take(i + 1).drop_last() =~= self@.take(i as int));
            i = i + 1;
        }
        assert(self@.take(SIZE as int) =~= self@);
        res
    }
}

} // verus!
