//! Segment selectors.
//!
//! ```text
//! 15 ... 3   2   1  0
//! +-------+----+--+--+
//! | Index | TI | RPL |
//! +-------+----+--+--+
//! ```
//!
//! `RPL` is the requested privilege level (0 is the most privileged, 3 the
//! least), `TI` picks the descriptor table (0: global, 1: local) and `Index`
//! is the position of a descriptor in that table.

use crate::bits::{field16, max16, set_bit16, set_bits16, with_field16};
use vstd::prelude::*;

verus! {

/// Which descriptor table a selector points into.
#[derive(Clone, Copy, Debug, PartialEq, Eq, Structural)]
pub enum TableIndex {
    /// Global Descriptor Table
    Gdt,
    /// Local Descriptor Table
    Ldt,
}

/// The value of the table indicator bit for a table.
pub open spec fn table_bit(t: TableIndex) -> u16 {
    match t {
        TableIndex::Gdt => 0,
        TableIndex::Ldt => 1,
    }
}

/// A 16-bit segment selector, built only through its setters.
#[derive(Clone, Copy, Debug)]
pub struct Selector(u16);

impl View for Selector {
    type V = u16;

    closed spec fn view(&self) -> u16 {
        self.0
    }
}

/// The requested privilege level held in a selector word.
pub open spec fn rpl_of(s: u16) -> u16 {
    field16(s, 0, 1)
}

/// The table indicator bit held in a selector word.
pub open spec fn ti_of(s: u16) -> u16 {
    field16(s, 2, 2)
}

/// The descriptor index held in a selector word.
pub open spec fn index_of(s: u16) -> u16 {
    field16(s, 3, 15)
}

/// A selector word with its requested privilege level replaced.
pub open spec fn with_rpl(s: u16, rpl: u16) -> u16 {
    with_field16(s, 0, 1, rpl)
}

/// A selector word with its table indicator replaced.
pub open spec fn with_table(s: u16, t: TableIndex) -> u16 {
    with_field16(s, 2, 2, table_bit(t))
}

/// A selector word with its descriptor index replaced.
pub open spec fn with_index(s: u16, index: u16) -> u16 {
    with_field16(s, 3, 15, index)
}

impl Selector {
    /// The null selector: index 0 of the global table, privilege level 0.
    pub fn new() -> (r: Self)
        ensures
            r@ == 0,
    {
        Selector(0)
    }

    /// Sets the requested privilege level; the other bits are kept.
    pub fn set_rpl(self, rpl: u8) -> (r: Self)
        requires
            rpl <= 3,
        ensures
            r@ == with_rpl(self@, rpl as u16),
    {
        assert(max16(2) == 3) by (bit_vector);
        Selector(set_bits16(self.0, 0, 1, rpl as u16))
    }

    /// Sets the table indicator; the other bits are kept.
    pub fn set_table_index(self, table_index: TableIndex) -> (r: Self)
        ensures
            r@ == with_table(self@, table_index),
    {
        Selector(set_bit16(self.0, 2, table_index == TableIndex::Ldt))
    }

    /// Sets the descriptor index; the other bits are kept.
    pub fn set_index(self, index: u16) -> (r: Self)
        requires
            index <= 8191,
        ensures
            r@ == with_index(self@, index),
    {
        assert(max16(13) == 8191) by (bit_vector);
        Selector(set_bits16(self.0, 3, 15, index))
    }

    /// The selector as the 16-bit word the processor reads.
    pub fn bits(&self) -> (r: u16)
        ensures
            r == self@,
    {
        self.0
    }

    /// The requested privilege level.
    pub fn rpl(&self) -> (r: u8)
        ensures
            r as u16 == rpl_of(self@),
    {
        let x = self.0;
        let r = x & 3;
        assert(r == field16(x, 0, 1) && r <= 3) by (bit_vector)
            requires
                r == x & 3,
        ;
        r as u8
    }

    /// The descriptor table the selector points into.
    pub fn table_index(&self) -> (r: TableIndex)
        ensures
            table_bit(r) == ti_of(self@),
    {
        let x = self.0;
        let b = (x >> 2) & 1;
        assert(b == ti_of(x) && b <= 1) by (bit_vector)
            requires
                b == (x >> 2) & 1,
        ;
        if b == 1 {
            TableIndex::Ldt
        } else {
            TableIndex::Gdt
        }
    }

    /// The descriptor index.
    pub fn index(&self) -> (r: u16)
        ensures
            r == index_of(self@),
    {
        let x = self.0;
        let r = x >> 3;
        assert(r == index_of(x)) by (bit_vector)
            requires
                r == x >> 3,
        ;
        r
    }
}

/// Each setter writes its own field and leaves the other two as they were.
pub proof fn lemma_setters_independent(s: u16, rpl: u16, t: TableIndex, index: u16)
    requires
        rpl <= 3,
        index <= 8191,
    ensures
        rpl_of(with_rpl(s, rpl)) == rpl,
        ti_of(with_rpl(s, rpl)) == ti_of(s),
        index_of(with_rpl(s, rpl)) == index_of(s),
        rpl_of(with_table(s, t)) == rpl_of(s),
        ti_of(with_table(s, t)) == table_bit(t),
        index_of(with_table(s, t)) == index_of(s),
        rpl_of(with_index(s, index)) == rpl_of(s),
        ti_of(with_index(s, index)) == ti_of(s),
        index_of(with_index(s, index)) == index,
{
    let b = table_bit(t);
    assert(rpl_of(with_rpl(s, rpl)) == rpl && ti_of(with_rpl(s, rpl)) == ti_of(s) && index_of(
        with_rpl(s, rpl),
    ) == index_of(s)) by (bit_vector)
        requires
            rpl <= 3,
    ;
    assert(rpl_of(with_field16(s, 2, 2, b)) == rpl_of(s) && ti_of(with_field16(s, 2, 2, b)) == b
        && index_of(with_field16(s, 2, 2, b)) == index_of(s)) by (bit_vector)
        requires
            b <= 1,
    ;
    assert(rpl_of(with_index(s, index)) == rpl_of(s) && ti_of(with_index(s, index)) == ti_of(s)
        && index_of(with_index(s, index)) == index) by (bit_vector)
        requires
            index <= 8191,
    ;
}

/// A selector built from the null selector by setting the privilege level,
/// the table and the index, in that order, decodes to exactly those three
/// values.
pub proof fn lemma_selector_round_trip(rpl: u16, t: TableIndex, index: u16)
    requires
        rpl <= 3,
        index <= 8191,
    ensures
        ({
            let s = with_index(with_table(with_rpl(0, rpl), t), index);
            rpl_of(s) == rpl && ti_of(s) == table_bit(t) && index_of(s) == index
        }),
{
    lemma_setters_independent(0, rpl, t, index);
    lemma_setters_independent(with_rpl(0, rpl), rpl, t, index);
    lemma_setters_independent(with_table(with_rpl(0, rpl), t), rpl, t, index);
}

} // verus!
