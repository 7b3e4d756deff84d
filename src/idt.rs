//! The interrupt descriptor table and the pointer that the `lidt`
//! instruction reads.
//!
//! A table starts with every vector missing, gets handlers installed, and
//! is then committed to the processor, which keeps only its address: from
//! then on the table must neither move nor change. The instruction itself is
//! issued by the caller, from the bytes of `to_bytes` and the pointer of
//! `descriptor_pointer`, with the image placed in storage that lives as long
//! as the kernel. A vector whose entry is missing faults when it is raised,
//! and this module cannot prevent that.

use crate::gate::{entry_bytes, present_of, handler_fields, missing_fields, Entry, EntryFields, TypeAttribute};
use crate::selector::{with_index, Selector};
use vstd::prelude::*;

verus! {

/// The number of vectors in the table.
pub const ENTRY_COUNT: usize = 16;

/// The size in bytes of one gate entry.
pub const ENTRY_SIZE: usize = 8;

/// The fields of the entry that `set_handler` installs, with attribute byte
/// `attribute`.
pub open spec fn installed_fields(handler: usize, code_segment: u16, attribute: u8) -> EntryFields {
    EntryFields { attribute, ..handler_fields(with_index(0, code_segment), handler) }
}

/// The bytes of a sequence of gate entries, laid out one after the other
/// with no padding.
pub open spec fn table_bytes(t: Seq<EntryFields>) -> Seq<u8>
    decreases t.len(),
{
    if t.len() == 0 {
        Seq::empty()
    } else {
        table_bytes(t.drop_last()) + entry_bytes(t.last())
    }
}

/// The record read by `lidt`: the table's size in bytes minus one, then its
/// base address.
#[derive(Clone, Copy, Debug)]
pub struct DescriptorTablePointer {
    /// Size of the table in bytes, minus one.
    pub size: u16,
    /// Address of the first entry.
    pub base: usize,
}

impl DescriptorTablePointer {
    /// The pointer for a table of `entry_count` gate entries at `base`.
    pub fn for_entries(entry_count: usize, base: usize) -> (r: Self)
        requires
            1 <= entry_count <= 8192,
        ensures
            r.size == ENTRY_SIZE * entry_count - 1,
            r.base == base,
    {
        DescriptorTablePointer { size: (entry_count * ENTRY_SIZE - 1) as u16, base }
    }
}

/// Interrupt Descriptor Table
pub struct InterruptDescriptorTable([Entry; 16]);

impl View for InterruptDescriptorTable {
    type V = Seq<EntryFields>;

    closed spec fn view(&self) -> Seq<EntryFields> {
        self.0@.map_values(|e: Entry| e@)
    }
}

impl InterruptDescriptorTable {
    /// A table whose entries are all missing.
    pub fn new() -> (r: Self)
        ensures
            r@ == Seq::new(ENTRY_COUNT as nat, |i: int| missing_fields()),
    {
        let t = InterruptDescriptorTable([Entry::missing(); 16]);
        assert(t@ =~= Seq::new(ENTRY_COUNT as nat, |i: int| missing_fields()));
        t
    }

    /// Installs the handler at address `handler` at vector `entry_index`,
    /// reached through the selector whose index is `code_segment`, in place
    /// of what was there. Returns the new entry's attribute byte, which
    /// starts as the default one, for further configuration.
    pub fn set_handler(&mut self, entry_index: u8, handler: usize, code_segment: u16) -> (r:
        &mut TypeAttribute)
        requires
            entry_index < ENTRY_COUNT,
            code_segment <= 8191,
        ensures
            (*r)@ == 0,
            final(self)@ == old(self)@.update(
                entry_index as int,
                installed_fields(handler, code_segment, final(r)@),
            ),
    {
        let selector = Selector::new().set_index(code_segment);
        let i = entry_index as usize;
        self.0[i] = Entry::new(selector, handler);
        self.0[i].type_attribute_mut()
    }

    /// The entry at vector `index`.
    pub fn entry(&self, index: usize) -> (r: Entry)
        requires
            index < ENTRY_COUNT,
        ensures
            r@ == self@[index as int],
    {
        self.0[index]
    }

    /// The image of the table that the processor reads: the entries' bytes
    /// in vector order.
    pub fn to_bytes(&self) -> (r: Vec<u8>)
        ensures
            r@ == table_bytes(self@),
            r@.len() == ENTRY_SIZE * ENTRY_COUNT,
    {
        let mut r: Vec<u8> = Vec::new();
        let mut i: usize = 0;
        while i < ENTRY_COUNT
            invariant
                i <= ENTRY_COUNT,
                r@ == table_bytes(self@.take(i as int)),
                r@.len() == ENTRY_SIZE * i,
            decreases ENTRY_COUNT - i,
        {
            let b = self.0[i].to_bytes();
            let mut j: usize = 0;
            while j < ENTRY_SIZE
                invariant
                    i < ENTRY_COUNT,
                    j <= ENTRY_SIZE,
                    b@ == entry_bytes(self@[i as int]),
                    r@ == table_bytes(self@.take(i as int)) + b@.take(j as int),
                    r@.len() == ENTRY_SIZE * i + j,
                decreases ENTRY_SIZE - j,
            {
                r.push(b[j]);
                assert(b@.take(j as int + 1) =~= b@.take(j as int).push(b@[j as int]));
                j = j + 1;
            }
            assert(self@.take(i as int + 1).drop_last() =~= self@.take(i as int));
            assert(b@.take(8) =~= b@);
            i = i + 1;
        }
        assert(self@.take(ENTRY_COUNT as int) =~= self@);
        r
    }

    /// The pointer that commits this table to the processor once its bytes
    /// lie at `base`.
    pub fn descriptor_pointer(&self, base: usize) -> (r: DescriptorTablePointer)
        ensures
            r.size == ENTRY_SIZE * ENTRY_COUNT - 1,
            r.base == base,
    {
        DescriptorTablePointer::for_entries(ENTRY_COUNT, base)
    }
}

/// In a freshly made table every entry has its present bit clear and a
/// zero selector and offset.
pub proof fn lemma_fresh_table_all_missing(t: Seq<EntryFields>)
    requires
        t == Seq::new(ENTRY_COUNT as nat, |i: int| missing_fields()),
    ensures
        forall|i: int|
            0 <= i < ENTRY_COUNT ==> {
                &&& present_of(#[trigger] t[i].attribute) == 0
                &&& t[i].selector == 0
                &&& t[i].offset_lower == 0
                &&& t[i].offset_higher == 0
                &&& t[i].zero == 0
            },
{
    assert(present_of(0) == 0) by (bit_vector);
}

/// Installing a handler twice at the same vector leaves only the second
/// installation's entry there, and the other vectors as they were.
pub proof fn lemma_set_handler_overwrites(
    t: Seq<EntryFields>,
    index: int,
    first: usize,
    first_segment: u16,
    first_attribute: u8,
    second: usize,
    second_segment: u16,
    second_attribute: u8,
)
    requires
        0 <= index < t.len(),
    ensures
        t.update(index, installed_fields(first, first_segment, first_attribute)).update(
            index,
            installed_fields(second, second_segment, second_attribute),
        ) == t.update(index, installed_fields(second, second_segment, second_attribute)),
{
    assert(t.update(index, installed_fields(first, first_segment, first_attribute)).update(
        index,
        installed_fields(second, second_segment, second_attribute),
    ) =~= t.update(index, installed_fields(second, second_segment, second_attribute)));
}

} // verus!
