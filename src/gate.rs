//! Interrupt gate descriptors: the attribute byte and the 8-byte gate entry
//! of 32-bit protected mode.

use crate::bits::{field8, max8, set_bit8, set_bits8, with_field8};
use crate::selector::Selector;
use vstd::prelude::*;

verus! {

/// The kind of a gate, held in the low bits of the attribute byte.
#[derive(Clone, Copy, Debug, PartialEq, Eq, Structural)]
pub enum GateType {
    /// 80386 32-bit task gate
    Task32,
    /// 80286 16-bit interrupt gate
    Interrupt16,
    /// 80286 16-bit trap gate
    Trap16,
    /// 80386 32-bit interrupt gate
    Interrupt32,
    /// 80386 32-bit trap gate
    Trap32,
}

/// The encoding of a gate type.
pub open spec fn gate_bits(g: GateType) -> u8 {
    match g {
        GateType::Task32 => 0b0101,
        GateType::Interrupt16 => 0b0110,
        GateType::Trap16 => 0b0111,
        GateType::Interrupt32 => 0b1110,
        GateType::Trap32 => 0b1111,
    }
}

impl GateType {
    /// The encoding of this gate type.
    pub fn bits(&self) -> (r: u8)
        ensures
            r == gate_bits(*self),
    {
        match self {
            GateType::Task32 => 0b0101,
            GateType::Interrupt16 => 0b0110,
            GateType::Trap16 => 0b0111,
            GateType::Interrupt32 => 0b1110,
            GateType::Trap32 => 0b1111,
        }
    }
}

/// The least privileged caller that may invoke a gate by software.
#[derive(Clone, Copy, Debug, PartialEq, Eq, Structural)]
pub enum DescriptorPrivilageLevel {
    /// Ring 0, typically the kernel.
    High,
    /// Ring 1.
    Medium,
    /// Ring 3, typically userland.
    Low,
}

/// The encoding of a descriptor privilege level.
pub open spec fn dpl_bits(d: DescriptorPrivilageLevel) -> u8 {
    match d {
        DescriptorPrivilageLevel::High => 0b00,
        DescriptorPrivilageLevel::Medium => 0b01,
        DescriptorPrivilageLevel::Low => 0b11,
    }
}

impl DescriptorPrivilageLevel {
    /// The encoding of this privilege level.
    pub fn bits(&self) -> (r: u8)
        ensures
            r == dpl_bits(*self),
    {
        match self {
            DescriptorPrivilageLevel::High => 0b00,
            DescriptorPrivilageLevel::Medium => 0b01,
            DescriptorPrivilageLevel::Low => 0b11,
        }
    }
}

/// The present flag (bit 7) of an attribute byte.
pub open spec fn present_of(a: u8) -> u8 {
    field8(a, 7, 7)
}

/// The descriptor privilege level (bits 5 and 6) of an attribute byte.
pub open spec fn dpl_of(a: u8) -> u8 {
    field8(a, 5, 6)
}

/// The type field (bits 0 to 4; bit 4 is clear for every gate) of an
/// attribute byte.
pub open spec fn gate_of(a: u8) -> u8 {
    field8(a, 0, 4)
}

/// An attribute byte with its present flag replaced.
pub open spec fn with_present(a: u8, present: bool) -> u8 {
    with_field8(a, 7, 7, if present { 1u8 } else { 0u8 })
}

/// An attribute byte with its descriptor privilege level replaced.
pub open spec fn with_dpl(a: u8, d: DescriptorPrivilageLevel) -> u8 {
    with_field8(a, 5, 6, dpl_bits(d))
}

/// An attribute byte with its gate type replaced.
pub open spec fn with_gate(a: u8, g: GateType) -> u8 {
    with_field8(a, 0, 4, gate_bits(g))
}

/// The type and attribute byte of a gate entry.
#[derive(Clone, Copy, Debug)]
pub struct TypeAttribute(u8);

impl View for TypeAttribute {
    type V = u8;

    closed spec fn view(&self) -> u8 {
        self.0
    }
}

impl TypeAttribute {
    /// The default attribute byte: not present, no gate type, privilege
    /// level 0.
    pub fn new() -> (r: Self)
        ensures
            r@ == 0,
    {
        TypeAttribute(0)
    }

    /// **P**: Present bit. Must be set (1) for the descriptor to be valid.
    pub fn set_present(&mut self, present: bool) -> (r: &mut Self)
        ensures
            (*r)@ == with_present(old(self)@, present),
            *final(self) == *final(r),
    {
        self.0 = set_bit8(self.0, 7, present);
        self
    }

    /// Sets the descriptor privilege level; the other bits are kept.
    pub fn set_descriptor_privilage_level(&mut self, dpl: DescriptorPrivilageLevel) -> (r:
        &mut Self)
        ensures
            (*r)@ == with_dpl(old(self)@, dpl),
            *final(self) == *final(r),
    {
        assert(max8(2) == 3) by (bit_vector);
        self.0 = set_bits8(self.0, 5, 6, dpl.bits());
        self
    }

    /// Sets the type field; the other bits are kept.
    pub fn set_gate(&mut self, gate: GateType) -> (r: &mut Self)
        ensures
            (*r)@ == with_gate(old(self)@, gate),
            *final(self) == *final(r),
    {
        assert(max8(5) == 31) by (bit_vector);
        self.0 = set_bits8(self.0, 0, 4, gate.bits());
        self
    }

    /// The attribute byte as the processor reads it.
    pub fn bits(&self) -> (r: u8)
        ensures
            r == self@,
    {
        self.0
    }
}

/// The value of the present flag for a boolean.
pub open spec fn flag_bit(b: bool) -> u8 {
    if b { 1u8 } else { 0u8 }
}

/// Each attribute setter writes its own field and leaves the other two as
/// they were.
pub proof fn lemma_attribute_setters_independent(
    a: u8,
    present: bool,
    d: DescriptorPrivilageLevel,
    g: GateType,
)
    ensures
        present_of(with_present(a, present)) == flag_bit(present),
        dpl_of(with_present(a, present)) == dpl_of(a),
        gate_of(with_present(a, present)) == gate_of(a),
        present_of(with_dpl(a, d)) == present_of(a),
        dpl_of(with_dpl(a, d)) == dpl_bits(d),
        gate_of(with_dpl(a, d)) == gate_of(a),
        present_of(with_gate(a, g)) == present_of(a),
        dpl_of(with_gate(a, g)) == dpl_of(a),
        gate_of(with_gate(a, g)) == gate_bits(g),
{
    let p = flag_bit(present);
    let db = dpl_bits(d);
    let gb = gate_bits(g);
    assert(present_of(with_field8(a, 7, 7, p)) == p && dpl_of(with_field8(a, 7, 7, p)) == dpl_of(
        a,
    ) && gate_of(with_field8(a, 7, 7, p)) == gate_of(a)) by (bit_vector)
        requires
            p <= 1,
    ;
    assert(present_of(with_field8(a, 5, 6, db)) == present_of(a) && dpl_of(
        with_field8(a, 5, 6, db),
    ) == db && gate_of(with_field8(a, 5, 6, db)) == gate_of(a)) by (bit_vector)
        requires
            db <= 3,
    ;
    assert(present_of(with_field8(a, 0, 4, gb)) == present_of(a) && dpl_of(
        with_field8(a, 0, 4, gb),
    ) == dpl_of(a) && gate_of(with_field8(a, 0, 4, gb)) == gb) by (bit_vector)
        requires
            gb <= 31,
    ;
}

/// Starting from the default attribute byte, setting the present flag, the
/// privilege level and the type field, in any of the orders below, gives a
/// byte that decodes to exactly those three values.
pub proof fn lemma_attribute_round_trip(present: bool, d: DescriptorPrivilageLevel, g: GateType)
    ensures
        ({
            let a = with_gate(with_dpl(with_present(0, present), d), g);
            present_of(a) == flag_bit(present) && dpl_of(a) == dpl_bits(d) && gate_of(a)
                == gate_bits(g)
        }),
        ({
            let a = with_present(with_dpl(with_gate(0, g), d), present);
            present_of(a) == flag_bit(present) && dpl_of(a) == dpl_bits(d) && gate_of(a)
                == gate_bits(g)
        }),
{
    lemma_attribute_setters_independent(0, present, d, g);
    lemma_attribute_setters_independent(with_present(0, present), present, d, g);
    lemma_attribute_setters_independent(with_dpl(with_present(0, present), d), present, d, g);
    lemma_attribute_setters_independent(with_gate(0, g), present, d, g);
    lemma_attribute_setters_independent(with_dpl(with_gate(0, g), d), present, d, g);
}

/// The fields of a gate entry, in the order in which they are laid out.
pub struct EntryFields {
    /// Bits 0 to 15 of the handler's address.
    pub offset_lower: u16,
    /// Selector of the code segment that holds the handler.
    pub selector: u16,
    /// Reserved byte.
    pub zero: u8,
    /// Type and attribute byte.
    pub attribute: u8,
    /// Bits 16 to 31 of the handler's address.
    pub offset_higher: u16,
}

/// The low byte of a 16-bit word.
pub open spec fn low_byte(x: u16) -> u8 {
    (x & 0xff) as u8
}

/// The high byte of a 16-bit word.
pub open spec fn high_byte(x: u16) -> u8 {
    (x >> 8) as u8
}

/// The 8 bytes of a gate entry, lowest address first.
pub open spec fn entry_bytes(e: EntryFields) -> Seq<u8> {
    seq![
        low_byte(e.offset_lower),
        high_byte(e.offset_lower),
        low_byte(e.selector),
        high_byte(e.selector),
        e.zero,
        e.attribute,
        low_byte(e.offset_higher),
        high_byte(e.offset_higher),
    ]
}

/// The fields of the entry that `Entry::new` makes for a handler address and
/// a selector word.
pub open spec fn handler_fields(selector: u16, handler: usize) -> EntryFields {
    EntryFields {
        offset_lower: handler as u16,
        selector,
        zero: 0,
        attribute: 0,
        offset_higher: (handler >> 16) as u16,
    }
}

/// The fields of the missing entry.
pub open spec fn missing_fields() -> EntryFields {
    EntryFields { offset_lower: 0, selector: 0, zero: 0, attribute: 0, offset_higher: 0 }
}

/// An entry made for a handler address, once its attribute byte is `attribute`,
/// is laid out as the address's two low bytes (least significant first), the
/// selector's two bytes, a zero byte, the attribute byte and the address's
/// next two bytes, with nothing in between.
pub proof fn lemma_entry_layout(selector: u16, handler: usize, attribute: u8)
    ensures
        entry_bytes(EntryFields { attribute, ..handler_fields(selector, handler) }) == seq![
            (handler & 0xff) as u8,
            ((handler >> 8) & 0xff) as u8,
            (selector & 0xff) as u8,
            (selector >> 8) as u8,
            0u8,
            attribute,
            ((handler >> 16) & 0xff) as u8,
            ((handler >> 24) & 0xff) as u8,
        ],
{
    let lo = handler as u16;
    let hi = (handler >> 16) as u16;
    assert(low_byte(lo) == (handler & 0xff) as u8 && high_byte(lo) == ((handler >> 8) & 0xff) as u8
        && low_byte(hi) == ((handler >> 16) & 0xff) as u8 && high_byte(hi) == ((handler >> 24)
        & 0xff) as u8) by (bit_vector)
        requires
            lo == handler as u16,
            hi == (handler >> 16) as u16,
    ;
    assert(entry_bytes(EntryFields { attribute, ..handler_fields(selector, handler) }) =~= seq![
            (handler & 0xff) as u8,
            ((handler >> 8) & 0xff) as u8,
            (selector & 0xff) as u8,
            (selector >> 8) as u8,
            0u8,
            attribute,
            ((handler >> 16) & 0xff) as u8,
            ((handler >> 24) & 0xff) as u8,
        ]);
}

/// An interrupt gate descriptor of 32-bit protected mode.
#[derive(Clone, Copy, Debug)]
pub struct Entry {
    /// Lower part of the interrupt function's offset address.
    offset_lower: u16,
    /// Selector of the interrupt function (the kernel's code selector).
    selector: Selector,
    /// Must be `0`.
    zero: u8,
    /// Types and attributes.
    type_attribute: TypeAttribute,
    /// Higher part of the offset.
    offset_higher: u16,
}

impl View for Entry {
    type V = EntryFields;

    closed spec fn view(&self) -> EntryFields {
        EntryFields {
            offset_lower: self.offset_lower,
            selector: self.selector@,
            zero: self.zero,
            attribute: self.type_attribute@,
            offset_higher: self.offset_higher,
        }
    }
}

impl Entry {
    /// An entry for the handler at address `handler`, reached through
    /// `selector`; its attribute byte is the default one (not present).
    pub fn new(selector: Selector, handler: usize) -> (r: Self)
        ensures
            r@ == handler_fields(selector@, handler),
    {
        Entry {
            selector: selector,
            offset_lower: handler as u16,
            offset_higher: (handler >> 16) as u16,
            type_attribute: TypeAttribute::new(),
            zero: 0,
        }
    }

    /// The absent entry: null selector, zero offset, not present.
    pub fn missing() -> (r: Self)
        ensures
            r@ == missing_fields(),
    {
        Entry {
            selector: Selector::new(),
            offset_lower: 0,
            offset_higher: 0,
            type_attribute: TypeAttribute::new(),
            zero: 0,
        }
    }

    /// The attribute byte, for further configuration.
    pub fn type_attribute_mut(&mut self) -> (r: &mut TypeAttribute)
        ensures
            (*r)@ == old(self)@.attribute,
            final(self)@ == (EntryFields { attribute: final(r)@, ..old(self)@ }),
    {
        &mut self.type_attribute
    }

    /// The entry as the processor reads it, lowest address first.
    pub fn to_bytes(&self) -> (r: [u8; 8])
        ensures
            r@ == entry_bytes(self@),
    {
        let sel = self.selector.bits();
        let attr = self.type_attribute.bits();
        let r = [
            (self.offset_lower & 0xff) as u8,
            (self.offset_lower >> 8) as u8,
            (sel & 0xff) as u8,
            (sel >> 8) as u8,
            self.zero,
            attr,
            (self.offset_higher & 0xff) as u8,
            (self.offset_higher >> 8) as u8,
        ];
        assert(r@ =~= entry_bytes(self@));
        r
    }
}

} // verus!
