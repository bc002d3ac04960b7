use vstd::prelude::*;

verus! {

/// Number of 64-bit slots in the register file.
pub const NUM_OF_REGISTERS: usize = 9;

/// The tag of the value type a register slot currently holds.
#[derive(Debug, Copy, Clone, PartialEq, Eq, Structural)]
pub enum RegisterTypes {
    I8,
    U8,
    I16,
    U16,
    I32,
    U32,
    I64,
    U64,
}

/// How many distinct bit patterns a register type has: two to its width.
pub open spec fn spec_type_bound(t: RegisterTypes) -> int {
    match t {
        RegisterTypes::I8 => 0x100,
        RegisterTypes::U8 => 0x100,
        RegisterTypes::I16 => 0x1_0000,
        RegisterTypes::U16 => 0x1_0000,
        RegisterTypes::I32 => 0x1_0000_0000,
        RegisterTypes::U32 => 0x1_0000_0000,
        RegisterTypes::I64 => 0x1_0000_0000_0000_0000,
        RegisterTypes::U64 => 0x1_0000_0000_0000_0000,
    }
}

/// A value type that can live in a register slot: it has a tag, and each
/// value a bit pattern — its two's-complement representation, zero-extended
/// to 64 bits — that determines the value.
pub trait TypeInfo: Sized + Copy {
    /// The tag of this type.
    spec fn spec_type_of() -> RegisterTypes;

    /// The value's bit pattern, as stored in a slot.
    spec fn spec_bits(self) -> u64;

    /// A bit pattern never reaches the type's bound.
    proof fn lemma_bits_bounded(self)
        ensures
            self.spec_bits() < spec_type_bound(Self::spec_type_of()),
    ;

    /// Two values with the same bit pattern are the same value.
    proof fn lemma_bits_injective(a: Self, b: Self)
        requires
            a.spec_bits() == b.spec_bits(),
        ensures
            a == b,
    ;

    /// The tag of this type.
    fn type_of() -> (t: RegisterTypes)
        ensures
            t == Self::spec_type_of(),
    ;

    /// The value's bit pattern, to be stored in a slot.
    fn to_bits(self) -> (b: u64)
        ensures
            b == self.spec_bits(),
    ;

    /// The value a stored bit pattern denotes.
    fn from_bits(b: u64) -> (v: Self)
        requires
            b < spec_type_bound(Self::spec_type_of()),
        ensures
            v.spec_bits() == b,
    ;
}

impl TypeInfo for u8 {
    open spec fn spec_type_of() -> RegisterTypes {
        RegisterTypes::U8
    }

    open spec fn spec_bits(self) -> u64 {
        self as u64
    }

    proof fn lemma_bits_bounded(self) {
    }

    proof fn lemma_bits_injective(a: Self, b: Self) {
    }

    fn type_of() -> (t: RegisterTypes) {
        RegisterTypes::U8
    }

    fn to_bits(self) -> (b: u64) {
        self as u64
    }

    fn from_bits(b: u64) -> (v: Self) {
        b as u8
    }
}

impl TypeInfo for i8 {
    open spec fn spec_type_of() -> RegisterTypes {
        RegisterTypes::I8
    }

    open spec fn spec_bits(self) -> u64 {
        (self as u8) as u64
    }

    proof fn lemma_bits_bounded(self) {
    }

    proof fn lemma_bits_injective(a: Self, b: Self) {
        assert(a as u8 == b as u8 ==> a == b) by (bit_vector);
    }

    fn type_of() -> (t: RegisterTypes) {
        RegisterTypes::I8
    }

    fn to_bits(self) -> (b: u64) {
        (self as u8) as u64
    }

    fn from_bits(b: u64) -> (v: Self) {
        proof {
            assert(b < 0x100 ==> (((b as u8) as i8) as u8) as u64 == b) by (bit_vector);
        }
        (b as u8) as i8
    }
}

impl TypeInfo for u16 {
    open spec fn spec_type_of() -> RegisterTypes {
        RegisterTypes::U16
    }

    open spec fn spec_bits(self) -> u64 {
        self as u64
    }

    proof fn lemma_bits_bounded(self) {
    }

    proof fn lemma_bits_injective(a: Self, b: Self) {
    }

    fn type_of() -> (t: RegisterTypes) {
        RegisterTypes::U16
    }

    fn to_bits(self) -> (b: u64) {
        self as u64
    }

    fn from_bits(b: u64) -> (v: Self) {
        b as u16
    }
}

impl TypeInfo for i16 {
    open spec fn spec_type_of() -> RegisterTypes {
        RegisterTypes::I16
    }

    open spec fn spec_bits(self) -> u64 {
        (self as u16) as u64
    }

    proof fn lemma_bits_bounded(self) {
    }

    proof fn lemma_bits_injective(a: Self, b: Self) {
        assert(a as u16 == b as u16 ==> a == b) by (bit_vector);
    }

    fn type_of() -> (t: RegisterTypes) {
        RegisterTypes::I16
    }

    fn to_bits(self) -> (b: u64) {
        (self as u16) as u64
    }

    fn from_bits(b: u64) -> (v: Self) {
        proof {
            assert(b < 0x1_0000 ==> (((b as u16) as i16) as u16) as u64 == b) by (bit_vector);
        }
        (b as u16) as i16
    }
}

impl TypeInfo for u32 {
    open spec fn spec_type_of() -> RegisterTypes {
        RegisterTypes::U32
    }

    open spec fn spec_bits(self) -> u64 {
        self as u64
    }

    proof fn lemma_bits_bounded(self) {
    }

    proof fn lemma_bits_injective(a: Self, b: Self) {
    }

    fn type_of() -> (t: RegisterTypes) {
        RegisterTypes::U32
    }

    fn to_bits(self) -> (b: u64) {
        self as u64
    }

    fn from_bits(b: u64) -> (v: Self) {
        b as u32
    }
}

impl TypeInfo for i32 {
    open spec fn spec_type_of() -> RegisterTypes {
        RegisterTypes::I32
    }

    open spec fn spec_bits(self) -> u64 {
        (self as u32) as u64
    }

    proof fn lemma_bits_bounded(self) {
    }

    proof fn lemma_bits_injective(a: Self, b: Self) {
        assert(a as u32 == b as u32 ==> a == b) by (bit_vector);
    }

    fn type_of() -> (t: RegisterTypes) {
        RegisterTypes::I32
    }

    fn to_bits(self) -> (b: u64) {
        (self as u32) as u64
    }

    fn from_bits(b: u64) -> (v: Self) {
        proof {
            assert(b < 0x1_0000_0000 ==> (((b as u32) as i32) as u32) as u64 == b) by (bit_vector);
        }
        (b as u32) as i32
    }
}

impl TypeInfo for u64 {
    open spec fn spec_type_of() -> RegisterTypes {
        RegisterTypes::U64
    }

    open spec fn spec_bits(self) -> u64 {
        self
    }

    proof fn lemma_bits_bounded(self) {
    }

    proof fn lemma_bits_injective(a: Self, b: Self) {
    }

    fn type_of() -> (t: RegisterTypes) {
        RegisterTypes::U64
    }

    fn to_bits(self) -> (b: u64) {
        self
    }

    fn from_bits(b: u64) -> (v: Self) {
        b
    }
}

impl TypeInfo for i64 {
    open spec fn spec_type_of() -> RegisterTypes {
        RegisterTypes::I64
    }

    open spec fn spec_bits(self) -> u64 {
        self as u64
    }

    proof fn lemma_bits_bounded(self) {
    }

    proof fn lemma_bits_injective(a: Self, b: Self) {
        assert(a as u64 == b as u64 ==> a == b) by (bit_vector);
    }

    fn type_of() -> (t: RegisterTypes) {
        RegisterTypes::I64
    }

    fn to_bits(self) -> (b: u64) {
        self as u64
    }

    fn from_bits(b: u64) -> (v: Self) {
        proof {
            assert((b as i64) as u64 == b) by (bit_vector);
        }
        b as i64
    }
}

/// A register file of `NUM_OF_REGISTERS` 64-bit slots. Each slot stores the
/// bit pattern of the value written last, together with the tag of its
/// type; a slot is read back at the type it was written with.
#[derive(Debug)]
pub struct Registers {
    data: [u64; NUM_OF_REGISTERS],
    types: [RegisterTypes; NUM_OF_REGISTERS],
}

impl Registers {
    /// The stored bit patterns, slot by slot.
    pub closed spec fn spec_data(&self) -> Seq<u64> {
        self.data@
    }

    /// The stored type tags, slot by slot.
    pub closed spec fn spec_types(&self) -> Seq<RegisterTypes> {
        self.types@
    }

    /// The register file's safety condition: every slot's bit pattern fits
    /// the type its tag names, so reading the slot back at that type cannot
    /// go wrong.
    pub open spec fn safety_checks(&self) -> bool {
        forall|i: int|
            0 <= i < NUM_OF_REGISTERS ==> self.spec_data()[i] < spec_type_bound(
                #[trigger] self.spec_types()[i],
            )
    }

    /// A fresh register file: every slot holds the `u8` value zero.
    pub fn new() -> (r: Self)
        ensures
            r.safety_checks(),
            r.spec_data() =~= Seq::new(NUM_OF_REGISTERS as nat, |i: int| 0u64),
            r.spec_types() =~= Seq::new(NUM_OF_REGISTERS as nat, |i: int| RegisterTypes::U8),
    {
        Self { data: [0; NUM_OF_REGISTERS], types: [RegisterTypes::U8; NUM_OF_REGISTERS] }
    }

    /// Reads slot `reg` back at the type it was written with.
    pub fn get_register<T: TypeInfo>(&self, reg: usize) -> (value: T)
        requires
            self.safety_checks(),
            reg < NUM_OF_REGISTERS,
            self.spec_types()[reg as int] == T::spec_type_of(),
        ensures
            value.spec_bits() == self.spec_data()[reg as int],
    {
        T::from_bits(self.data[reg])
    }

    /// Writes `value` into slot `reg`, retagging the slot with the value's
    /// type; every other slot is untouched.
    pub fn set_register<T: TypeInfo>(&mut self, reg: usize, value: T)
        requires
            old(self).safety_checks(),
            reg < NUM_OF_REGISTERS,
        ensures
            final(self).safety_checks(),
            final(self).spec_data() == old(self).spec_data().update(
                reg as int,
                value.spec_bits(),
            ),
            final(self).spec_types() == old(self).spec_types().update(
                reg as int,
                T::spec_type_of(),
            ),
    {
        proof {
            value.lemma_bits_bounded();
        }
        self.types[reg] = T::type_of();
        self.data[reg] = value.to_bits();
        proof {
            assert forall|i: int|
                0 <= i < NUM_OF_REGISTERS implies self.spec_data()[i] < spec_type_bound(
                #[trigger] self.spec_types()[i],
            ) by {
                if i != reg as int {
                    assert(self.spec_data()[i] == old(self).spec_data()[i]);
                    assert(self.spec_types()[i] == old(self).spec_types()[i]);
                }
            }
        }
    }
}

} // verus!
