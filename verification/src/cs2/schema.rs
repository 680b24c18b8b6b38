//! The flags that the engine's schema system keeps for a class.

use vstd::prelude::*;

verus! {

/// One flag of a schema class. Each flag is one bit of the class's flag
/// word.
#[derive(Clone, Copy, Debug, PartialEq, Eq, Structural)]
pub enum SchemaClassFlags {
    HasVirtualMembers,
    IsAbstract,
    HasTrivialConstructor,
    HasTrivialDestructor,
    TempHackHasNoschemaMembers,
    TempHackHasConstructorLikeMethods,
    TempHackHasDestructorLikeMethods,
    IsNoschemaClass,
}

impl SchemaClassFlags {
    /// The position of the flag's bit in the flag word.
    pub open spec fn bit_index(self) -> nat {
        match self {
            SchemaClassFlags::HasVirtualMembers => 0,
            SchemaClassFlags::IsAbstract => 1,
            SchemaClassFlags::HasTrivialConstructor => 2,
            SchemaClassFlags::HasTrivialDestructor => 3,
            SchemaClassFlags::TempHackHasNoschemaMembers => 4,
            SchemaClassFlags::TempHackHasConstructorLikeMethods => 5,
            SchemaClassFlags::TempHackHasDestructorLikeMethods => 6,
            SchemaClassFlags::IsNoschemaClass => 7,
        }
    }

    /// The flag's value in the flag word: 1, 2, 4 and so on up to 128, in
    /// the order of the variants.
    pub open spec fn mask_of(self) -> u32 {
        match self {
            SchemaClassFlags::HasVirtualMembers => 1,
            SchemaClassFlags::IsAbstract => 2,
            SchemaClassFlags::HasTrivialConstructor => 4,
            SchemaClassFlags::HasTrivialDestructor => 8,
            SchemaClassFlags::TempHackHasNoschemaMembers => 16,
            SchemaClassFlags::TempHackHasConstructorLikeMethods => 32,
            SchemaClassFlags::TempHackHasDestructorLikeMethods => 64,
            SchemaClassFlags::IsNoschemaClass => 128,
        }
    }

    /// The flag's value in the flag word.
    pub fn mask(&self) -> (m: u32)
        ensures
            m == self.mask_of(),
    {
        match self {
            SchemaClassFlags::HasVirtualMembers => 1,
            SchemaClassFlags::IsAbstract => 2,
            SchemaClassFlags::HasTrivialConstructor => 4,
            SchemaClassFlags::HasTrivialDestructor => 8,
            SchemaClassFlags::TempHackHasNoschemaMembers => 16,
            SchemaClassFlags::TempHackHasConstructorLikeMethods => 32,
            SchemaClassFlags::TempHackHasDestructorLikeMethods => 64,
            SchemaClassFlags::IsNoschemaClass => 128,
        }
    }

    /// Whether the flag is set in the flag word `word`.
    pub fn is_set_in(&self, word: u32) -> (r: bool)
        ensures
            r == (word & self.mask_of() != 0),
    {
        word & self.mask() != 0
    }
}

/// Each flag's value is the power of two of its position, so no two flags
/// share a bit.
pub proof fn lemma_flag_masks_are_single_bits(flag: SchemaClassFlags)
    ensures
        flag.mask_of() == 1u32 << (flag.bit_index() as u32),
{
    assert(1u32 << 0u32 == 1) by (bit_vector);
    assert(1u32 << 1u32 == 2) by (bit_vector);
    assert(1u32 << 2u32 == 4) by (bit_vector);
    assert(1u32 << 3u32 == 8) by (bit_vector);
    assert(1u32 << 4u32 == 16) by (bit_vector);
    assert(1u32 << 5u32 == 32) by (bit_vector);
    assert(1u32 << 6u32 == 64) by (bit_vector);
    assert(1u32 << 7u32 == 128) by (bit_vector);
}

} // verus!
