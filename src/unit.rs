use vstd::prelude::*;

use crate::field::SIMDField;

verus! {

/// The vector instruction set that the host offers, as detected once by the caller.
#[derive(Clone, Copy, Debug, PartialEq, Eq, Structural)]
pub enum VectorUnit {
    /// 128-bit registers.
    Sse,
    /// 256-bit registers.
    Avx2,
}

/// Register width in bits of a vector unit.
pub open spec fn register_bits(unit: VectorUnit) -> nat {
    match unit {
        VectorUnit::Sse => 128,
        VectorUnit::Avx2 => 256,
    }
}

/// Lanes of a 128-bit register at the element width of `T`.
pub fn sse_round<T: SIMDField>() -> (r: usize)
    ensures
        r == 128nat / T::width(),
        r * T::width() == 128,
{
    let bits = T::size_in_bits();
    128 / bits
}

/// Lanes of a 256-bit register at the element width of `T`.
pub fn avx_round<T: SIMDField>() -> (r: usize)
    ensures
        r == 256nat / T::width(),
        r * T::width() == 256,
{
    let bits = T::size_in_bits();
    256 / bits
}

impl VectorUnit {
    /// Lanes of one register of this unit at the element width of `T`.
    pub fn lanes<T: SIMDField>(&self) -> (r: usize)
        ensures
            r == register_bits(*self) / T::width(),
            r * T::width() == register_bits(*self),
    {
        match self {
            VectorUnit::Sse => sse_round::<T>(),
            VectorUnit::Avx2 => avx_round::<T>(),
        }
    }
}

} // verus!
