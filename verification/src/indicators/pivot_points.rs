//! Pivot Points: support and resistance levels from one bar's high, low and close.
//!
//! The transform is stateless and purely arithmetic; what is fixed here is which of
//! the three formula families applies.

use vstd::prelude::*;

verus! {

/// The formula family.
#[derive(Debug, Clone, Copy, PartialEq, Eq, Structural)]
pub enum PivotPointsVariant {
    /// Pivot `(H + L + C) / 3`, levels from the pivot and the range.
    Standard,
    /// Pivot `(H + L + C) / 3`, levels at 0.382, 0.618 and 1 times the range.
    Fibonacci,
    /// Pivot `(H + L + 2C) / 4`, levels as in the standard family.
    Woodie,
}

impl Default for PivotPointsVariant {
    fn default() -> (v: Self)
        ensures
            v == PivotPointsVariant::Standard,
    {
        PivotPointsVariant::Standard
    }
}

/// A pivot point calculator: nothing but its variant.
#[derive(Debug, Clone, Copy)]
pub struct PivotPoints {
    variant: PivotPointsVariant,
}

impl PivotPoints {
    /// The variant as a specification value.
    pub closed spec fn spec_variant(&self) -> PivotPointsVariant {
        self.variant
    }

    /// A calculator of the given variant.
    pub fn new(variant: PivotPointsVariant) -> (p: Self)
        ensures
            p.spec_variant() == variant,
    {
        Self { variant }
    }

    /// A calculator of the standard variant.
    pub fn standard() -> (p: Self)
        ensures
            p.spec_variant() == PivotPointsVariant::Standard,
    {
        Self::new(PivotPointsVariant::Standard)
    }

    /// A calculator of the Fibonacci variant.
    pub fn fibonacci() -> (p: Self)
        ensures
            p.spec_variant() == PivotPointsVariant::Fibonacci,
    {
        Self::new(PivotPointsVariant::Fibonacci)
    }

    /// A calculator of the Woodie variant.
    pub fn woodie() -> (p: Self)
        ensures
            p.spec_variant() == PivotPointsVariant::Woodie,
    {
        Self::new(PivotPointsVariant::Woodie)
    }

    /// The variant.
    #[verifier::when_used_as_spec(spec_variant)]
    pub fn variant(&self) -> (v: PivotPointsVariant)
        ensures
            v == self.spec_variant(),
    {
        self.variant
    }
}

impl Default for PivotPoints {
    fn default() -> (p: Self)
        ensures
            p.spec_variant() == PivotPointsVariant::Standard,
    {
        Self::standard()
    }
}

} // verus!
