//! The bitwise operators a byte can be combined with a fixed operand by.

use vstd::prelude::*;

verus! {

/// How a byte `b` is combined with a fixed right-hand operand `rhs`.
#[allow(clippy::upper_case_acronyms)]
#[derive(Clone, Copy, Debug, PartialEq, Eq, Structural)]
pub enum BitOp {
    /// `b & rhs`
    AND,
    /// `b | rhs`
    OR,
    /// `b & !rhs`: the bits of `rhs` are cleared in `b`.
    NAND,
}

impl BitOp {
    /// The byte that results from combining `b` with `rhs`.
    pub open spec fn combined(self, b: u8, rhs: u8) -> u8 {
        match self {
            BitOp::AND => b & rhs,
            BitOp::OR => b | rhs,
            BitOp::NAND => b & !rhs,
        }
    }

    /// Combines `b` with `rhs`.
    pub fn combine(&self, b: u8, rhs: u8) -> (r: u8)
        ensures
            r == self.combined(b, rhs),
    {
        match self {
            BitOp::AND => b & rhs,
            BitOp::OR => b | rhs,
            BitOp::NAND => b & !rhs,
        }
    }

    /// The operator's name as text.
    pub open spec fn spec_name(self) -> Seq<char> {
        match self {
            BitOp::AND => "AND"@,
            BitOp::OR => "OR"@,
            BitOp::NAND => "NAND"@,
        }
    }

    /// The operator's name, for display.
    pub fn name(&self) -> (text: &'static str)
        ensures
            text@ == self.spec_name(),
    {
        match self {
            BitOp::AND => "AND",
            BitOp::OR => "OR",
            BitOp::NAND => "NAND",
        }
    }

    /// `AND` with every bit set changes nothing.
    pub proof fn and_with_all_ones_is_identity(b: u8)
        ensures
            BitOp::AND.combined(b, 0xFF) == b,
    {
        assert(b & 0xFF == b) by (bit_vector);
    }

    /// `OR` with no bit set changes nothing.
    pub proof fn or_with_zero_is_identity(b: u8)
        ensures
            BitOp::OR.combined(b, 0x00) == b,
    {
        assert(b | 0x00 == b) by (bit_vector);
    }

    /// `NAND` with every bit set clears the byte.
    pub proof fn nand_with_all_ones_is_zero(b: u8)
        ensures
            BitOp::NAND.combined(b, 0xFF) == 0,
    {
        assert(b & !0xFFu8 == 0) by (bit_vector);
    }

    /// Applying the same operator with the same operand a second time changes
    /// nothing more.
    pub proof fn combine_is_idempotent(self, b: u8, rhs: u8)
        ensures
            self.combined(self.combined(b, rhs), rhs) == self.combined(b, rhs),
    {
        assert((b & rhs) & rhs == b & rhs) by (bit_vector);
        assert((b | rhs) | rhs == b | rhs) by (bit_vector);
        assert((b & !rhs) & !rhs == b & !rhs) by (bit_vector);
    }
}

} // verus!
