//! Indirect register access.
//!
//! The registers of the pattern generator and of the CSI timing lie beyond
//! the directly addressable range. They are reached through three direct
//! registers: one selects the block, one the register within the block,
//! and one takes the data for the register so selected.

use vstd::prelude::*;
use crate::ti954;

verus! {

/// The number of direct writes that it takes to write `n` indirect
/// registers of one block: one to select the block, then two for each
/// register.
pub open spec fn spec_sequence_len(n: nat) -> nat {
    1 + 2 * n
}

/// Direct write number `index` of the sequence that gives the indirect
/// registers `registers` of a block the values `values`, one after the
/// other, as the register written and its value. The first write selects
/// the block by `control`; then each indirect register is selected and
/// given its value. The order matters: a data write goes to the register
/// that was selected last.
pub open spec fn spec_sequence_write(
    control: u32,
    registers: Seq<u32>,
    values: Seq<u32>,
    index: int,
) -> (u32, u32) {
    if index == 0 {
        (ti954::REG_IND_ACC_CTL, control)
    } else if index % 2 == 1 {
        (ti954::REG_IND_ACC_ADDR, registers[(index - 1) / 2])
    } else {
        (ti954::REG_IND_ACC_DATA, values[(index - 2) / 2])
    }
}

/// Returns the number of direct writes that it takes to write `n`
/// indirect registers of one block, if that number can be counted.
pub fn sequence_len(n: usize) -> (r: Option<usize>)
    ensures
        spec_sequence_len(n as nat) <= usize::MAX ==> r == Some(spec_sequence_len(n as nat) as usize),
        spec_sequence_len(n as nat) > usize::MAX ==> r is None,
{
    match n.checked_mul(2) {
        Some(twice) => twice.checked_add(1),
        None => None,
    }
}

/// Returns direct write number `index` of the sequence that gives the
/// indirect registers `registers` of a block the values `values`.
pub fn sequence_write<const N: usize>(
    control: u32,
    registers: &[u32; N],
    values: &[u32; N],
    index: usize,
) -> (r: (u32, u32))
    requires
        index < spec_sequence_len(N as nat),
    ensures
        r == spec_sequence_write(control, registers@, values@, index as int),
{
    if index == 0 {
        (ti954::REG_IND_ACC_CTL, control)
    } else if index % 2 == 1 {
        (ti954::REG_IND_ACC_ADDR, registers[(index - 1) / 2])
    } else {
        (ti954::REG_IND_ACC_DATA, values[(index - 2) / 2])
    }
}

/// Every indirect register is selected just before it is given its value.
pub proof fn lemma_select_then_data(control: u32, registers: Seq<u32>, values: Seq<u32>, k: int)
    requires
        0 <= k < registers.len(),
        registers.len() == values.len(),
    ensures
        spec_sequence_write(control, registers, values, 2 * k + 1) == (
            ti954::REG_IND_ACC_ADDR,
            registers[k],
        ),
        spec_sequence_write(control, registers, values, 2 * k + 2) == (
            ti954::REG_IND_ACC_DATA,
            values[k],
        ),
        2 * k + 2 < spec_sequence_len(registers.len()),
{
}

} // verus!
