//! Index arithmetic of the flat cache (register shifted by the stride order) and of the
//! block cache (base register, length and stride of a block).

use vstd::prelude::*;
use vstd::string::StringExecFns;
use crate::text::{dec_digits, hex_text, push_decimal, push_hex};
use vstd::arithmetic::power2::{pow2, lemma_pow2_pos};
use vstd::arithmetic::div_mod::lemma_div_is_ordered;

verus! {

/// A half-open range `[start, end)` of slots in a block.
#[derive(Debug, Clone, Copy, PartialEq, Eq)]
pub struct IndexRange {
    pub start: usize,
    pub end: usize,
}

/// Refusals of the index arithmetic.
#[derive(Debug, Clone, Copy, PartialEq, Eq)]
pub enum IndexError {
    StrideOrderOutOfRange { order: u32 },
    ZeroStride,
    EmptyBlock,
    RegisterBelowBlock { reg: u32, base: u32 },
    RangeReversed { min: u32, max: u32 },
    BlockTopOverflow { base: u32, len: usize, stride: u32 },
}

impl IndexError {
    /// The refusal as text.
    pub open spec fn spec_message(self) -> Seq<char> {
        match self {
            IndexError::StrideOrderOutOfRange { order } => "flat cache index refused stride order "@ + dec_digits(order as nat) + ": it must be smaller than 32"@,
            IndexError::ZeroStride => "regcache block arithmetic refused stride 0: stride must be nonzero"@,
            IndexError::EmptyBlock => "regcache block arithmetic refused length 0: a block must contain a register"@,
            IndexError::RegisterBelowBlock { reg, base } => "rbtree block index refused register "@ + hex_text(reg as nat) + ": it is below block base "@ + hex_text(base as nat),
            IndexError::RangeReversed { min, max } => "regcache range refused "@ + hex_text(min as nat) + "..="@ + hex_text(max as nat) + ": minimum exceeds maximum"@,
            IndexError::BlockTopOverflow { base, len, stride } => "rbtree block refused base "@ + hex_text(base as nat) + ", length "@ + dec_digits(len as nat) + ", stride "@ + dec_digits(stride as nat) + ": top register overflows u32"@,
        }
    }

    /// Describes the refusal in words, naming the rejected values.
    pub fn message(&self) -> (s: String)
        ensures
            s@ == self.spec_message(),
    {
        match *self {
            IndexError::StrideOrderOutOfRange { order } => {
                let mut s = String::new();
                s.append("flat cache index refused stride order ");
                push_decimal(&mut s, order as u64);
                s.append(": it must be smaller than 32");
                s
            },
            IndexError::ZeroStride => {
                let mut s = String::new();
                s.append("regcache block arithmetic refused stride 0: stride must be nonzero");
                s
            },
            IndexError::EmptyBlock => {
                let mut s = String::new();
                s.append("regcache block arithmetic refused length 0: a block must contain a register");
                s
            },
            IndexError::RegisterBelowBlock { reg, base } => {
                let mut s = String::new();
                s.append("rbtree block index refused register ");
                push_hex(&mut s, reg as u64);
                s.append(": it is below block base ");
                push_hex(&mut s, base as u64);
                s
            },
            IndexError::RangeReversed { min, max } => {
                let mut s = String::new();
                s.append("regcache range refused ");
                push_hex(&mut s, min as u64);
                s.append("..=");
                push_hex(&mut s, max as u64);
                s.append(": minimum exceeds maximum");
                s
            },
            IndexError::BlockTopOverflow { base, len, stride } => {
                let mut s = String::new();
                s.append("rbtree block refused base ");
                push_hex(&mut s, base as u64);
                s.append(", length ");
                push_decimal(&mut s, len as u64);
                s.append(", stride ");
                push_decimal(&mut s, stride as u64);
                s.append(": top register overflows u32");
                s
            },
        }
    }
}

/// The flat-cache slot of a register: the register shifted right by the stride order.
pub open spec fn spec_flat_index(reg: u32, order: u32) -> int {
    reg as int / pow2(order as nat) as int
}

proof fn lemma_flat_index_bounds(reg: u32, order: u32)
    ensures
        0 <= spec_flat_index(reg, order) <= reg,
{
    lemma_pow2_pos(order as nat);
    let p = pow2(order as nat) as int;
    assert(reg as int / p <= reg) by (nonlinear_arith)
        requires
            p >= 1,
            reg >= 0,
    ;
}

/// The flat-cache slot of `reg`; a stride order of 32 or more is refused.
pub fn flat_index(reg: u32, reg_stride_order: u32) -> (r: Result<usize, IndexError>)
    ensures
        reg_stride_order >= 32 ==> r == Err::<usize, IndexError>(
            IndexError::StrideOrderOutOfRange { order: reg_stride_order },
        ),
        reg_stride_order < 32 ==> r == Ok::<usize, IndexError>(
            spec_flat_index(reg, reg_stride_order) as usize,
        ),
{
    if reg_stride_order >= 32 {
        return Err(IndexError::StrideOrderOutOfRange { order: reg_stride_order });
    }
    proof {
        vstd::bits::lemma_u32_shr_is_div(reg, reg_stride_order);
        lemma_flat_index_bounds(reg, reg_stride_order);
    }
    Ok((reg >> reg_stride_order) as usize)
}

/// Slots a flat cache needs to hold registers up to `max_register`: its slot plus one.
pub fn flat_entry_count(max_register: u32, reg_stride_order: u32) -> (r: Result<usize, IndexError>)
    requires
        reg_stride_order >= 32 || spec_flat_index(max_register, reg_stride_order) < usize::MAX,
    ensures
        reg_stride_order >= 32 ==> r == Err::<usize, IndexError>(
            IndexError::StrideOrderOutOfRange { order: reg_stride_order },
        ),
        reg_stride_order < 32 ==> r == Ok::<usize, IndexError>(
            (spec_flat_index(max_register, reg_stride_order) + 1) as usize,
        ),
{
    proof {
        lemma_flat_index_bounds(max_register, reg_stride_order);
    }
    match flat_index(max_register, reg_stride_order) {
        Ok(i) => Ok(i + 1),
        Err(e) => Err(e),
    }
}

/// The flat-cache slots of an inclusive register range, as a first slot and a slot count.
pub fn flat_drop_span(min: u32, max: u32, reg_stride_order: u32) -> (r: Result<
    (usize, usize),
    IndexError,
>)
    requires
        min > max || reg_stride_order >= 32 || spec_flat_index(max, reg_stride_order)
            < usize::MAX,
    ensures
        min > max ==> r == Err::<(usize, usize), IndexError>(IndexError::RangeReversed { min, max }),
        min <= max && reg_stride_order >= 32 ==> r == Err::<(usize, usize), IndexError>(
            IndexError::StrideOrderOutOfRange { order: reg_stride_order },
        ),
        min <= max && reg_stride_order < 32 ==> {
            let first = spec_flat_index(min, reg_stride_order);
            let last = spec_flat_index(max, reg_stride_order);
            &&& first <= last
            &&& r == Ok::<(usize, usize), IndexError>(
                (first as usize, (last + 1 - first) as usize),
            )
        },
{
    if min > max {
        return Err(IndexError::RangeReversed { min, max });
    }
    let bitmap_min = match flat_index(min, reg_stride_order) {
        Ok(i) => i,
        Err(e) => return Err(e),
    };
    let bitmap_max = match flat_index(max, reg_stride_order) {
        Ok(i) => i,
        Err(e) => return Err(e),
    };
    proof {
        lemma_flat_index_bounds(min, reg_stride_order);
        lemma_flat_index_bounds(max, reg_stride_order);
        lemma_pow2_pos(reg_stride_order as nat);
        lemma_div_is_ordered(min as int, max as int, pow2(reg_stride_order as nat) as int);
    }
    Ok((bitmap_min, bitmap_max + 1 - bitmap_min))
}

/// The last register of a block: `base + (len - 1) * stride`, refused for an empty block, a
/// zero stride, or a top past `u32::MAX`.
pub open spec fn spec_block_top(base: u32, len: usize, stride: u32) -> Result<u32, IndexError> {
    if len == 0 {
        Err(IndexError::EmptyBlock)
    } else if stride == 0 {
        Err(IndexError::ZeroStride)
    } else if base + (len - 1) * stride > u32::MAX {
        Err(IndexError::BlockTopOverflow { base, len, stride })
    } else {
        Ok((base + (len - 1) * stride) as u32)
    }
}

/// Computes the last register of a block.
pub fn rbtree_block_top(base: u32, len: usize, stride: u32) -> (r: Result<u32, IndexError>)
    ensures
        r == spec_block_top(base, len, stride),
{
    if len == 0 {
        return Err(IndexError::EmptyBlock);
    }
    if stride == 0 {
        return Err(IndexError::ZeroStride);
    }
    let overflow = IndexError::BlockTopOverflow { base, len, stride };
    let offset = match (len - 1).checked_mul(stride as usize) {
        Some(o) => o,
        None => {
            proof {
                assert((len - 1) * stride >= 0) by (nonlinear_arith)
                    requires
                        len >= 1,
                ;
            }
            return Err(overflow);
        },
    };
    if offset > 0xffff_ffff {
        return Err(overflow);
    }
    match base.checked_add(offset as u32) {
        Some(top) => Ok(top),
        None => Err(overflow),
    }
}

/// The slot of `reg` in a block: `(reg - base) / stride`.
pub fn rbtree_index(reg: u32, base: u32, stride: u32) -> (r: Result<usize, IndexError>)
    ensures
        stride == 0 ==> r == Err::<usize, IndexError>(IndexError::ZeroStride),
        stride != 0 && reg < base ==> r == Err::<usize, IndexError>(
            IndexError::RegisterBelowBlock { reg, base },
        ),
        stride != 0 && reg >= base ==> r == Ok::<usize, IndexError>(
            ((reg - base) / (stride as int)) as usize,
        ),
{
    if stride == 0 {
        return Err(IndexError::ZeroStride);
    }
    if reg < base {
        return Err(IndexError::RegisterBelowBlock { reg, base });
    }
    Ok(((reg - base) / stride) as usize)
}

/// The slots of a block that an inclusive register range touches, if any: from the slot of
/// `min` (rounded down; the first slot when `min` is below the block) to one past the slot of
/// `max` (the block's end when `max` is at or past its top).
pub open spec fn spec_range_indices(base: u32, len: usize, stride: u32, min: u32, max: u32) -> Result<
    Option<IndexRange>,
    IndexError,
> {
    if min > max {
        Err(IndexError::RangeReversed { min, max })
    } else {
        match spec_block_top(base, len, stride) {
            Err(e) => Err(e),
            Ok(top) => if base > max || top < min {
                Ok(None)
            } else {
                let start = if min > base {
                    (min - base) / (stride as int)
                } else {
                    0
                };
                let end = if max < top {
                    (max - base) / (stride as int) + 1
                } else {
                    len as int
                };
                Ok(Some(IndexRange { start: start as usize, end: end as usize }))
            },
        }
    }
}

/// Intersects an inclusive register range with a block; a range that meets the block gives
/// a nonempty slot range within it.
pub fn rbtree_range_indices(base: u32, len: usize, stride: u32, min: u32, max: u32) -> (r: Result<
    Option<IndexRange>,
    IndexError,
>)
    ensures
        r == spec_range_indices(base, len, stride, min, max),
        r matches Ok(Some(range)) ==> range.start < range.end <= len,
{
    if min > max {
        return Err(IndexError::RangeReversed { min, max });
    }
    let top = match rbtree_block_top(base, len, stride) {
        Ok(t) => t,
        Err(e) => return Err(e),
    };
    if base > max || top < min {
        return Ok(None);
    }
    let ghost span = (len - 1) * stride;
    let start: usize = if min > base {
        proof {
            let a = (min - base) as int;
            let d = stride as int;
            assert(a / d <= len - 1) by (nonlinear_arith)
                requires
                    a <= (len - 1) * d,
                    d > 0,
                    a >= 0,
                    len >= 1,
            ;
        }
        ((min - base) / stride) as usize
    } else {
        0
    };
    let end: usize = if max < top {
        proof {
            let a = (max - base) as int;
            let d = stride as int;
            assert(a / d < len - 1) by (nonlinear_arith)
                requires
                    a < (len - 1) * d,
                    d > 0,
                    a >= 0,
                    len >= 1,
            ;
            if min > base {
                lemma_div_is_ordered((min - base) as int, a, d);
            }
        }
        ((max - base) / stride) as usize + 1
    } else {
        len
    };
    Ok(Some(IndexRange { start, end }))
}

} // verus!
