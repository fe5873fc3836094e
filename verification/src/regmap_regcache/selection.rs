//! Cache-type matching and the checks made before a cache is set up.

use vstd::prelude::*;
use vstd::string::StringExecFns;
use crate::text::{dec_digits, hex_text, push_decimal, push_hex};

verus! {

/// The cache types, numbered 0 to 4 in declaration order; `NoCache` (0) means no cache.
#[derive(Debug, Clone, Copy, PartialEq, Eq)]
pub enum CacheType {
    NoCache,
    Rbtree,
    Flat,
    Maple,
    FlatSparse,
}

/// Names of the five cache types, in numbering order.
pub const CACHE_TYPE_NAMES: [&'static str; 5] = ["none", "rbtree", "flat", "maple", "flat-sparse"];

/// Cache implementations in the order they are matched.
pub const SELECTABLE_CACHE_NAMES: [&'static str; 4] = ["flat-sparse", "rbtree", "maple", "flat"];

/// The cache implementation selected.
#[derive(Debug, Clone, Copy, PartialEq, Eq)]
pub enum CacheBackend {
    FlatSparse,
    Rbtree,
    Maple,
    Flat,
}

/// Refusals of cache setup.
#[derive(Debug, Clone, Copy, PartialEq, Eq)]
pub enum SelectionError {
    DefaultsWithoutCount,
    DefaultsCountWithoutTable,
    ZeroRegisterStride,
    DefaultRegisterMisaligned { reg: u32, stride: u32 },
    CacheTypeUnmatched { cache_type: u8 },
}

impl SelectionError {
    /// The refusal as text.
    pub open spec fn spec_message(self) -> Seq<char> {
        match self {
            SelectionError::DefaultsWithoutCount => "regcache initialization refused: register defaults are set without their count"@,
            SelectionError::DefaultsCountWithoutTable => "regcache initialization refused: register-default count is set without a defaults table"@,
            SelectionError::ZeroRegisterStride => "regcache initialization refused register stride 0: stride must be nonzero"@,
            SelectionError::DefaultRegisterMisaligned { reg, stride } => "regcache initialization refused default register "@ + hex_text(reg as nat) + ": it is not aligned to stride "@ + dec_digits(stride as nat),
            SelectionError::CacheTypeUnmatched { cache_type } => "regcache initialization refused cache type "@ + dec_digits(cache_type as nat) + ": no cache implementation matches it"@,
        }
    }

    /// Describes the refusal in words, naming the rejected values.
    pub fn message(&self) -> (s: String)
        ensures
            s@ == self.spec_message(),
    {
        match *self {
            SelectionError::DefaultsWithoutCount => {
                let mut s = String::new();
                s.append("regcache initialization refused: register defaults are set without their count");
                s
            },
            SelectionError::DefaultsCountWithoutTable => {
                let mut s = String::new();
                s.append("regcache initialization refused: register-default count is set without a defaults table");
                s
            },
            SelectionError::ZeroRegisterStride => {
                let mut s = String::new();
                s.append("regcache initialization refused register stride 0: stride must be nonzero");
                s
            },
            SelectionError::DefaultRegisterMisaligned { reg, stride } => {
                let mut s = String::new();
                s.append("regcache initialization refused default register ");
                push_hex(&mut s, reg as u64);
                s.append(": it is not aligned to stride ");
                push_decimal(&mut s, stride as u64);
                s
            },
            SelectionError::CacheTypeUnmatched { cache_type } => {
                let mut s = String::new();
                s.append("regcache initialization refused cache type ");
                push_decimal(&mut s, cache_type as u64);
                s.append(": no cache implementation matches it");
                s
            },
        }
    }
}

/// The implementation for a raw cache-type number: none for 0, a backend for 1 to 4, a
/// refusal otherwise.
pub open spec fn spec_select(cache_type: u8) -> Result<Option<CacheBackend>, SelectionError> {
    if cache_type == 0 {
        Ok(None)
    } else if cache_type == 4 {
        Ok(Some(CacheBackend::FlatSparse))
    } else if cache_type == 1 {
        Ok(Some(CacheBackend::Rbtree))
    } else if cache_type == 3 {
        Ok(Some(CacheBackend::Maple))
    } else if cache_type == 2 {
        Ok(Some(CacheBackend::Flat))
    } else {
        Err(SelectionError::CacheTypeUnmatched { cache_type })
    }
}

/// Matches a raw cache-type number against the implementations.
pub fn select_cache_type(cache_type: u8) -> (r: Result<Option<CacheBackend>, SelectionError>)
    ensures
        r == spec_select(cache_type),
{
    if cache_type == 0 {
        return Ok(None);
    }
    let backend = if cache_type == 4 {
        CacheBackend::FlatSparse
    } else if cache_type == 1 {
        CacheBackend::Rbtree
    } else if cache_type == 3 {
        CacheBackend::Maple
    } else if cache_type == 2 {
        CacheBackend::Flat
    } else {
        return Err(SelectionError::CacheTypeUnmatched { cache_type });
    };
    Ok(Some(backend))
}

/// Index of the first of the first `n` default registers not aligned to `stride`, if any.
pub open spec fn first_misaligned(regs: Seq<u32>, n: int, stride: u32) -> Option<int>
    decreases n,
{
    if n <= 0 {
        None
    } else {
        match first_misaligned(regs, n - 1, stride) {
            Some(i) => Some(i),
            None => if n - 1 < regs.len() && regs[n - 1] % stride != 0 {
                Some(n - 1)
            } else {
                None
            },
        }
    }
}

/// The misaligned register a setup check reports is the first unaligned one among the first
/// `n` defaults; when none is reported, all of them are aligned.
pub proof fn lemma_first_misaligned(regs: Seq<u32>, n: int, stride: u32)
    requires
        stride != 0,
    ensures
        first_misaligned(regs, n, stride) matches Some(i) ==> {
            &&& 0 <= i < n
            &&& i < regs.len()
            &&& regs[i] % stride != 0
            &&& forall|t: int| 0 <= t < i ==> #[trigger] regs[t] % stride == 0
        },
        first_misaligned(regs, n, stride) is None ==> forall|t: int|
            0 <= t < n && t < regs.len() ==> #[trigger] regs[t] % stride == 0,
    decreases n,
{
    if n > 0 {
        lemma_first_misaligned(regs, n - 1, stride);
    }
}

/// Validates a cache setup in order: no cache needs no checks; a default table and its count
/// must come together; the stride must be nonzero; the first `num_reg_defaults` default
/// registers must be aligned to it; then the type is matched. A nonempty `default_regs`
/// stands for a present table.
pub fn validate_selection(
    cache_type: u8,
    reg_stride: u32,
    default_regs: &[u32],
    num_reg_defaults: usize,
) -> (r: Result<Option<CacheBackend>, SelectionError>)
    ensures
        r == (if cache_type == 0 {
            Ok(None)
        } else if default_regs@.len() != 0 && num_reg_defaults == 0 {
            Err(SelectionError::DefaultsWithoutCount)
        } else if num_reg_defaults != 0 && default_regs@.len() == 0 {
            Err(SelectionError::DefaultsCountWithoutTable)
        } else if reg_stride == 0 {
            Err(SelectionError::ZeroRegisterStride)
        } else {
            match first_misaligned(default_regs@, num_reg_defaults as int, reg_stride) {
                Some(i) => Err(
                    SelectionError::DefaultRegisterMisaligned {
                        reg: default_regs@[i],
                        stride: reg_stride,
                    },
                ),
                None => spec_select(cache_type),
            }
        }),
{
    if cache_type == 0 {
        return Ok(None);
    }
    if default_regs.len() != 0 && num_reg_defaults == 0 {
        return Err(SelectionError::DefaultsWithoutCount);
    }
    if num_reg_defaults != 0 && default_regs.len() == 0 {
        return Err(SelectionError::DefaultsCountWithoutTable);
    }
    if reg_stride == 0 {
        return Err(SelectionError::ZeroRegisterStride);
    }
    let limit: usize = if num_reg_defaults < default_regs.len() {
        num_reg_defaults
    } else {
        default_regs.len()
    };
    let mut i: usize = 0;
    while i < limit
        invariant
            i <= limit,
            limit <= default_regs@.len(),
            limit <= num_reg_defaults,
            limit == num_reg_defaults || limit == default_regs@.len(),
            reg_stride != 0,
            cache_type != 0,
            !(default_regs@.len() != 0 && num_reg_defaults == 0),
            !(num_reg_defaults != 0 && default_regs@.len() == 0),
            first_misaligned(default_regs@, i as int, reg_stride) is None,
        decreases limit - i,
    {
        let reg = default_regs[i];
        if reg % reg_stride != 0 {
            proof {
                assert(first_misaligned(default_regs@, i + 1, reg_stride) == Some(i as int));
                lemma_first_misaligned_stable(default_regs@, i + 1, num_reg_defaults as int, reg_stride);
            }
            return Err(SelectionError::DefaultRegisterMisaligned { reg, stride: reg_stride });
        }
        i = i + 1;
    }
    proof {
        lemma_first_misaligned_past_end(default_regs@, limit as int, num_reg_defaults as int, reg_stride);
    }
    select_cache_type(cache_type)
}

proof fn lemma_first_misaligned_stable(regs: Seq<u32>, m: int, n: int, stride: u32)
    requires
        0 <= m <= n,
        first_misaligned(regs, m, stride) is Some,
    ensures
        first_misaligned(regs, n, stride) == first_misaligned(regs, m, stride),
    decreases n - m,
{
    if n > m {
        lemma_first_misaligned_stable(regs, m, n - 1, stride);
    }
}

proof fn lemma_first_misaligned_past_end(regs: Seq<u32>, m: int, n: int, stride: u32)
    requires
        0 <= m <= n,
        m == n || m == regs.len(),
        first_misaligned(regs, m, stride) is None,
    ensures
        first_misaligned(regs, n, stride) is None,
    decreases n - m,
{
    if n > m {
        lemma_first_misaligned_past_end(regs, m, n - 1, stride);
    }
}

} // verus!
