//! Register defaults: sorting, lookup, and the precedence of their three sources.

use vstd::prelude::*;
use vstd::string::StringExecFns;
use crate::text::{dec_digits, hex_text, push_decimal, push_hex};
use vstd::seq_lib::to_multiset_contains;
use crate::regmap_regcache::order::{
    RegKeyed, sorted_by_reg, stable_sort, sort_range_by_reg, lemma_stable_sort_sorted,
    lemma_stable_sort_permutes,
};

verus! {

/// One power-on default: a register and its value.
#[derive(Debug, Clone, Copy, PartialEq, Eq)]
pub struct RegDefault {
    pub reg: u32,
    pub def: u32,
}

impl RegKeyed for RegDefault {
    open spec fn reg_key(&self) -> u32 {
        self.reg
    }

    fn key(&self) -> (k: u32) {
        self.reg
    }
}

/// Which source supplied a default.
#[derive(Debug, Clone, Copy, PartialEq, Eq)]
pub enum DefaultSource {
    RegDefaults,
    DefaultsRaw,
    DefaultRegFallback,
}

/// A default value and the source it came from.
#[derive(Debug, Clone, Copy, PartialEq, Eq)]
pub struct DefaultValue {
    pub value: u32,
    pub source: DefaultSource,
}

/// Names of the default sources, in lookup order: the table, then the raw values, then the
/// fallback.
pub const DEFAULT_SOURCE_NAMES: [&'static str; 3] = [
    "reg_defaults",
    "defaults_raw",
    "default_reg_fallback",
];

/// Refusals of a raw-default lookup.
#[derive(Debug, Clone, Copy, PartialEq, Eq)]
pub enum DefaultError {
    ZeroStride,
    RegisterNotStrideAligned { reg: u32, stride: u32 },
    RawIndexOutOfRange { index: usize, count: usize },
}

impl DefaultError {
    /// The refusal as text.
    pub open spec fn spec_message(self) -> Seq<char> {
        match self {
            DefaultError::ZeroStride => "register-default lookup refused stride 0: stride must be nonzero"@,
            DefaultError::RegisterNotStrideAligned { reg, stride } => "register-default lookup refused register "@ + hex_text(reg as nat) + ": it is not aligned to stride "@ + dec_digits(stride as nat),
            DefaultError::RawIndexOutOfRange { index, count } => "raw register-default lookup refused index "@ + dec_digits(index as nat) + ": defaults_raw contains "@ + dec_digits(count as nat) + " values"@,
        }
    }

    /// Describes the refusal in words, naming the rejected values.
    pub fn message(&self) -> (s: String)
        ensures
            s@ == self.spec_message(),
    {
        match *self {
            DefaultError::ZeroStride => {
                let mut s = String::new();
                s.append("register-default lookup refused stride 0: stride must be nonzero");
                s
            },
            DefaultError::RegisterNotStrideAligned { reg, stride } => {
                let mut s = String::new();
                s.append("register-default lookup refused register ");
                push_hex(&mut s, reg as u64);
                s.append(": it is not aligned to stride ");
                push_decimal(&mut s, stride as u64);
                s
            },
            DefaultError::RawIndexOutOfRange { index, count } => {
                let mut s = String::new();
                s.append("raw register-default lookup refused index ");
                push_decimal(&mut s, index as u64);
                s.append(": defaults_raw contains ");
                push_decimal(&mut s, count as u64);
                s.append(" values");
                s
            },
        }
    }
}

/// Whether some entry of `s` is for register `reg`.
pub open spec fn has_reg(s: Seq<RegDefault>, reg: u32) -> bool {
    exists|i: int| 0 <= i < s.len() && s[i].reg == reg
}

/// Sorts the defaults by ascending register; entries for the same register keep their order.
pub fn sort_defaults(defaults: &mut [RegDefault])
    ensures
        final(defaults)@ == stable_sort(old(defaults)@),
        sorted_by_reg(final(defaults)@),
        final(defaults)@.to_multiset() == old(defaults)@.to_multiset(),
{
    let len = defaults.len();
    sort_range_by_reg(defaults, 0, len);
    proof {
        assert(old(defaults)@.subrange(0, len as int) =~= old(defaults)@);
        assert(defaults@.subrange(0, len as int) =~= defaults@);
        lemma_stable_sort_sorted(old(defaults)@);
        lemma_stable_sort_permutes(old(defaults)@);
    }
}

/// Binary search of a table sorted by register. A found index is always one for `reg`; on a
/// sorted table the search finds one whenever the table lists `reg`.
pub fn lookup_reg_default(defaults: &[RegDefault], reg: u32) -> (r: Option<usize>)
    ensures
        r matches Some(i) ==> i < defaults@.len() && defaults@[i as int].reg == reg,
        sorted_by_reg(defaults@) ==> (r is None <==> !has_reg(defaults@, reg)),
{
    let mut lo: usize = 0;
    let mut hi: usize = defaults.len();
    while lo < hi
        invariant
            lo <= hi <= defaults@.len(),
            sorted_by_reg(defaults@) ==> forall|i: int|
                0 <= i < lo ==> #[trigger] defaults@[i].reg < reg,
            sorted_by_reg(defaults@) ==> forall|i: int|
                hi <= i < defaults@.len() ==> #[trigger] defaults@[i].reg > reg,
        decreases hi - lo,
    {
        let mid = lo + (hi - lo) / 2;
        let m = defaults[mid].reg;
        if m == reg {
            return Some(mid);
        } else if m < reg {
            proof {
                if sorted_by_reg(defaults@) {
                    assert forall|i: int| 0 <= i < mid + 1 implies #[trigger] defaults@[i].reg
                        < reg by {
                        assert(defaults@[i].reg_key() <= defaults@[mid as int].reg_key());
                    }
                }
            }
            lo = mid + 1;
        } else {
            proof {
                if sorted_by_reg(defaults@) {
                    assert forall|i: int| mid <= i < defaults@.len() implies #[trigger] defaults@[i].reg
                        > reg by {
                        assert(defaults@[mid as int].reg_key() <= defaults@[i].reg_key());
                    }
                }
            }
            hi = mid;
        }
    }
    None
}

/// The default when the table has no answer: the raw value at `reg / stride` when raw
/// values are given (refusing a zero stride, an unaligned register, or an index past the
/// raw values), else the fallback, else none.
pub open spec fn spec_untabled_default(
    reg: u32,
    stride: u32,
    raw: Option<Seq<u32>>,
    fallback: Option<u32>,
) -> Result<Option<DefaultValue>, DefaultError> {
    match raw {
        Some(raw) => if stride == 0 {
            Err(DefaultError::ZeroStride)
        } else if reg % stride != 0 {
            Err(DefaultError::RegisterNotStrideAligned { reg, stride })
        } else if reg / stride >= raw.len() {
            Err(
                DefaultError::RawIndexOutOfRange {
                    index: (reg / stride) as usize,
                    count: raw.len() as usize,
                },
            )
        } else {
            Ok(
                Some(
                    DefaultValue { value: raw[(reg / stride) as int], source: DefaultSource::DefaultsRaw },
                ),
            )
        },
        None => match fallback {
            Some(v) => Ok(Some(DefaultValue { value: v, source: DefaultSource::DefaultRegFallback })),
            None => Ok(None),
        },
    }
}

/// Whether the lookup was answered from the table.
pub open spec fn from_table(r: Result<Option<DefaultValue>, DefaultError>) -> bool {
    r matches Ok(Some(v)) && v.source is RegDefaults
}

/// The raw slice's contents, if given.
pub open spec fn raw_view(raw: Option<&[u32]>) -> Option<Seq<u32>> {
    match raw {
        Some(s) => Some(s@),
        None => None,
    }
}

/// Resolves a register's default: the sorted table first, then the raw values, then the
/// fallback. A register the (sorted) table lists is answered from it whatever the other
/// sources hold.
pub fn lookup_default(
    reg: u32,
    stride: u32,
    reg_defaults: &[RegDefault],
    defaults_raw: Option<&[u32]>,
    default_reg_fallback: Option<u32>,
) -> (r: Result<Option<DefaultValue>, DefaultError>)
    ensures
        from_table(r) ==> exists|i: int|
            0 <= i < reg_defaults@.len() && reg_defaults@[i].reg == reg && r == Ok::<
                Option<DefaultValue>,
                DefaultError,
            >(Some(DefaultValue { value: reg_defaults@[i].def, source: DefaultSource::RegDefaults })),
        sorted_by_reg(reg_defaults@) ==> (from_table(r) <==> has_reg(reg_defaults@, reg)),
        !from_table(r) ==> r == spec_untabled_default(
            reg,
            stride,
            raw_view(defaults_raw),
            default_reg_fallback,
        ),
{
    match lookup_reg_default(reg_defaults, reg) {
        Some(index) => {
            return Ok(
                Some(DefaultValue { value: reg_defaults[index].def, source: DefaultSource::RegDefaults }),
            );
        },
        None => {},
    }
    match defaults_raw {
        Some(raw) => {
            if stride == 0 {
                return Err(DefaultError::ZeroStride);
            }
            if reg % stride != 0 {
                return Err(DefaultError::RegisterNotStrideAligned { reg, stride });
            }
            let index = (reg / stride) as usize;
            if index >= raw.len() {
                return Err(DefaultError::RawIndexOutOfRange { index, count: raw.len() });
            }
            Ok(Some(DefaultValue { value: raw[index], source: DefaultSource::DefaultsRaw }))
        },
        None => match default_reg_fallback {
            Some(value) => Ok(Some(DefaultValue { value, source: DefaultSource::DefaultRegFallback })),
            None => Ok(None),
        },
    }
}

/// Sorting keeps every register a table lists and adds none, and leaves the table sorted, so
/// the search finds a register in the sorted table exactly when the table listed it before.
pub proof fn lemma_sorted_defaults_are_found(before: Seq<RegDefault>, reg: u32)
    ensures
        sorted_by_reg(stable_sort(before)),
        has_reg(stable_sort(before), reg) <==> has_reg(before, reg),
{
    let after = stable_sort(before);
    lemma_stable_sort_sorted(before);
    lemma_stable_sort_permutes(before);
    if has_reg(before, reg) {
        let i = choose|i: int| 0 <= i < before.len() && before[i].reg == reg;
        to_multiset_contains(before, before[i]);
        to_multiset_contains(after, before[i]);
        let j = choose|j: int| 0 <= j < after.len() && after[j] == before[i];
        assert(after[j].reg == reg);
    }
    if has_reg(after, reg) {
        let j = choose|j: int| 0 <= j < after.len() && after[j].reg == reg;
        to_multiset_contains(after, after[j]);
        to_multiset_contains(before, after[j]);
        let i = choose|i: int| 0 <= i < before.len() && before[i] == after[j];
        assert(before[i].reg == reg);
    }
}

} // verus!
