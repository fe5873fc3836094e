//! Dirty tracking, the choice and order of sync writes, and dropping a register range.

use vstd::prelude::*;
use vstd::string::StringExecFns;
use crate::text::{dec_digits, hex_text, push_decimal, push_hex};
use crate::regmap_regcache::defaults::{RegDefault, lookup_reg_default};
use crate::regmap_regcache::order::{
    RegKeyed, sorted_by_reg, stable_sort, sort_range_by_reg, lemma_stable_sort_sorted,
    lemma_stable_sort_len,
};

verus! {

/// The cache's dirty flag and whether values equal to a reset default may be skipped.
#[derive(Debug, Clone, Copy, PartialEq, Eq, Default)]
pub struct DirtyState {
    pub cache_dirty: bool,
    pub no_sync_defaults: bool,
}

/// One cached register as the caller observes it.
#[derive(Debug, Clone, Copy, PartialEq, Eq)]
pub struct CachedRegister {
    pub reg: u32,
    pub value: Option<u32>,
    pub present: bool,
    pub writeable: bool,
    pub volatile: bool,
}

/// One patch write, applied before any cached value.
#[derive(Debug, Clone, Copy, PartialEq, Eq)]
pub struct PatchWrite {
    pub reg: u32,
    pub value: u32,
}

/// One planned hardware write.
#[derive(Debug, Clone, Copy, PartialEq, Eq)]
pub struct SyncWrite {
    pub reg: u32,
    pub value: u32,
    pub source: SyncWriteSource,
}

/// Where a planned write comes from.
#[derive(Debug, Clone, Copy, PartialEq, Eq)]
pub enum SyncWriteSource {
    Patch,
    Cache,
}

/// Names of the write sources.
pub const SYNC_WRITE_SOURCE_NAMES: [&'static str; 2] = ["patch", "cache"];

/// Refusals: a reversed range, or an output buffer too small for the plan.
#[derive(Debug, Clone, Copy, PartialEq, Eq)]
pub enum SyncError {
    RangeReversed { min: u32, max: u32 },
    OutputTooSmall { supplied: usize, required: usize },
}

impl SyncError {
    /// The refusal as text.
    pub open spec fn spec_message(self) -> Seq<char> {
        match self {
            SyncError::RangeReversed { min, max } => "regcache sync/drop range refused "@ + hex_text(min as nat) + "..="@ + hex_text(max as nat) + ": minimum exceeds maximum"@,
            SyncError::OutputTooSmall { supplied, required } => "regcache sync plan refused output capacity "@ + dec_digits(supplied as nat) + ": "@ + dec_digits(required as nat) + " writes are required"@,
        }
    }

    /// Describes the refusal in words, naming the rejected values.
    pub fn message(&self) -> (s: String)
        ensures
            s@ == self.spec_message(),
    {
        match *self {
            SyncError::RangeReversed { min, max } => {
                let mut s = String::new();
                s.append("regcache sync/drop range refused ");
                push_hex(&mut s, min as u64);
                s.append("..=");
                push_hex(&mut s, max as u64);
                s.append(": minimum exceeds maximum");
                s
            },
            SyncError::OutputTooSmall { supplied, required } => {
                let mut s = String::new();
                s.append("regcache sync plan refused output capacity ");
                push_decimal(&mut s, supplied as u64);
                s.append(": ");
                push_decimal(&mut s, required as u64);
                s.append(" writes are required");
                s
            },
        }
    }
}

impl RegKeyed for SyncWrite {
    open spec fn reg_key(&self) -> u32 {
        self.reg
    }

    fn key(&self) -> (k: u32) {
        self.reg
    }
}

/// Records a hardware reset or power loss: the cache is dirty, and values equal to their
/// reset default need not be written back.
pub fn mark_dirty(state: &mut DirtyState)
    ensures
        *final(state) == (DirtyState { cache_dirty: true, no_sync_defaults: true }),
{
    state.cache_dirty = true;
    state.no_sync_defaults = true;
}

/// Ends a full sync: only a successful one clears the dirty flag; default skipping ends
/// either way.
pub fn finish_full_sync(state: &mut DirtyState, sync_succeeded: bool)
    ensures
        final(state).cache_dirty == (old(state).cache_dirty && !sync_succeeded),
        !final(state).no_sync_defaults,
{
    if sync_succeeded {
        state.cache_dirty = false;
    }
    state.no_sync_defaults = false;
}

/// Ends a region sync: the dirty flag stays as it was; default skipping ends.
pub fn finish_region_sync(state: &mut DirtyState)
    ensures
        final(state).cache_dirty == old(state).cache_dirty,
        !final(state).no_sync_defaults,
{
    state.no_sync_defaults = false;
}

/// The table lists `value` as the default of `reg`.
pub open spec fn is_listed_default(d: Seq<RegDefault>, reg: u32, value: u32) -> bool {
    exists|i: int| 0 <= i < d.len() && d[i].reg == reg && d[i].def == value
}

/// A default table the lookup answers exactly: sorted by register, and a register listed
/// more than once always with the same default.
pub open spec fn defaults_consistent(d: Seq<RegDefault>) -> bool {
    &&& sorted_by_reg(d)
    &&& forall|i: int, j: int|
        0 <= i < d.len() && 0 <= j < d.len() && d[i].reg == d[j].reg ==> d[i].def == d[j].def
}

/// Whether the table decides the write exactly: it is not consulted, or it is consistent.
pub open spec fn decided_exactly(no_sync_defaults: bool, d: Seq<RegDefault>) -> bool {
    !no_sync_defaults || defaults_consistent(d)
}

/// A cached value must be written when the register is writeable, unless defaults may be
/// skipped and the value is the register's listed default.
pub open spec fn spec_needs_sync(
    writeable: bool,
    no_sync_defaults: bool,
    reg: u32,
    value: u32,
    d: Seq<RegDefault>,
) -> bool {
    writeable && (!no_sync_defaults || !is_listed_default(d, reg, value))
}

/// Whether one cached value must be written back. On any table a value is skipped only when
/// unwriteable, or when defaults may be skipped and the table lists it for its register.
pub fn register_needs_sync(
    writeable: bool,
    no_sync_defaults: bool,
    reg: u32,
    value: u32,
    defaults: &[RegDefault],
) -> (r: bool)
    ensures
        decided_exactly(no_sync_defaults, defaults@) ==> r == spec_needs_sync(
            writeable,
            no_sync_defaults,
            reg,
            value,
            defaults@,
        ),
        r ==> writeable,
        writeable && !no_sync_defaults ==> r,
        writeable && !r ==> is_listed_default(defaults@, reg, value),
{
    if !writeable {
        return false;
    }
    if !no_sync_defaults {
        return true;
    }
    match lookup_reg_default(defaults, reg) {
        Some(index) => value != defaults[index].def,
        None => true,
    }
}

/// An entry inside `[min, max]` that is present, writeable and not volatile.
pub open spec fn eligible(e: CachedRegister, min: u32, max: u32) -> bool {
    min <= e.reg <= max && !e.volatile && e.writeable && e.present
}

/// The write for one cached entry, if it needs one: it must be eligible, hold a value, and
/// that value must need syncing.
pub open spec fn spec_cache_write(
    e: CachedRegister,
    min: u32,
    max: u32,
    no_sync_defaults: bool,
    d: Seq<RegDefault>,
) -> Option<SyncWrite> {
    if !eligible(e, min, max) {
        None
    } else {
        match e.value {
            None => None,
            Some(v) => if spec_needs_sync(e.writeable, no_sync_defaults, e.reg, v, d) {
                Some(SyncWrite { reg: e.reg, value: v, source: SyncWriteSource::Cache })
            } else {
                None
            },
        }
    }
}

/// The cache writes of `cache`, in cache order.
pub open spec fn cache_writes(
    cache: Seq<CachedRegister>,
    min: u32,
    max: u32,
    no_sync_defaults: bool,
    d: Seq<RegDefault>,
) -> Seq<SyncWrite>
    decreases cache.len(),
{
    if cache.len() == 0 {
        Seq::empty()
    } else {
        let rest = cache_writes(cache.drop_last(), min, max, no_sync_defaults, d);
        match spec_cache_write(cache.last(), min, max, no_sync_defaults, d) {
            Some(w) => rest.push(w),
            None => rest,
        }
    }
}

/// The patch writes, in table order.
pub open spec fn patch_writes(patches: Seq<PatchWrite>) -> Seq<SyncWrite> {
    Seq::new(
        patches.len(),
        |i: int| SyncWrite { reg: patches[i].reg, value: patches[i].value, source: SyncWriteSource::Patch },
    )
}

fn cache_write_for(
    entry: CachedRegister,
    min: u32,
    max: u32,
    no_sync_defaults: bool,
    defaults: &[RegDefault],
) -> (r: Option<SyncWrite>)
    ensures
        decided_exactly(no_sync_defaults, defaults@) ==> r == spec_cache_write(
            entry,
            min,
            max,
            no_sync_defaults,
            defaults@,
        ),
        r matches Some(w) ==> eligible(entry, min, max) && w.source is Cache && w.reg == entry.reg,
{
    if entry.reg < min || entry.reg > max || entry.volatile || !entry.writeable || !entry.present {
        return None;
    }
    let value = match entry.value {
        Some(v) => v,
        None => return None,
    };
    if register_needs_sync(entry.writeable, no_sync_defaults, entry.reg, value, defaults) {
        Some(SyncWrite { reg: entry.reg, value, source: SyncWriteSource::Cache })
    } else {
        None
    }
}

fn collect_cache_writes(
    cache: &[CachedRegister],
    min: u32,
    max: u32,
    no_sync_defaults: bool,
    defaults: &[RegDefault],
) -> (v: Vec<SyncWrite>)
    ensures
        v@.len() <= cache@.len(),
        decided_exactly(no_sync_defaults, defaults@) ==> v@ == cache_writes(
            cache@,
            min,
            max,
            no_sync_defaults,
            defaults@,
        ),
        forall|k: int| 0 <= k < v@.len() ==> (#[trigger] v@[k]).source is Cache,
{
    let mut v: Vec<SyncWrite> = Vec::new();
    let mut i: usize = 0;
    while i < cache.len()
        invariant
            i <= cache@.len(),
            v@.len() <= i,
            decided_exactly(no_sync_defaults, defaults@) ==> v@ == cache_writes(
                cache@.take(i as int),
                min,
                max,
                no_sync_defaults,
                defaults@,
            ),
            forall|k: int| 0 <= k < v@.len() ==> (#[trigger] v@[k]).source is Cache,
        decreases cache@.len() - i,
    {
        proof {
            assert(cache@.take(i + 1).drop_last() =~= cache@.take(i as int));
            assert(cache@.take(i + 1).last() == cache@[i as int]);
        }
        match cache_write_for(cache[i], min, max, no_sync_defaults, defaults) {
            Some(w) => v.push(w),
            None => {},
        }
        i = i + 1;
    }
    proof {
        assert(cache@.take(cache@.len() as int) =~= cache@);
    }
    v
}

/// The full-sync plan of a dirty cache: the patches in table order, then the cache writes
/// over `[0, max_register]` sorted by register (equal registers in cache order).
pub open spec fn spec_full_plan(
    state: DirtyState,
    patches: Seq<PatchWrite>,
    cache: Seq<CachedRegister>,
    d: Seq<RegDefault>,
    max_register: u32,
) -> Seq<SyncWrite> {
    patch_writes(patches) + stable_sort(
        cache_writes(cache, 0, max_register, state.no_sync_defaults, d),
    )
}

/// Plans a full sync into `out`. A clean cache needs no writes. A dirty one writes the
/// patches first, in table order, then every cached value that needs syncing, in ascending
/// register order; a buffer too small for the whole plan is refused untouched. Entries of
/// `out` past the plan are left alone.
pub fn plan_full_sync(
    state: DirtyState,
    patches: &[PatchWrite],
    cache: &[CachedRegister],
    defaults: &[RegDefault],
    max_register: u32,
    out: &mut [SyncWrite],
) -> (r: Result<usize, SyncError>)
    requires
        patches@.len() + cache@.len() <= usize::MAX,
    ensures
        !state.cache_dirty ==> r == Ok::<usize, SyncError>(0) && final(out)@ == old(out)@,
        state.cache_dirty && decided_exactly(state.no_sync_defaults, defaults@) ==> {
            let plan = spec_full_plan(state, patches@, cache@, defaults@, max_register);
            if old(out)@.len() < plan.len() {
                &&& r == Err::<usize, SyncError>(
                    SyncError::OutputTooSmall {
                        supplied: old(out)@.len() as usize,
                        required: plan.len() as usize,
                    },
                )
                &&& final(out)@ == old(out)@
            } else {
                &&& r == Ok::<usize, SyncError>(plan.len() as usize)
                &&& final(out)@.len() == old(out)@.len()
                &&& final(out)@.subrange(0, plan.len() as int) == plan
                &&& final(out)@.subrange(plan.len() as int, old(out)@.len() as int) == old(
                    out,
                )@.subrange(plan.len() as int, old(out)@.len() as int)
            }
        },
        r matches Ok(n) ==> {
            &&& n <= final(out)@.len()
            &&& final(out)@.len() == old(out)@.len()
            &&& state.cache_dirty ==> final(out)@.subrange(0, patches@.len() as int) == patch_writes(
                patches@,
            )
            &&& state.cache_dirty ==> sorted_by_reg(
                final(out)@.subrange(patches@.len() as int, n as int),
            )
        },
{
    if !state.cache_dirty {
        return Ok(0);
    }
    let writes = collect_cache_writes(cache, 0, max_register, state.no_sync_defaults, defaults);
    proof {
        lemma_stable_sort_len(writes@);
    }
    let required = patches.len() + writes.len();
    if out.len() < required {
        return Err(SyncError::OutputTooSmall { supplied: out.len(), required });
    }
    let ghost before = out@;
    let mut used: usize = 0;
    while used < patches.len()
        invariant
            used <= patches@.len(),
            required == patches@.len() + writes@.len(),
            required <= out@.len(),
            out@.len() == before.len(),
            forall|k: int| 0 <= k < used ==> #[trigger] out@[k] == patch_writes(patches@)[k],
            forall|k: int| used <= k < before.len() ==> #[trigger] out@[k] == before[k],
        decreases patches@.len() - used,
    {
        let p = patches[used];
        out[used] = SyncWrite { reg: p.reg, value: p.value, source: SyncWriteSource::Patch };
        used = used + 1;
    }
    let cache_start = used;
    let mut k: usize = 0;
    while k < writes.len()
        invariant
            k <= writes@.len(),
            cache_start == patches@.len(),
            required == patches@.len() + writes@.len(),
            required <= out@.len(),
            out@.len() == before.len(),
            forall|t: int| 0 <= t < cache_start ==> #[trigger] out@[t] == patch_writes(patches@)[t],
            forall|t: int| 0 <= t < k ==> #[trigger] out@[cache_start + t] == writes@[t],
            forall|t: int| cache_start + k <= t < before.len() ==> #[trigger] out@[t] == before[t],
        decreases writes@.len() - k,
    {
        out[cache_start + k] = writes[k];
        k = k + 1;
    }
    let ghost filled = out@;
    sort_range_by_reg(out, cache_start, required);
    proof {
        assert forall|t: int| 0 <= t < writes@.len() implies #[trigger] filled.subrange(
            cache_start as int,
            required as int,
        )[t] == writes@[t] by {
            assert(filled[cache_start + t] == writes@[t]);
        }
        assert(filled.subrange(cache_start as int, required as int) =~= writes@);
        assert(filled.subrange(0, cache_start as int) =~= patch_writes(patches@));
        assert(filled.subrange(required as int, before.len() as int) =~= before.subrange(
            required as int,
            before.len() as int,
        ));
        lemma_stable_sort_sorted(writes@);
        assert(out@.subrange(0, cache_start as int) =~= patch_writes(patches@));
        assert(out@.subrange(0, required as int) =~= patch_writes(patches@) + stable_sort(writes@)) by {
            assert(out@.subrange(0, required as int) =~= out@.subrange(0, cache_start as int)
                + out@.subrange(cache_start as int, required as int));
        }
    }
    Ok(required)
}

/// Plans a sync of the inclusive range `[min, max]` into `out`: a reversed range is refused;
/// a clean cache needs no writes; otherwise every cached value in the range that needs
/// syncing, in ascending register order, with no patches. A buffer too small for the plan is
/// refused untouched.
pub fn plan_region_sync(
    state: DirtyState,
    min: u32,
    max: u32,
    cache: &[CachedRegister],
    defaults: &[RegDefault],
    out: &mut [SyncWrite],
) -> (r: Result<usize, SyncError>)
    ensures
        min > max ==> r == Err::<usize, SyncError>(SyncError::RangeReversed { min, max })
            && final(out)@ == old(out)@,
        min <= max && !state.cache_dirty ==> r == Ok::<usize, SyncError>(0) && final(out)@ == old(
            out,
        )@,
        min <= max && state.cache_dirty && decided_exactly(state.no_sync_defaults, defaults@) ==> {
            let plan = stable_sort(cache_writes(cache@, min, max, state.no_sync_defaults, defaults@));
            if old(out)@.len() < plan.len() {
                &&& r == Err::<usize, SyncError>(
                    SyncError::OutputTooSmall {
                        supplied: old(out)@.len() as usize,
                        required: plan.len() as usize,
                    },
                )
                &&& final(out)@ == old(out)@
            } else {
                &&& r == Ok::<usize, SyncError>(plan.len() as usize)
                &&& final(out)@.len() == old(out)@.len()
                &&& final(out)@.subrange(0, plan.len() as int) == plan
                &&& final(out)@.subrange(plan.len() as int, old(out)@.len() as int) == old(
                    out,
                )@.subrange(plan.len() as int, old(out)@.len() as int)
            }
        },
        r matches Ok(n) ==> {
            &&& n <= final(out)@.len()
            &&& final(out)@.len() == old(out)@.len()
            &&& sorted_by_reg(final(out)@.subrange(0, n as int))
        },
{
    if min > max {
        return Err(SyncError::RangeReversed { min, max });
    }
    if !state.cache_dirty {
        return Ok(0);
    }
    let writes = collect_cache_writes(cache, min, max, state.no_sync_defaults, defaults);
    proof {
        lemma_stable_sort_len(writes@);
    }
    let required = writes.len();
    if out.len() < required {
        return Err(SyncError::OutputTooSmall { supplied: out.len(), required });
    }
    let ghost before = out@;
    let mut k: usize = 0;
    while k < writes.len()
        invariant
            k <= writes@.len(),
            required == writes@.len(),
            required <= out@.len(),
            out@.len() == before.len(),
            forall|t: int| 0 <= t < k ==> #[trigger] out@[t] == writes@[t],
            forall|t: int| k <= t < before.len() ==> #[trigger] out@[t] == before[t],
        decreases writes@.len() - k,
    {
        out[k] = writes[k];
        k = k + 1;
    }
    let ghost filled = out@;
    sort_range_by_reg(out, 0, required);
    proof {
        assert(filled.subrange(0, required as int) =~= writes@);
        assert(filled.subrange(required as int, before.len() as int) =~= before.subrange(
            required as int,
            before.len() as int,
        ));
        lemma_stable_sort_sorted(writes@);
    }
    Ok(required)
}

/// Whether an entry stays present after dropping `[min, max]`.
pub open spec fn kept_after_drop(e: CachedRegister, min: u32, max: u32) -> bool {
    e.present && !(min <= e.reg <= max)
}

/// Drops the inclusive range `[min, max]`: writes into `present_out[i]` whether cache entry
/// `i` stays present. A reversed range, or fewer slots than entries, is refused untouched;
/// slots past the entries are left alone.
pub fn drop_region(min: u32, max: u32, cache: &[CachedRegister], present_out: &mut [bool]) -> (r:
    Result<usize, SyncError>)
    ensures
        min > max ==> r == Err::<usize, SyncError>(SyncError::RangeReversed { min, max })
            && final(present_out)@ == old(present_out)@,
        min <= max && old(present_out)@.len() < cache@.len() ==> r == Err::<usize, SyncError>(
            SyncError::OutputTooSmall {
                supplied: old(present_out)@.len() as usize,
                required: cache@.len() as usize,
            },
        ) && final(present_out)@ == old(present_out)@,
        min <= max && old(present_out)@.len() >= cache@.len() ==> {
            &&& r == Ok::<usize, SyncError>(cache@.len() as usize)
            &&& final(present_out)@.len() == old(present_out)@.len()
            &&& forall|i: int|
                0 <= i < cache@.len() ==> #[trigger] final(present_out)@[i] == kept_after_drop(
                    cache@[i],
                    min,
                    max,
                )
            &&& forall|i: int|
                cache@.len() <= i < old(present_out)@.len() ==> #[trigger] final(present_out)@[i]
                    == old(present_out)@[i]
        },
{
    if min > max {
        return Err(SyncError::RangeReversed { min, max });
    }
    if present_out.len() < cache.len() {
        return Err(SyncError::OutputTooSmall { supplied: present_out.len(), required: cache.len() });
    }
    let ghost before = present_out@;
    let mut i: usize = 0;
    while i < cache.len()
        invariant
            i <= cache@.len(),
            cache@.len() <= present_out@.len(),
            present_out@.len() == before.len(),
            forall|t: int| 0 <= t < i ==> #[trigger] present_out@[t] == kept_after_drop(cache@[t], min, max),
            forall|t: int| i <= t < before.len() ==> #[trigger] present_out@[t] == before[t],
        decreases cache@.len() - i,
    {
        let entry = cache[i];
        present_out[i] = entry.present && !(entry.reg >= min && entry.reg <= max);
        i = i + 1;
    }
    Ok(cache.len())
}

} // verus!
