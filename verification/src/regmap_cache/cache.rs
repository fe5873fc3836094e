//! Cache-only and bypass decisions, dirty tracking, and sync ordering.

use vstd::prelude::*;
use vstd::string::StringExecFns;
use crate::text::{dec_digits, hex_text, push_decimal, push_hex};

verus! {

/// Operation refusals: a cache-only read with nothing cached, and the two contradictory modes.
#[derive(Debug, Clone, Copy, PartialEq, Eq)]
pub enum CacheError {
    ReadRefusedCacheOnlyMiss,
    CacheOnlyRefusedWhileBypassing,
    BypassRefusedWhileCacheOnly,
}

impl CacheError {
    /// The refusal as text.
    pub open spec fn spec_message(self) -> Seq<char> {
        match self {
            CacheError::ReadRefusedCacheOnlyMiss => "regmap read refused: cache-only mode had no cached value and hardware access is forbidden"@,
            CacheError::CacheOnlyRefusedWhileBypassing => "cache-only mode refused: cache bypass is already enabled"@,
            CacheError::BypassRefusedWhileCacheOnly => "cache bypass refused: cache-only mode is already enabled"@,
        }
    }

    /// Describes the refusal in words, naming the rejected values.
    pub fn message(&self) -> (s: String)
        ensures
            s@ == self.spec_message(),
    {
        match *self {
            CacheError::ReadRefusedCacheOnlyMiss => {
                let mut s = String::new();
                s.append("regmap read refused: cache-only mode had no cached value and hardware access is forbidden");
                s
            },
            CacheError::CacheOnlyRefusedWhileBypassing => {
                let mut s = String::new();
                s.append("cache-only mode refused: cache bypass is already enabled");
                s
            },
            CacheError::BypassRefusedWhileCacheOnly => {
                let mut s = String::new();
                s.append("cache bypass refused: cache-only mode is already enabled");
                s
            },
        }
    }
}

/// Cache mode and dirty flags.
#[derive(Debug, Clone, Copy, PartialEq, Eq, Default)]
pub struct CacheState {
    pub cache_only: bool,
    pub cache_bypass: bool,
    pub dirty: bool,
    pub no_sync_defaults: bool,
}

/// Where a read is served from.
#[derive(Debug, Clone, Copy, PartialEq, Eq)]
pub enum ReadAction {
    ReturnCached(u32),
    ReadHardware { populate_cache: bool },
}

/// What a write touches.
#[derive(Debug, Clone, Copy, PartialEq, Eq)]
pub struct WriteAction {
    pub update_cache: bool,
    pub write_hardware: bool,
    pub mark_dirty: bool,
}

/// The phases of a sync, in order.
#[derive(Debug, Clone, Copy, PartialEq, Eq)]
pub enum SyncStep {
    ApplyPatchBypassed,
    SyncCache,
    RestoreBypass,
    ClearNoSyncDefaults,
    ResyncPageSelectors,
    CompleteAsync,
}

/// Names of the sync phases, in order.
pub const SYNC_STEP_NAMES: [&'static str; 6] = [
    "apply-patch-bypassed",
    "sync-cache",
    "restore-bypass",
    "clear-no-sync-defaults",
    "resync-page-selectors",
    "complete-async",
];

/// The sync order: a dirty cache applies the patch and syncs the cache first; a clean one skips
/// those two, and both then restore bypass, clear the default flag, repair page selectors and
/// complete async writes. The count says how many leading entries are used.
pub open spec fn spec_sync_plan(dirty: bool) -> ([Option<SyncStep>; 6], usize) {
    if dirty {
        (
            [
                Some(SyncStep::ApplyPatchBypassed),
                Some(SyncStep::SyncCache),
                Some(SyncStep::RestoreBypass),
                Some(SyncStep::ClearNoSyncDefaults),
                Some(SyncStep::ResyncPageSelectors),
                Some(SyncStep::CompleteAsync),
            ],
            6,
        )
    } else {
        (
            [
                Some(SyncStep::RestoreBypass),
                Some(SyncStep::ClearNoSyncDefaults),
                Some(SyncStep::ResyncPageSelectors),
                Some(SyncStep::CompleteAsync),
                None,
                None,
            ],
            4,
        )
    }
}

/// The sync phases for a dirty or clean cache.
pub fn sync_plan(dirty: bool) -> (plan: ([Option<SyncStep>; 6], usize))
    ensures
        plan == spec_sync_plan(dirty),
{
    if dirty {
        (
            [
                Some(SyncStep::ApplyPatchBypassed),
                Some(SyncStep::SyncCache),
                Some(SyncStep::RestoreBypass),
                Some(SyncStep::ClearNoSyncDefaults),
                Some(SyncStep::ResyncPageSelectors),
                Some(SyncStep::CompleteAsync),
            ],
            6,
        )
    } else {
        (
            [
                Some(SyncStep::RestoreBypass),
                Some(SyncStep::ClearNoSyncDefaults),
                Some(SyncStep::ResyncPageSelectors),
                Some(SyncStep::CompleteAsync),
                None,
                None,
            ],
            4,
        )
    }
}

/// Whether a cached value must be written: never when unwriteable, always when defaults are
/// not known to be in the hardware, otherwise unless it equals the known default.
pub open spec fn spec_register_needs_sync(
    writeable: bool,
    no_sync_defaults: bool,
    value: u32,
    known_default: Option<u32>,
) -> bool {
    writeable && (!no_sync_defaults || known_default != Some(value))
}

/// Decide whether a cached value needs a hardware sync.
pub fn register_needs_sync(
    writeable: bool,
    no_sync_defaults: bool,
    value: u32,
    known_default: Option<u32>,
) -> (needs: bool)
    ensures
        needs == spec_register_needs_sync(writeable, no_sync_defaults, value, known_default),
{
    if !writeable {
        return false;
    }
    if !no_sync_defaults {
        return true;
    }
    match known_default {
        Some(d) => d != value,
        None => true,
    }
}

/// Sync one cached register: only when nonvolatile, writeable, cached, and not a skippable
/// known default; the value to write.
pub fn sync_register(
    is_volatile: bool,
    writeable: bool,
    cached_value: Option<u32>,
    no_sync_defaults: bool,
    known_default: Option<u32>,
) -> (write: Option<u32>)
    ensures
        write == (if !is_volatile && writeable && cached_value is Some
            && spec_register_needs_sync(writeable, no_sync_defaults, cached_value->0, known_default) {
            cached_value
        } else {
            None
        }),
{
    if is_volatile || !writeable {
        return None;
    }
    let value = match cached_value {
        Some(v) => v,
        None => {
            return None;
        },
    };
    if register_needs_sync(writeable, no_sync_defaults, value, known_default) {
        Some(value)
    } else {
        None
    }
}

/// The read source: a cache hit is returned unless bypassing; a miss in cache-only mode is
/// refused; otherwise hardware is read, populating the cache unless bypassing.
pub open spec fn spec_read_action(state: CacheState, cached: Option<u32>) -> Result<ReadAction, CacheError> {
    if !state.cache_bypass && cached is Some {
        Ok(ReadAction::ReturnCached(cached->0))
    } else if state.cache_only {
        Err(CacheError::ReadRefusedCacheOnlyMiss)
    } else {
        Ok(ReadAction::ReadHardware { populate_cache: !state.cache_bypass })
    }
}

/// Select a read source.
pub fn read_action(state: CacheState, cached: Option<u32>) -> (action: Result<ReadAction, CacheError>)
    ensures
        action == spec_read_action(state, cached),
{
    if !state.cache_bypass {
        if let Some(value) = cached {
            return Ok(ReadAction::ReturnCached(value));
        }
    }
    if state.cache_only {
        return Err(CacheError::ReadRefusedCacheOnlyMiss);
    }
    Ok(ReadAction::ReadHardware { populate_cache: !state.cache_bypass })
}

/// The write effects: bypass writes hardware only; cache-only writes the cache, marks it dirty
/// and leaves hardware alone; otherwise both are written.
pub open spec fn spec_write_action(state: CacheState) -> WriteAction {
    if state.cache_bypass {
        WriteAction { update_cache: false, write_hardware: true, mark_dirty: false }
    } else if state.cache_only {
        WriteAction { update_cache: true, write_hardware: false, mark_dirty: true }
    } else {
        WriteAction { update_cache: true, write_hardware: true, mark_dirty: false }
    }
}

/// Select write effects.
pub fn write_action(state: CacheState) -> (action: WriteAction)
    ensures
        action == spec_write_action(state),
{
    if state.cache_bypass {
        WriteAction { update_cache: false, write_hardware: true, mark_dirty: false }
    } else if state.cache_only {
        WriteAction { update_cache: true, write_hardware: false, mark_dirty: true }
    } else {
        WriteAction { update_cache: true, write_hardware: true, mark_dirty: false }
    }
}

/// Enter or leave cache-only mode; entering is refused while bypassing, leaving the state
/// unchanged.
pub fn set_cache_only(state: &mut CacheState, enable: bool) -> (result: Result<(), CacheError>)
    ensures
        enable && old(state).cache_bypass ==> result == Err::<(), CacheError>(
            CacheError::CacheOnlyRefusedWhileBypassing,
        ) && *final(state) == *old(state),
        !(enable && old(state).cache_bypass) ==> result is Ok && *final(state) == (CacheState {
            cache_only: enable,
            ..*old(state)
        }),
{
    if enable && state.cache_bypass {
        return Err(CacheError::CacheOnlyRefusedWhileBypassing);
    }
    state.cache_only = enable;
    Ok(())
}

/// Enter or leave bypass mode; entering is refused while cache-only, leaving the state
/// unchanged.
pub fn set_cache_bypass(state: &mut CacheState, enable: bool) -> (result: Result<(), CacheError>)
    ensures
        enable && old(state).cache_only ==> result == Err::<(), CacheError>(
            CacheError::BypassRefusedWhileCacheOnly,
        ) && *final(state) == *old(state),
        !(enable && old(state).cache_only) ==> result is Ok && *final(state) == (CacheState {
            cache_bypass: enable,
            ..*old(state)
        }),
{
    if enable && state.cache_only {
        return Err(CacheError::BypassRefusedWhileCacheOnly);
    }
    state.cache_bypass = enable;
    Ok(())
}

/// After a hardware reset or power loss: dirty, and defaults are known to be in the hardware.
pub fn mark_dirty(state: &mut CacheState)
    ensures
        *final(state) == (CacheState { dirty: true, no_sync_defaults: true, ..*old(state) }),
{
    state.dirty = true;
    state.no_sync_defaults = true;
}

/// Finish a sync: dirty clears only on success; the default flag always clears.
pub fn finish_sync(state: &mut CacheState, sync_succeeded: bool)
    ensures
        *final(state) == (CacheState {
            dirty: old(state).dirty && !sync_succeeded,
            no_sync_defaults: false,
            ..*old(state)
        }),
{
    if sync_succeeded {
        state.dirty = false;
    }
    state.no_sync_defaults = false;
}

/// The temporary state of a bypassed read (bypass on, cache-only off) and the state before it, for
/// exact restoration.
pub fn begin_bypassed_read(state: CacheState) -> (states: (CacheState, CacheState))
    ensures
        states.0 == (CacheState { cache_bypass: true, cache_only: false, ..state }),
        states.1 == state,
{
    (CacheState { cache_bypass: true, cache_only: false, ..state }, state)
}

/// The two modes are never both on: from a state where they are not, enabling or disabling
/// either mode, whether accepted or refused, keeps them exclusive.
pub proof fn lemma_modes_stay_exclusive(s: CacheState, enable: bool)
    requires
        !(s.cache_only && s.cache_bypass),
    ensures
        ({
            let after_only = if enable && s.cache_bypass {
                s
            } else {
                CacheState { cache_only: enable, ..s }
            };
            !(after_only.cache_only && after_only.cache_bypass)
        }),
        ({
            let after_bypass = if enable && s.cache_only {
                s
            } else {
                CacheState { cache_bypass: enable, ..s }
            };
            !(after_bypass.cache_only && after_bypass.cache_bypass)
        }),
{
}

} // verus!
