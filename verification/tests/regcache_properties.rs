use coral_drivers::regmap_regcache::defaults::{lookup_reg_default, sort_defaults, RegDefault};
use coral_drivers::regmap_regcache::index::{
    flat_entry_count, rbtree_block_top, rbtree_range_indices, IndexError, IndexRange,
};
use coral_drivers::regmap_regcache::selection::{validate_selection, CacheBackend};
use coral_drivers::regmap_regcache::sync::{
    plan_full_sync, plan_region_sync, CachedRegister, DirtyState, PatchWrite, SyncError,
    SyncWrite, SyncWriteSource,
};

fn cached(reg: u32, value: u32) -> CachedRegister {
    CachedRegister { reg, value: Some(value), present: true, writeable: true, volatile: false }
}

const BLANK: SyncWrite = SyncWrite { reg: 0xdead, value: 0xbeef, source: SyncWriteSource::Patch };

#[test]
fn sorting_defaults_orders_registers_and_keeps_every_entry() {
    let mut d = [
        RegDefault { reg: 9, def: 1 },
        RegDefault { reg: 3, def: 2 },
        RegDefault { reg: 9, def: 3 },
        RegDefault { reg: 0, def: 4 },
        RegDefault { reg: 3, def: 5 },
    ];
    sort_defaults(&mut d);
    assert_eq!(
        d,
        [
            RegDefault { reg: 0, def: 4 },
            RegDefault { reg: 3, def: 2 },
            RegDefault { reg: 3, def: 5 },
            RegDefault { reg: 9, def: 1 },
            RegDefault { reg: 9, def: 3 },
        ]
    );
    let mut empty: [RegDefault; 0] = [];
    sort_defaults(&mut empty);
}

#[test]
fn a_sorted_table_is_searched_for_every_register_it_lists() {
    let table: Vec<RegDefault> = (0..50u32).map(|i| RegDefault { reg: i * 4, def: i }).collect();
    for i in 0..50u32 {
        let found = lookup_reg_default(&table, i * 4).unwrap();
        assert_eq!(table[found].reg, i * 4);
        assert_eq!(lookup_reg_default(&table, i * 4 + 1), None);
    }
    assert_eq!(lookup_reg_default(&[], 0), None);
}

#[test]
fn a_block_top_past_the_register_space_is_refused() {
    assert_eq!(rbtree_block_top(0xffff_ffef, 5, 4), Ok(0xffff_ffff));
    assert_eq!(
        rbtree_block_top(0xffff_fff0, 5, 4),
        Err(IndexError::BlockTopOverflow { base: 0xffff_fff0, len: 5, stride: 4 })
    );
    assert_eq!(
        rbtree_block_top(0, usize::MAX, 2),
        Err(IndexError::BlockTopOverflow { base: 0, len: usize::MAX, stride: 2 })
    );
    assert_eq!(rbtree_block_top(0x20, 1, 0), Err(IndexError::ZeroStride));
    assert_eq!(flat_entry_count(7, 40), Err(IndexError::StrideOrderOutOfRange { order: 40 }));
}

#[test]
fn a_range_that_meets_a_block_gives_a_nonempty_slot_range_inside_it() {
    for min in (0x10u32..0x40).step_by(3) {
        for max in (min..0x48).step_by(5) {
            match rbtree_range_indices(0x20, 5, 4, min, max).unwrap() {
                Some(IndexRange { start, end }) => assert!(start < end && end <= 5),
                None => assert!(max < 0x20 || min > 0x30),
            }
        }
    }
}

#[test]
fn only_the_counted_defaults_are_checked_for_alignment() {
    assert_eq!(validate_selection(2, 4, &[0, 6], 1), Ok(Some(CacheBackend::Flat)));
    assert_eq!(validate_selection(1, 4, &[8], 3), Ok(Some(CacheBackend::Rbtree)));
}

#[test]
fn equal_registers_keep_their_cache_order_in_a_plan() {
    let state = DirtyState { cache_dirty: true, no_sync_defaults: false };
    let cache = [cached(8, 1), cached(4, 2), cached(8, 3), cached(0, 4)];
    let mut out = [BLANK; 6];
    let used = plan_full_sync(state, &[PatchWrite { reg: 100, value: 7 }], &cache, &[], 8, &mut out).unwrap();
    assert_eq!(used, 5);
    let regs_values: Vec<(u32, u32)> = out[1..used].iter().map(|w| (w.reg, w.value)).collect();
    assert_eq!(regs_values, [(0, 4), (4, 2), (8, 1), (8, 3)]);
    assert_eq!(out[0], SyncWrite { reg: 100, value: 7, source: SyncWriteSource::Patch });
    assert_eq!(out[5], BLANK);
}

#[test]
fn a_refused_region_plan_leaves_the_buffer_alone() {
    let state = DirtyState { cache_dirty: true, no_sync_defaults: false };
    let cache = [cached(4, 1), cached(8, 2)];
    let mut out = [BLANK; 1];
    assert_eq!(
        plan_region_sync(state, 0, 8, &cache, &[], &mut out),
        Err(SyncError::OutputTooSmall { supplied: 1, required: 2 })
    );
    assert_eq!(out, [BLANK]);
    assert_eq!(
        plan_region_sync(state, 9, 8, &cache, &[], &mut out),
        Err(SyncError::RangeReversed { min: 9, max: 8 })
    );
    assert_eq!(
        plan_region_sync(DirtyState::default(), 0, 8, &cache, &[], &mut out),
        Ok(0)
    );
    assert_eq!(out, [BLANK]);
}

#[test]
fn a_value_equal_to_its_reset_default_is_skipped_after_a_reset() {
    let state = DirtyState { cache_dirty: true, no_sync_defaults: true };
    let defaults = [RegDefault { reg: 0, def: 5 }, RegDefault { reg: 4, def: 6 }];
    let cache = [cached(4, 6), cached(0, 9), cached(12, 6)];
    let mut out = [BLANK; 3];
    let used = plan_full_sync(state, &[], &cache, &defaults, 0x100, &mut out).unwrap();
    assert_eq!(used, 2);
    assert_eq!((out[0].reg, out[0].value), (0, 9));
    assert_eq!((out[1].reg, out[1].value), (12, 6));
}
