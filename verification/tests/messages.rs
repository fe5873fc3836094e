use coral_drivers::regmap_cache::cache::CacheError;
use coral_drivers::regmap_cache::format::{Endian, FormatError};
use coral_drivers::regmap_regcache::defaults::DefaultError;
use coral_drivers::regmap_regcache::index::IndexError;
use coral_drivers::regmap_regcache::selection::SelectionError;
use coral_drivers::regmap_regcache::sync::SyncError;

#[test]
fn refusal_messages_name_the_rejected_values() {
    assert_eq!(
        FormatError::ValueOutOfRange { field: "register", value: 4, bits: 2 }.message(),
        "regmap register value 0x4 refused: maximum for 2 bits is 0x3"
    );
    assert_eq!(
        FormatError::ValueOutOfRange { field: "value", value: 0xdead_beef, bits: 40 }.message(),
        "regmap value value 0xdeadbeef refused: maximum for 40 bits is 0xffffffff"
    );
    assert_eq!(
        FormatError::UnsupportedEndian { bits: 24, endian: Endian::Little }.message(),
        "regmap formatter refused Little endian for 24 bits"
    );
    assert_eq!(
        FormatError::BufferTooSmall { supplied: 0, required: 1 }.message(),
        "regmap byte buffer refused 0 bytes: at least 1 bytes are required"
    );
    assert_eq!(
        FormatError::ShiftOutOfRange { shift: 8, width: 8 }.message(),
        "regmap shift 8 refused: it must be smaller than the 8-bit word"
    );
    assert_eq!(
        IndexError::RangeReversed { min: 0x14, max: 0x8 }.message(),
        "regcache range refused 0x14..=0x8: minimum exceeds maximum"
    );
    assert_eq!(
        IndexError::BlockTopOverflow { base: 0xffff_fff0, len: 5, stride: 4 }.message(),
        "rbtree block refused base 0xfffffff0, length 5, stride 4: top register overflows u32"
    );
    assert_eq!(
        DefaultError::RawIndexOutOfRange { index: 2, count: 2 }.message(),
        "raw register-default lookup refused index 2: defaults_raw contains 2 values"
    );
    assert_eq!(
        SelectionError::DefaultRegisterMisaligned { reg: 6, stride: 4 }.message(),
        "regcache initialization refused default register 0x6: it is not aligned to stride 4"
    );
    assert_eq!(
        SyncError::OutputTooSmall { supplied: 1, required: 2 }.message(),
        "regcache sync plan refused output capacity 1: 2 writes are required"
    );
    assert_eq!(
        CacheError::BypassRefusedWhileCacheOnly.message(),
        "cache bypass refused: cache-only mode is already enabled"
    );
}

#[test]
fn numbers_in_messages_match_standard_formatting() {
    for v in [0u32, 1, 9, 10, 15, 16, 255, 4096, 99_999, 0x1234_abcd, u32::MAX] {
        assert_eq!(
            SelectionError::DefaultRegisterMisaligned { reg: v, stride: v }.message(),
            format!("regcache initialization refused default register {v:#x}: it is not aligned to stride {v}")
        );
    }
    for n in [0usize, 7, 10, 123_456, usize::MAX] {
        assert_eq!(
            SyncError::OutputTooSmall { supplied: n, required: n }.message(),
            format!("regcache sync plan refused output capacity {n}: {n} writes are required")
        );
    }
}
