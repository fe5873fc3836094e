//! Access-table and readable/writeable/volatile/precious predicate rules.

use vstd::prelude::*;

verus! {

/// An inclusive register range.
#[derive(Debug, Clone, Copy, PartialEq, Eq)]
pub struct Range {
    pub min: u32,
    pub max: u32,
}

/// The caller's answer for an optional callback or table.
#[derive(Debug, Clone, Copy, PartialEq, Eq)]
pub enum Override {
    Absent,
    Answer(bool),
}

/// Inputs shared by the readable and writeable rules.
#[derive(Debug, Clone, Copy, PartialEq, Eq)]
pub struct AccessInput {
    pub reg: u32,
    pub max_register: Option<u32>,
    pub callback: Override,
    pub table: Override,
}

/// Additional inputs to the readable rule.
#[derive(Debug, Clone, Copy, PartialEq, Eq)]
pub struct ReadableInput {
    pub access: AccessInput,
    pub has_reg_read: bool,
    pub has_combined_format_write: bool,
}

/// Inputs to the volatile and precious rules, after the caller computes readability.
#[derive(Debug, Clone, Copy, PartialEq, Eq)]
pub struct SpecialInput {
    pub readable: bool,
    pub has_combined_format_write: bool,
    pub callback: Override,
    pub table: Override,
    pub has_cache_ops: bool,
}

/// Whether `reg` lies in some inclusive range.
pub open spec fn spec_reg_in_ranges(reg: u32, ranges: Seq<Range>) -> bool {
    exists|i: int| 0 <= i < ranges.len() && ranges[i].min <= reg <= #[trigger] ranges[i].max
}

/// Whether `reg` lies in any of the inclusive ranges.
pub fn reg_in_ranges(reg: u32, ranges: &[Range]) -> (found: bool)
    ensures
        found == spec_reg_in_ranges(reg, ranges@),
{
    let mut i: usize = 0;
    while i < ranges.len()
        invariant
            0 <= i <= ranges.len(),
            forall|j: int| 0 <= j < i ==> !(ranges@[j].min <= reg <= #[trigger] ranges@[j].max),
        decreases ranges.len() - i,
    {
        let r = ranges[i];
        if reg >= r.min && reg <= r.max {
            assert(ranges@[i as int].min <= reg <= ranges@[i as int].max);
            return true;
        }
        i = i + 1;
    }
    false
}

/// The access-table rule: a deny range refuses first; no allow ranges means allow everything.
pub open spec fn spec_check_range_table(reg: u32, yes: Seq<Range>, no: Seq<Range>) -> bool {
    !spec_reg_in_ranges(reg, no) && (yes.len() == 0 || spec_reg_in_ranges(reg, yes))
}

/// Apply an access table.
pub fn check_range_table(reg: u32, yes_ranges: &[Range], no_ranges: &[Range]) -> (ok: bool)
    ensures
        ok == spec_check_range_table(reg, yes_ranges@, no_ranges@),
{
    if reg_in_ranges(reg, no_ranges) {
        return false;
    }
    yes_ranges.len() == 0 || reg_in_ranges(reg, yes_ranges)
}

/// The callback's answer if present, else the table's, else `default`.
pub open spec fn spec_answer(callback: Override, table: Override, default: bool) -> bool {
    match callback {
        Override::Answer(a) => a,
        Override::Absent => match table {
            Override::Answer(a) => a,
            Override::Absent => default,
        },
    }
}

fn answer(callback: Override, table: Override, default: bool) -> (a: bool)
    ensures
        a == spec_answer(callback, table, default),
{
    match callback {
        Override::Answer(a) => a,
        Override::Absent => match table {
            Override::Answer(a) => a,
            Override::Absent => default,
        },
    }
}

/// Whether the register lies above a configured maximum.
pub open spec fn spec_above_max(reg: u32, max_register: Option<u32>) -> bool {
    match max_register {
        Some(max) => reg > max,
        None => false,
    }
}

fn above_max(reg: u32, max_register: Option<u32>) -> (above: bool)
    ensures
        above == spec_above_max(reg, max_register),
{
    match max_register {
        Some(max) => reg > max,
        None => false,
    }
}

/// Whether a register is writeable.
pub open spec fn spec_writeable(input: AccessInput) -> bool {
    !spec_above_max(input.reg, input.max_register) && spec_answer(input.callback, input.table, true)
}

/// Whether a register is readable.
pub open spec fn spec_readable(input: ReadableInput) -> bool {
    input.has_reg_read && !spec_above_max(input.access.reg, input.access.max_register)
        && !input.has_combined_format_write && spec_answer(
        input.access.callback,
        input.access.table,
        true,
    )
}

/// The writeable rule: above the maximum is never writeable; then callback, table, and a
/// permissive default.
pub fn writeable(input: AccessInput) -> (w: bool)
    ensures
        w == (!spec_above_max(input.reg, input.max_register) && spec_answer(
            input.callback,
            input.table,
            true,
        )),
        w == spec_writeable(input),
{
    if above_max(input.reg, input.max_register) {
        return false;
    }
    answer(input.callback, input.table, true)
}

/// The readable rule: no read operation, above the maximum, or a combined write format each
/// make a register unreadable; then callback, table, and a permissive default.
pub fn readable(input: ReadableInput) -> (r: bool)
    ensures
        r == (input.has_reg_read && !spec_above_max(input.access.reg, input.access.max_register)
            && !input.has_combined_format_write && spec_answer(
            input.access.callback,
            input.access.table,
            true,
        )),
        r == spec_readable(input),
{
    if !input.has_reg_read || above_max(input.access.reg, input.access.max_register)
        || input.has_combined_format_write {
        return false;
    }
    answer(input.access.callback, input.access.table, true)
}

/// The volatile rule: an unreadable register is not volatile unless the write format is
/// combined; then callback, table, and a default that is volatile only without cache ops.
pub fn volatile(input: SpecialInput) -> (v: bool)
    ensures
        v == ((input.has_combined_format_write || input.readable) && spec_answer(
            input.callback,
            input.table,
            !input.has_cache_ops,
        )),
{
    if !input.has_combined_format_write && !input.readable {
        return false;
    }
    answer(input.callback, input.table, !input.has_cache_ops)
}

/// The precious rule: unreadable is never precious; then callback, table, default false.
pub fn precious(input: SpecialInput) -> (p: bool)
    ensures
        p == (input.readable && spec_answer(input.callback, input.table, false)),
{
    if !input.readable {
        return false;
    }
    answer(input.callback, input.table, false)
}

/// The no-increment rules: callback, table, default true.
pub fn noinc_allowed(callback: Override, table: Override) -> (allowed: bool)
    ensures
        allowed == spec_answer(callback, table, true),
{
    answer(callback, table, true)
}

/// Cache membership: a volatile register is never cached.
pub fn cacheable(has_cache: bool, is_volatile: bool) -> (c: bool)
    ensures
        c == (has_cache && !is_volatile),
{
    has_cache && !is_volatile
}

/// A bulk range is volatile only when every element is volatile (an empty range is).
pub fn volatile_range(flags: &[bool]) -> (all: bool)
    ensures
        all == (forall|i: int| 0 <= i < flags@.len() ==> flags@[i]),
{
    let mut i: usize = 0;
    while i < flags.len()
        invariant
            0 <= i <= flags.len(),
            forall|j: int| 0 <= j < i ==> flags@[j],
        decreases flags.len() - i,
    {
        if !flags[i] {
            return false;
        }
        i = i + 1;
    }
    true
}

/// The maximum register is inclusive: a register at or below it (or any register when there
/// is no maximum) is writeable, and readable when the map has a read operation and no combined
/// write format, unless a callback or, failing one, a table answers otherwise, and then the
/// answer decides; a register above the maximum is neither writeable nor readable, whatever a
/// callback or table says.
pub proof fn lemma_max_register_is_inclusive(input: AccessInput, has_reg_read: bool, has_combined_format_write: bool)
    ensures
        ({
            let r = ReadableInput { access: input, has_reg_read, has_combined_format_write };
            let within = match input.max_register {
                Some(m) => input.reg <= m,
                None => true,
            };
            let decided = match input.callback {
                Override::Answer(a) => a,
                Override::Absent => match input.table {
                    Override::Answer(b) => b,
                    Override::Absent => true,
                },
            };
            &&& within ==> spec_writeable(input) == decided
            &&& within ==> spec_readable(r) == (has_reg_read && !has_combined_format_write && decided)
            &&& !within ==> !spec_writeable(input) && !spec_readable(r)
            &&& (input.max_register == Some(input.reg) && input.callback is Absent && input.table is Absent)
                ==> spec_writeable(input) && spec_readable(r) == (has_reg_read
                && !has_combined_format_write)
        }),
{
}

} // verus!
