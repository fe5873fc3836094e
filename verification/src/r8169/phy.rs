//! Paged PHY access: the modify convention, the indirect parameter file, and the RTL8168g
//! configuration sequence written in them.

use vstd::prelude::*;

verus! {

/// One paged PHY operation.
#[derive(Debug, Clone, Copy, PartialEq, Eq)]
pub enum PhyOp {
    /// Switch to `page`, remembering the old one.
    SelectPage(u16),
    /// Write a register.
    Write { reg: u16, val: u16 },
    /// Read, clear the `mask` bits, set the `set` bits, write.
    Modify { reg: u16, mask: u16, set: u16 },
    /// Return to the page selected before.
    RestorePage,
}

/// Read-modify-write arithmetic: clear the mask bits, then set the set bits (set wins).
pub fn apply_modify(current: u16, mask: u16, set: u16) -> (value: u16)
    ensures
        value == (current & !mask) | set,
{
    (current & !mask) | set
}

/// The indirect parameter file lives on page 0x0a43: register 0x13 selects a parameter and
/// register 0x14 holds its value.
pub const PARAM_PAGE: u16 = 0x0a43;
pub const PARAM_SELECT_REG: u16 = 0x13;
pub const PARAM_VALUE_REG: u16 = 0x14;

/// A parameter write: select the page, write the selector, modify the value, restore the page.
pub open spec fn spec_param_sequence(parm: u16, mask: u16, set: u16) -> Seq<PhyOp> {
    seq![
        PhyOp::SelectPage(PARAM_PAGE),
        PhyOp::Write { reg: PARAM_SELECT_REG, val: parm },
        PhyOp::Modify { reg: PARAM_VALUE_REG, mask, set },
        PhyOp::RestorePage,
    ]
}

/// The four operations of a parameter write, in order.
pub fn param_sequence(parm: u16, mask: u16, set: u16) -> (ops: [PhyOp; 4])
    ensures
        ops@ == spec_param_sequence(parm, mask, set),
{
    let ops = [
        PhyOp::SelectPage(PARAM_PAGE),
        PhyOp::Write { reg: PARAM_SELECT_REG, val: parm },
        PhyOp::Modify { reg: PARAM_VALUE_REG, mask, set },
        PhyOp::RestorePage,
    ];
    assert(ops@ =~= spec_param_sequence(parm, mask, set));
    ops
}

/// One entry of a paged sequence: modify `reg` on `page`.
#[derive(Debug, Clone, Copy, PartialEq, Eq)]
pub struct PagedModify {
    pub page: u16,
    pub reg: u16,
    pub mask: u16,
    pub set: u16,
}

/// The 10 Mbit ALDPS adjustment, as data. The third entry is an indirect parameter write on
/// [`PARAM_PAGE`], recorded with its parameter number in `reg`.
pub open spec fn spec_adjust_10m_aldps() -> Seq<PagedModify> {
    seq![
        PagedModify { page: 0x0bcc, reg: 0x14, mask: 0x0100, set: 0 },
        PagedModify { page: 0x0a44, reg: 0x11, mask: 0, set: 0x00c0 },
        PagedModify { page: PARAM_PAGE, reg: 0x8084, mask: 0x6000, set: 0x0000 },
        PagedModify { page: 0x0a43, reg: 0x10, mask: 0x0000, set: 0x1003 },
    ]
}

/// The 10 Mbit ALDPS adjustment.
pub fn adjust_10m_aldps() -> (seq: [PagedModify; 4])
    ensures
        seq@ == spec_adjust_10m_aldps(),
{
    let s = [
        PagedModify { page: 0x0bcc, reg: 0x14, mask: 0x0100, set: 0 },
        PagedModify { page: 0x0a44, reg: 0x11, mask: 0, set: 0x00c0 },
        PagedModify { page: PARAM_PAGE, reg: 0x8084, mask: 0x6000, set: 0x0000 },
        PagedModify { page: 0x0a43, reg: 0x10, mask: 0x0000, set: 0x1003 },
    ];
    assert(s@ =~= spec_adjust_10m_aldps());
    s
}

/// Disabling ALDPS clears bit 2 of 0x0a43:0x10.
pub fn disable_aldps() -> (m: PagedModify)
    ensures
        m == (PagedModify { page: 0x0a43, reg: 0x10, mask: 0x0004, set: 0 }),
{
    PagedModify { page: 0x0a43, reg: 0x10, mask: 0x0004, set: 0 }
}

/// The 8168g EEE PHY configuration sets bit 4 of 0x0a43:0x11.
pub fn config_eee_phy() -> (m: PagedModify)
    ensures
        m == (PagedModify { page: 0x0a43, reg: 0x11, mask: 0, set: 0x0010 }),
{
    PagedModify { page: 0x0a43, reg: 0x11, mask: 0, set: 0x0010 }
}

/// What the 8168h adds to the EEE configuration: bit 9 of 0x0a4a:0x11 and bit 7 of 0x0a42:0x14.
pub fn config_eee_phy_8168h_extra() -> (ms: [PagedModify; 2])
    ensures
        ms@ == seq![
            PagedModify { page: 0x0a4a, reg: 0x11, mask: 0x0000, set: 0x0200 },
            PagedModify { page: 0x0a42, reg: 0x14, mask: 0x0000, set: 0x0080 },
        ],
{
    let ms = [
        PagedModify { page: 0x0a4a, reg: 0x11, mask: 0x0000, set: 0x0200 },
        PagedModify { page: 0x0a42, reg: 0x14, mask: 0x0000, set: 0x0080 },
    ];
    assert(ms@ =~= seq![
        PagedModify { page: 0x0a4a, reg: 0x11, mask: 0x0000, set: 0x0200 },
        PagedModify { page: 0x0a42, reg: 0x14, mask: 0x0000, set: 0x0080 },
    ]);
    ms
}

/// The page-select register.
pub const PAGE_SELECT_REG: u16 = 0x1f;

/// The "Improve SWR Efficiency" block: ten raw writes, in order, including a deliberate pulse of
/// bit 15 on register 0x14, ending on page 0.
pub const SWR_EFFICIENCY: [(u16, u16); 10] = [
    (0x1f, 0x0bcd),
    (0x14, 0x5065),
    (0x14, 0xd065),
    (0x1f, 0x0bc8),
    (0x11, 0x5655),
    (0x1f, 0x0bcd),
    (0x14, 0x1065),
    (0x14, 0x9065),
    (0x14, 0x1065),
    (0x1f, 0x0000),
];

/// One access to a PHY, as recorded by a [`Phy`].
#[derive(Debug, Clone, Copy, PartialEq, Eq)]
pub enum PhyEvent {
    Read { page: u16, reg: u16, got: u16 },
    Modify { page: u16, reg: u16, mask: u16, set: u16 },
    Write { reg: u16, val: u16 },
}

/// The accesses made to a PHY, oldest first.
pub type PhyTrace = Seq<PhyEvent>;

/// A PHY the configuration talks to, supplied by the caller. Each access is recorded, in order,
/// in `trace`.
pub trait Phy {
    /// Every access made so far, oldest first.
    spec fn trace(&self) -> PhyTrace;

    /// Read `reg` on `page`, restoring the previous page.
    fn read_paged(&mut self, page: u16, reg: u16) -> (got: u16)
        ensures
            final(self).trace() == old(self).trace().push(PhyEvent::Read { page, reg, got }),
    ;

    /// Read-modify-write `reg` on `page`.
    fn modify_paged(&mut self, page: u16, reg: u16, mask: u16, set: u16)
        ensures
            final(self).trace() == old(self).trace().push(
                PhyEvent::Modify { page, reg, mask, set },
            ),
    ;

    /// A bare write against the current page.
    fn write(&mut self, reg: u16, val: u16)
        ensures
            final(self).trace() == old(self).trace().push(PhyEvent::Write { reg, val }),
    ;
}

/// How a parameter-file step is carried out: page selection and restoration are raw writes of
/// the page register (restoring to page 0), the value modify is a paged modify on
/// [`PARAM_PAGE`].
pub open spec fn step_event(step: PhyOp) -> PhyEvent {
    match step {
        PhyOp::SelectPage(p) => PhyEvent::Write { reg: PAGE_SELECT_REG, val: p },
        PhyOp::Write { reg, val } => PhyEvent::Write { reg, val },
        PhyOp::Modify { reg, mask, set } => PhyEvent::Modify { page: PARAM_PAGE, reg, mask, set },
        PhyOp::RestorePage => PhyEvent::Write { reg: PAGE_SELECT_REG, val: 0 },
    }
}

/// The events of a run of parameter-file steps.
pub open spec fn steps_events(steps: Seq<PhyOp>) -> Seq<PhyEvent>
    decreases steps.len(),
{
    if steps.len() == 0 {
        Seq::empty()
    } else {
        steps_events(steps.drop_last()).push(step_event(steps.last()))
    }
}

/// The events of one entry of a paged sequence: an entry on the parameter page whose register
/// number exceeds 0xff is a parameter write; any other entry is one paged modify.
pub open spec fn entry_events(e: PagedModify) -> Seq<PhyEvent> {
    if e.page == PARAM_PAGE && e.reg > 0xff {
        steps_events(spec_param_sequence(e.reg, e.mask, e.set))
    } else {
        seq![PhyEvent::Modify { page: e.page, reg: e.reg, mask: e.mask, set: e.set }]
    }
}

/// The events of a run of paged-sequence entries.
pub open spec fn entries_events(es: Seq<PagedModify>) -> Seq<PhyEvent>
    decreases es.len(),
{
    if es.len() == 0 {
        Seq::empty()
    } else {
        entries_events(es.drop_last()) + entry_events(es.last())
    }
}

/// The events of a run of raw writes.
pub open spec fn writes_events(ws: Seq<(u16, u16)>) -> Seq<PhyEvent>
    decreases ws.len(),
{
    if ws.len() == 0 {
        Seq::empty()
    } else {
        writes_events(ws.drop_last()).push(PhyEvent::Write { reg: ws.last().0, val: ws.last().1 })
    }
}

/// The whole RTL8168g configuration, given the two values it reads back.
///
/// Bit 8 of 0x0a46:0x10 set CLEARS bit 15 of 0x0bcc:0x12 (clear sets it); bit 8 of 0x0a46:0x13
/// set SETS bit 1 of 0x0c41:0x15 (clear clears it). Then auto speed down, the 10 Mbit ALDPS
/// adjustment, EEE auto-fallback, the UC LPF parameter, the one modify that clears bit 13 and
/// sets bit 14 of 0x0c42:0x11, the SWR block, and finally ALDPS disable and the EEE PHY
/// configuration.
pub open spec fn spec_hw_phy_config_events(first: u16, second: u16) -> Seq<PhyEvent> {
    seq![
        PhyEvent::Read { page: 0x0a46, reg: 0x10, got: first },
        if first & 0x0100 != 0 {
            PhyEvent::Modify { page: 0x0bcc, reg: 0x12, mask: 0x8000, set: 0 }
        } else {
            PhyEvent::Modify { page: 0x0bcc, reg: 0x12, mask: 0, set: 0x8000 }
        },
        PhyEvent::Read { page: 0x0a46, reg: 0x13, got: second },
        if second & 0x0100 != 0 {
            PhyEvent::Modify { page: 0x0c41, reg: 0x15, mask: 0, set: 0x0002 }
        } else {
            PhyEvent::Modify { page: 0x0c41, reg: 0x15, mask: 0x0002, set: 0 }
        },
        PhyEvent::Modify { page: 0x0a44, reg: 0x11, mask: 0, set: 0x000c },
    ] + entries_events(spec_adjust_10m_aldps()) + seq![
        PhyEvent::Modify { page: 0x0a4b, reg: 0x11, mask: 0, set: 0x0004 },
    ] + steps_events(spec_param_sequence(0x8012, 0x0000, 0x8000)) + seq![
        PhyEvent::Modify { page: 0x0c42, reg: 0x11, mask: 0x2000, set: 0x4000 },
    ] + writes_events(SWR_EFFICIENCY@) + seq![
        PhyEvent::Modify { page: 0x0a43, reg: 0x10, mask: 0x0004, set: 0 },
        PhyEvent::Modify { page: 0x0a43, reg: 0x11, mask: 0, set: 0x0010 },
    ]
}

fn apply_step<P: Phy>(phy: &mut P, step: PhyOp)
    ensures
        final(phy).trace() == old(phy).trace().push(step_event(step)),
{
    match step {
        PhyOp::SelectPage(p) => phy.write(PAGE_SELECT_REG, p),
        PhyOp::Write { reg, val } => phy.write(reg, val),
        PhyOp::Modify { reg, mask, set } => phy.modify_paged(PARAM_PAGE, reg, mask, set),
        PhyOp::RestorePage => phy.write(PAGE_SELECT_REG, 0x0000),
    }
}

fn apply_param<P: Phy>(phy: &mut P, parm: u16, mask: u16, set: u16)
    ensures
        final(phy).trace() == old(phy).trace() + steps_events(spec_param_sequence(parm, mask, set)),
{
    let steps = param_sequence(parm, mask, set);
    let ghost t0 = phy.trace();
    let mut i: usize = 0;
    while i < 4
        invariant
            0 <= i <= 4,
            steps@ == spec_param_sequence(parm, mask, set),
            phy.trace() == t0 + steps_events(steps@.take(i as int)),
        decreases 4 - i,
    {
        apply_step(phy, steps[i]);
        proof {
            assert(steps@.take(i + 1).drop_last() =~= steps@.take(i as int));
            assert(steps@.take(i + 1).last() == steps@[i as int]);
        }
        i = i + 1;
    }
    assert(steps@.take(4) =~= steps@);
}

fn apply_entry<P: Phy>(phy: &mut P, op: PagedModify)
    ensures
        final(phy).trace() == old(phy).trace() + entry_events(op),
{
    if op.page == PARAM_PAGE && op.reg > 0xff {
        apply_param(phy, op.reg, op.mask, op.set);
    } else {
        phy.modify_paged(op.page, op.reg, op.mask, op.set);
        assert(phy.trace() =~= old(phy).trace() + entry_events(op));
    }
}

/// The RTL8168g configuration sequence.
pub fn rtl8168g_1_hw_phy_config<P: Phy>(phy: &mut P)
    ensures
        exists|first: u16, second: u16|
            final(phy).trace() == old(phy).trace() + #[trigger] spec_hw_phy_config_events(
                first,
                second,
            ),
{
    let ghost t0 = phy.trace();
    let v = phy.read_paged(0x0a46, 0x10);
    let first = v;
    if v & 0x0100 != 0 {
        phy.modify_paged(0x0bcc, 0x12, 0x8000, 0);
    } else {
        phy.modify_paged(0x0bcc, 0x12, 0, 0x8000);
    }
    let v = phy.read_paged(0x0a46, 0x13);
    let second = v;
    if v & 0x0100 != 0 {
        phy.modify_paged(0x0c41, 0x15, 0, 0x0002);
    } else {
        phy.modify_paged(0x0c41, 0x15, 0x0002, 0);
    }
    phy.modify_paged(0x0a44, 0x11, 0, 0x000c);
    let ghost t1 = phy.trace();
    let table = adjust_10m_aldps();
    let mut i: usize = 0;
    while i < 4
        invariant
            0 <= i <= 4,
            table@ == spec_adjust_10m_aldps(),
            phy.trace() == t1 + entries_events(table@.take(i as int)),
        decreases 4 - i,
    {
        apply_entry(phy, table[i]);
        proof {
            assert(table@.take(i + 1).drop_last() =~= table@.take(i as int));
            assert(table@.take(i + 1).last() == table@[i as int]);
        }
        i = i + 1;
    }
    assert(table@.take(4) =~= table@);
    phy.modify_paged(0x0a4b, 0x11, 0, 0x0004);
    apply_param(phy, 0x8012, 0x0000, 0x8000);
    phy.modify_paged(0x0c42, 0x11, 0x2000, 0x4000);
    let ghost t2 = phy.trace();
    let mut k: usize = 0;
    while k < 10
        invariant
            0 <= k <= 10,
            phy.trace() == t2 + writes_events(SWR_EFFICIENCY@.take(k as int)),
        decreases 10 - k,
    {
        let (reg, val) = SWR_EFFICIENCY[k];
        phy.write(reg, val);
        proof {
            assert(SWR_EFFICIENCY@.take(k + 1).drop_last() =~= SWR_EFFICIENCY@.take(k as int));
            assert(SWR_EFFICIENCY@.take(k + 1).last() == SWR_EFFICIENCY@[k as int]);
        }
        k = k + 1;
    }
    assert(SWR_EFFICIENCY@.take(10) =~= SWR_EFFICIENCY@);
    let d = disable_aldps();
    phy.modify_paged(d.page, d.reg, d.mask, d.set);
    let e = config_eee_phy();
    phy.modify_paged(e.page, e.reg, e.mask, e.set);
    proof {
        assert(phy.trace() =~= t0 + spec_hw_phy_config_events(first, second));
    }
}

} // verus!
