//! Capability detection and the `TCR_EL1` update that switches the hardware
//! management of access flag and dirty state on or off.

use vstd::prelude::*;

verus! {

/// `ID_AA64MMFR1_EL1.HAFDBS[1]`: set where the CPU can manage the dirty state.
pub const DBM_AVAILABLE: u64 = 0x2;

/// `TCR_EL1.{HA,HD}`, bits 39 and 40: together they ask the CPU to manage
/// the access flag and the dirty state.
pub const TCR_EL1_HA_HD_BITS: u64 = 0x0000_0180_0000_0000;

/// Whether hardware dirty state management can be used: the build opted in
/// and the CPU reports the capability.
pub open spec fn available(feature_enabled: bool, id_aa64mmfr1_el1: u64) -> bool {
    feature_enabled && id_aa64mmfr1_el1 & DBM_AVAILABLE != 0
}

/// Returns `true` if hardware dirty state management is available, given
/// whether the build opted in and the value read from `ID_AA64MMFR1_EL1`.
pub fn dbm_available(feature_enabled: bool, id_aa64mmfr1_el1: u64) -> (yes: bool)
    ensures
        yes == available(feature_enabled, id_aa64mmfr1_el1),
{
    if !feature_enabled {
        return false;
    }
    id_aa64mmfr1_el1 & DBM_AVAILABLE != 0
}

/// One thing that the toggle asks the CPU to do.
#[derive(Clone, Copy, Debug, PartialEq, Eq, Structural)]
pub enum SysRegOp {
    /// Write the value to `TCR_EL1`.
    WriteTcrEl1(u64),
    /// Execute an instruction synchronization barrier.
    Isb,
}

/// What `set_dbm_enabled` leaves for its caller to carry out.
#[derive(Clone, Copy, Debug, PartialEq, Eq, Structural)]
pub enum TcrUpdate {
    /// Nothing: `TCR_EL1` is not written.
    Unchanged,
    /// Write the value to `TCR_EL1`, then execute an instruction
    /// synchronization barrier, so that later page table walks see
    /// the new setting.
    WriteThenIsb(u64),
}

impl TcrUpdate {
    /// The operations that carry the update out, in program order.
    pub open spec fn ops(self) -> Seq<SysRegOp> {
        match self {
            TcrUpdate::Unchanged => seq![],
            TcrUpdate::WriteThenIsb(tcr) => seq![SysRegOp::WriteTcrEl1(tcr), SysRegOp::Isb],
        }
    }
}

/// `TCR_EL1` after the operations `ops` ran, in order, on a CPU where it
/// held `tcr`.
pub open spec fn tcr_after(ops: Seq<SysRegOp>, tcr: u64) -> u64
    decreases ops.len(),
{
    if ops.len() == 0 {
        tcr
    } else {
        match ops.first() {
            SysRegOp::WriteTcrEl1(value) => tcr_after(ops.drop_first(), value),
            SysRegOp::Isb => tcr_after(ops.drop_first(), tcr),
        }
    }
}

/// `tcr` with the HA and HD bits both set or both cleared, and every other
/// bit as it was.
pub open spec fn with_ha_hd(tcr: u64, enabled: bool) -> u64 {
    if enabled {
        tcr | TCR_EL1_HA_HD_BITS
    } else {
        tcr & !TCR_EL1_HA_HD_BITS
    }
}

/// The update that the toggle asks for: none where the feature is not
/// available, else a write of `TCR_EL1` with HA and HD switched.
pub open spec fn toggle(
    feature_enabled: bool,
    id_aa64mmfr1_el1: u64,
    tcr_el1: u64,
    enabled: bool,
) -> TcrUpdate {
    if available(feature_enabled, id_aa64mmfr1_el1) {
        TcrUpdate::WriteThenIsb(with_ha_hd(tcr_el1, enabled))
    } else {
        TcrUpdate::Unchanged
    }
}

/// Sets whether the hardware management of access and dirty state is enabled
/// with the given boolean.
///
/// `id_aa64mmfr1_el1` and `tcr_el1` are the values read from the two system
/// registers; `feature_enabled` tells whether the build opted in. The caller
/// carries out the update that is returned.
pub fn set_dbm_enabled(
    feature_enabled: bool,
    id_aa64mmfr1_el1: u64,
    tcr_el1: u64,
    enabled: bool,
) -> (update: TcrUpdate)
    ensures
        update == toggle(feature_enabled, id_aa64mmfr1_el1, tcr_el1, enabled),
        !feature_enabled || id_aa64mmfr1_el1 & DBM_AVAILABLE == 0 ==> update
            == TcrUpdate::Unchanged,
        feature_enabled && id_aa64mmfr1_el1 & DBM_AVAILABLE != 0 && enabled ==> update
            == TcrUpdate::WriteThenIsb(tcr_el1 | TCR_EL1_HA_HD_BITS),
        feature_enabled && id_aa64mmfr1_el1 & DBM_AVAILABLE != 0 && !enabled ==> update
            == TcrUpdate::WriteThenIsb(tcr_el1 & !TCR_EL1_HA_HD_BITS),
{
    if !dbm_available(feature_enabled, id_aa64mmfr1_el1) {
        return TcrUpdate::Unchanged;
    }
    let mut tcr: u64 = tcr_el1;
    if enabled {
        tcr |= TCR_EL1_HA_HD_BITS
    } else {
        tcr &= !TCR_EL1_HA_HD_BITS
    };
    TcrUpdate::WriteThenIsb(tcr)
}

/// Running an update leaves in `TCR_EL1` the value that the update writes,
/// or the old value where it writes none.
pub proof fn lemma_tcr_after_update(update: TcrUpdate, tcr: u64)
    ensures
        tcr_after(update.ops(), tcr) == match update {
            TcrUpdate::Unchanged => tcr,
            TcrUpdate::WriteThenIsb(value) => value,
        },
{
    match update {
        TcrUpdate::Unchanged => {},
        TcrUpdate::WriteThenIsb(value) => {
            let ops = update.ops();
            let rest = ops.drop_first();
            assert(rest =~= seq![SysRegOp::Isb]);
            assert(rest.drop_first() =~= Seq::<SysRegOp>::empty());
            reveal_with_fuel(tcr_after, 3);
        },
    }
}

/// On a CPU that does not report the capability, and in a build that did not
/// opt in, the toggle writes nothing: `TCR_EL1` keeps every bit, whichever
/// way the switch is thrown.
pub proof fn lemma_unavailable_keeps_tcr(
    feature_enabled: bool,
    id_aa64mmfr1_el1: u64,
    tcr_el1: u64,
    enabled: bool,
)
    requires
        !feature_enabled || id_aa64mmfr1_el1 & DBM_AVAILABLE == 0,
    ensures
        toggle(feature_enabled, id_aa64mmfr1_el1, tcr_el1, enabled) == TcrUpdate::Unchanged,
        tcr_after(toggle(feature_enabled, id_aa64mmfr1_el1, tcr_el1, enabled).ops(), tcr_el1)
            == tcr_el1,
{
    lemma_tcr_after_update(TcrUpdate::Unchanged, tcr_el1);
}

/// On a capable CPU the toggle touches bits 39 and 40 and no other: enabling
/// leaves `tcr | (3 << 39)` in `TCR_EL1`, disabling leaves `tcr & !(3 << 39)`.
pub proof fn lemma_toggle_isolates_ha_hd(id_aa64mmfr1_el1: u64, tcr_el1: u64, enabled: bool)
    requires
        id_aa64mmfr1_el1 & DBM_AVAILABLE != 0,
    ensures
        ({
            let after = tcr_after(toggle(true, id_aa64mmfr1_el1, tcr_el1, enabled).ops(), tcr_el1);
            &&& enabled ==> after == tcr_el1 | (3u64 << 39)
            &&& !enabled ==> after == tcr_el1 & !(3u64 << 39)
            &&& after & !(3u64 << 39) == tcr_el1 & !(3u64 << 39)
            &&& enabled ==> after & (3u64 << 39) == 3u64 << 39
            &&& !enabled ==> after & (3u64 << 39) == 0
        }),
{
    let after = with_ha_hd(tcr_el1, enabled);
    lemma_tcr_after_update(TcrUpdate::WriteThenIsb(after), tcr_el1);
    assert(TCR_EL1_HA_HD_BITS == 3u64 << 39) by (bit_vector);
    let bits = 3u64 << 39;
    assert((tcr_el1 | bits) & !bits == tcr_el1 & !bits) by (bit_vector);
    assert((tcr_el1 | bits) & bits == bits) by (bit_vector);
    assert((tcr_el1 & !bits) & !bits == tcr_el1 & !bits) by (bit_vector);
    assert((tcr_el1 & !bits) & bits == 0) by (bit_vector);
}

/// Throwing the switch twice the same way leaves `TCR_EL1` as throwing it
/// once does.
pub proof fn lemma_toggle_idempotent(
    feature_enabled: bool,
    id_aa64mmfr1_el1: u64,
    tcr_el1: u64,
    enabled: bool,
)
    ensures
        ({
            let once = tcr_after(
                toggle(feature_enabled, id_aa64mmfr1_el1, tcr_el1, enabled).ops(),
                tcr_el1,
            );
            let twice = tcr_after(
                toggle(feature_enabled, id_aa64mmfr1_el1, once, enabled).ops(),
                once,
            );
            twice == once
        }),
{
    let first = toggle(feature_enabled, id_aa64mmfr1_el1, tcr_el1, enabled);
    lemma_tcr_after_update(first, tcr_el1);
    let once = tcr_after(first.ops(), tcr_el1);
    let second = toggle(feature_enabled, id_aa64mmfr1_el1, once, enabled);
    lemma_tcr_after_update(second, once);
    let bits = TCR_EL1_HA_HD_BITS;
    assert((tcr_el1 | bits) | bits == tcr_el1 | bits) by (bit_vector);
    assert((tcr_el1 & !bits) & !bits == tcr_el1 & !bits) by (bit_vector);
}

/// Every write to `TCR_EL1` that the toggle asks for is followed at once by
/// an instruction synchronization barrier.
pub proof fn lemma_barrier_follows_write(
    feature_enabled: bool,
    id_aa64mmfr1_el1: u64,
    tcr_el1: u64,
    enabled: bool,
)
    ensures
        ({
            let ops = toggle(feature_enabled, id_aa64mmfr1_el1, tcr_el1, enabled).ops();
            forall|i: int|
                0 <= i < ops.len() && #[trigger] ops[i] is WriteTcrEl1 ==> i + 1 < ops.len()
                    && ops[i + 1] == SysRegOp::Isb
        }),
{
}

} // verus!
