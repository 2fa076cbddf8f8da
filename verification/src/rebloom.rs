//! Rebloom priority assessment over backend metrics.
//!
//! Metrics arrive on the unit scale and are held in micro-units (the
//! composite score included, unlike the 0 to 100 presentation scale).
//! The priority runs from 1, most distressed and needing immediate
//! cooling, to 5, healthy and needing nothing. A NaN metric satisfies
//! no rule (see `fixed`), so all-NaN metrics fall to the default
//! priority.

use vstd::prelude::*;
use crate::fixed::{ge_micro, gt_micro, le_micro, lt_micro, micro_ge, micro_gt, micro_le, micro_lt};

verus! {

/// Backend metrics snapshot, each field in micro-units of the unit
/// scale.
#[derive(Debug, Clone, Copy, PartialEq, Eq, Structural)]
pub struct Metrics {
    pub scup: i64,
    pub entropy: i64,
    pub heat: i64,
}

/// Priority rules, most urgent first: manic, fragmented, numb,
/// curious, with contemplative stability as the default.
pub open spec fn rebloom_priority_of(m: Metrics) -> int {
    if (micro_gt(m.entropy as int, 800_000) && micro_gt(m.heat as int, 700_000)) || micro_lt(
        m.scup as int,
        200_000,
    ) {
        1
    } else if micro_lt(m.scup as int, 300_000) || (micro_gt(m.entropy as int, 700_000) && micro_gt(
        m.heat as int,
        500_000,
    )) {
        2
    } else if micro_lt(m.heat as int, 200_000) && micro_lt(m.entropy as int, 300_000) && micro_ge(
        m.scup as int,
        300_000,
    ) && micro_le(m.scup as int, 500_000) {
        3
    } else if micro_ge(m.scup as int, 700_000) && micro_ge(m.entropy as int, 400_000) && micro_le(
        m.entropy as int,
        600_000,
    ) && micro_ge(m.heat as int, 400_000) && micro_le(m.heat as int, 600_000) {
        5
    } else {
        4
    }
}

/// Assesses the rebloom priority of a metrics snapshot.
pub fn assess_rebloom_priority(metrics: &Metrics) -> (p: u8)
    ensures
        p == rebloom_priority_of(*metrics),
        1 <= p <= 5,
{
    if (gt_micro(metrics.entropy, 800_000) && gt_micro(metrics.heat, 700_000)) || lt_micro(
        metrics.scup,
        200_000,
    ) {
        1
    } else if lt_micro(metrics.scup, 300_000) || (gt_micro(metrics.entropy, 700_000) && gt_micro(
        metrics.heat,
        500_000,
    )) {
        2
    } else if lt_micro(metrics.heat, 200_000) && lt_micro(metrics.entropy, 300_000) && ge_micro(
        metrics.scup,
        300_000,
    ) && le_micro(metrics.scup, 500_000) {
        3
    } else if ge_micro(metrics.scup, 700_000) && ge_micro(metrics.entropy, 400_000) && le_micro(
        metrics.entropy,
        600_000,
    ) && ge_micro(metrics.heat, 400_000) && le_micro(metrics.heat, 600_000) {
        5
    } else {
        4
    }
}

} // verus!
