use vstd::prelude::*;

verus! {

/// Number of position subunits in one world unit.  The classic match is
/// described in world units (an arena of 600 by 400, a ball of 15 by 15);
/// positions and sizes are stored in subunits so that every computation of
/// the core is exact integer arithmetic.
pub const UNIT: i64 = 1_000_000;

/// A velocity component of `VEL_UNIT` subunits per millisecond covers one
/// world unit per second.
pub const VEL_UNIT: i64 = 1_000;

/// Denominator of the speed-up factor: a factor of `PERMILLE` leaves the
/// velocity unchanged, a factor of `11 * PERMILLE / 10` grows it by a tenth.
pub const PERMILLE: i64 = 1_000;

/// Largest magnitude a configured position or box size may have.
pub const POS_LIMIT: i64 = 1_000_000_000_000_000;

/// Largest magnitude a velocity component may have at the start of a tick.
pub const VEL_LIMIT: i64 = 1_000_000_000;

/// Largest elapsed time one tick may cover, in milliseconds.
pub const DT_LIMIT: i64 = 100_000_000;

/// Largest speed-up factor, in permille.
pub const FACTOR_LIMIT: i64 = 1_000_000;

/// Largest magnitude a ball coordinate can reach right after integration:
/// `POS_LIMIT + VEL_LIMIT * DT_LIMIT`.
pub const MOVED_LIMIT: i64 = 101_000_000_000_000_000;

/// Largest coordinate magnitude the overlap test accepts; wide enough for
/// any position produced by one integration step.
pub const GEOM_LIMIT: i64 = 1_000_000_000_000_000_000;

} // verus!
