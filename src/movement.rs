use vstd::prelude::*;
use crate::geometry::{Position, UNITS_PER_BLOCK};

verus! {

/// Largest per-axis displacement, in sub-units, that is sent as a relative
/// move (eight blocks). A displacement of exactly eight blocks is still relative.
pub const RELATIVE_LIMIT: i64 = 8 * UNITS_PER_BLOCK;

/// How a change of position is announced to observers.
#[derive(Clone, Copy, Debug, PartialEq, Eq, Structural)]
pub enum MoveEncoding {
    /// Per-axis deltas in sub-units, to be added to the previous position.
    Relative { dx: i16, dy: i16, dz: i16 },
    /// The new position is sent whole.
    Absolute,
}

pub open spec fn axis_within(old: i64, new: i64) -> bool {
    -RELATIVE_LIMIT <= new - old <= RELATIVE_LIMIT
}

/// Whether every axis moved by at most the relative limit.
pub open spec fn fits_relative(old: Position, new: Position) -> bool {
    axis_within(old.x, new.x) && axis_within(old.y, new.y) && axis_within(old.z, new.z)
}

/// A delta as carried by the fixed-width field: saturated to `i16`.
pub open spec fn clamp_delta(d: int) -> i16 {
    if d > i16::MAX {
        i16::MAX
    } else if d < i16::MIN {
        i16::MIN
    } else {
        d as i16
    }
}

pub open spec fn encode_spec(old: Position, new: Position) -> MoveEncoding {
    if fits_relative(old, new) {
        MoveEncoding::Relative {
            dx: clamp_delta(new.x - old.x),
            dy: clamp_delta(new.y - old.y),
            dz: clamp_delta(new.z - old.z),
        }
    } else {
        MoveEncoding::Absolute
    }
}

/// The position an observer reconstructs by adding relative deltas to `old`.
pub open spec fn apply_deltas(old: Position, dx: i16, dy: i16, dz: i16) -> (int, int, int) {
    (old.x + dx, old.y + dy, old.z + dz)
}

fn encode_axis(old: i64, new: i64) -> (r: i16)
    requires
        axis_within(old, new),
    ensures
        r == clamp_delta(new - old),
{
    let d = new as i128 - old as i128;
    if d > i16::MAX as i128 {
        i16::MAX
    } else if d < i16::MIN as i128 {
        i16::MIN
    } else {
        d as i16
    }
}

fn within(old: i64, new: i64) -> (r: bool)
    ensures
        r == axis_within(old, new),
{
    let d = new as i128 - old as i128;
    -(RELATIVE_LIMIT as i128) <= d && d <= RELATIVE_LIMIT as i128
}

/// Chooses the encoding of a move from `old` to `new`: relative deltas when no
/// axis moved by more than `RELATIVE_LIMIT`, the absolute position otherwise.
pub fn encode_movement(old: Position, new: Position) -> (r: MoveEncoding)
    ensures
        r == encode_spec(old, new),
{
    if within(old.x, new.x) && within(old.y, new.y) && within(old.z, new.z) {
        MoveEncoding::Relative {
            dx: encode_axis(old.x, new.x),
            dy: encode_axis(old.y, new.y),
            dz: encode_axis(old.z, new.z),
        }
    } else {
        MoveEncoding::Absolute
    }
}

/// A move is encoded relatively exactly when every axis moved by at most
/// eight blocks; any larger displacement on any axis is sent absolutely.
pub proof fn relative_iff_within_limit(old: Position, new: Position)
    ensures
        (encode_spec(old, new) is Relative) <==> fits_relative(old, new),
        (encode_spec(old, new) is Absolute) <==> !fits_relative(old, new),
{
}

/// Adding the relative deltas to the old position gives back the new position
/// to within one sub-unit (1/4096 of a block) on every axis.
pub proof fn relative_round_trip(old: Position, new: Position)
    requires
        fits_relative(old, new),
    ensures
        encode_spec(old, new) matches MoveEncoding::Relative { dx, dy, dz } && {
            let (x, y, z) = apply_deltas(old, dx, dy, dz);
            -1 <= x - new.x <= 1 && -1 <= y - new.y <= 1 && -1 <= z - new.z <= 1
        },
{
}

} // verus!
