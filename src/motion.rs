use vstd::prelude::*;

verus! {

/// Velocity steps per simulation pixel per second. Finer than positions, so
/// that a normalized diagonal stays within a few hundred-thousandths of a
/// pixel per second of the speed.
pub const VELOCITY_STEPS_PER_PIXEL: u32 = 65536;

/// Speed of the controlled entity: 100 simulation pixels per second, in
/// velocity steps.
pub const PLAYER_SPEED: u32 = 100 * VELOCITY_STEPS_PER_PIXEL;

/// Which of the four movement keys are held this frame.
#[derive(Clone, Copy, Debug, PartialEq, Eq, Structural)]
pub struct MovementKeys {
    pub up: bool,
    pub down: bool,
    pub left: bool,
    pub right: bool,
}

/// A linear velocity, in velocity steps (`VELOCITY_STEPS_PER_PIXEL` per
/// simulation pixel) per second.
#[derive(Clone, Copy, Debug, PartialEq, Eq, Structural)]
pub struct Velocity {
    pub x: i64,
    pub y: i64,
}

/// +1, -1 or 0 along one axis: the positive key counts +1, the negative -1.
pub open spec fn axis(negative: bool, positive: bool) -> int {
    (if positive {
        1int
    } else {
        0int
    }) - (if negative {
        1int
    } else {
        0int
    })
}

/// Horizontal component of the raw direction: right minus left.
pub open spec fn dir_x(keys: MovementKeys) -> int {
    axis(keys.left, keys.right)
}

/// Vertical component of the raw direction: up minus down.
pub open spec fn dir_y(keys: MovementKeys) -> int {
    axis(keys.down, keys.up)
}

/// Squared length of a velocity.
pub open spec fn magnitude_squared(v: Velocity) -> int {
    v.x * v.x + v.y * v.y
}

/// `d` is the component of a diagonal of length `speed` rounded down: the
/// largest `d` with `d * sqrt(2) <= speed`.
pub open spec fn is_diagonal_component(speed: int, d: int) -> bool {
    &&& d >= 0
    &&& 2 * d * d <= speed * speed
    &&& speed * speed < 2 * (d + 1) * (d + 1)
}

/// The component on each axis of a diagonal movement at `speed`.
pub fn diagonal_component(speed: u32) -> (d: u32)
    ensures
        is_diagonal_component(speed as int, d as int),
        d <= speed,
{
    let s: u128 = speed as u128;
    proof {
        assert(s * s <= 0x1_0000_0000u128 * 0x1_0000_0000u128) by (nonlinear_arith)
            requires
                s <= u32::MAX,
        ;
    }
    let target: u128 = s * s;
    let mut lo: u128 = 0;
    let mut hi: u128 = s + 1;
    proof {
        assert(2 * (s + 1) * (s + 1) > s * s) by (nonlinear_arith);
    }
    while hi - lo > 1
        invariant
            lo < hi <= s + 1,
            s <= u32::MAX,
            target == s * s,
            2 * lo * lo <= target,
            2 * hi * hi > target,
        decreases hi - lo,
    {
        let mid: u128 = lo + (hi - lo) / 2;
        proof {
            assert(mid * mid <= (s + 1) * (s + 1)) by (nonlinear_arith)
                requires
                    mid <= s + 1,
            ;
            assert((s + 1) * (s + 1) <= 0x1_0000_0000u128 * 0x1_0000_0000u128) by (nonlinear_arith)
                requires
                    s <= u32::MAX,
            ;
        }
        let sq: u128 = mid * mid;
        assert(2 * mid * mid == 2 * sq) by (nonlinear_arith)
            requires
                sq == mid * mid,
        ;
        if 2 * sq <= target {
            lo = mid;
        } else {
            hi = mid;
        }
    }
    proof {
        if lo > s {
            assert(2 * lo * lo > s * s) by (nonlinear_arith)
                requires
                    lo > s,
            ;
        }
    }
    lo as u32
}

/// The velocity for the held keys: the direction normalized to `speed`, or
/// zero where no key is held or opposite keys cancel.
pub open spec fn spec_velocity_shape(keys: MovementKeys, speed: int, v: Velocity) -> bool {
    if dir_x(keys) == 0 || dir_y(keys) == 0 {
        v.x == dir_x(keys) * speed && v.y == dir_y(keys) * speed
    } else {
        exists|d: int|
            is_diagonal_component(speed, d) && v.x == dir_x(keys) * d && v.y == dir_y(keys) * d
    }
}

/// The velocity that the controlled entity is given for the held keys. Its
/// length is zero when the direction is zero, exactly `speed` along an axis,
/// and on a diagonal the largest that does not exceed `speed`: then each
/// component is the normalized one rounded down by less than a step, and the
/// length falls short of `speed` by less than three steps.
pub fn movement_velocity(keys: MovementKeys, speed: u32) -> (v: Velocity)
    ensures
        spec_velocity_shape(keys, speed as int, v),
        dir_x(keys) == 0 && dir_y(keys) == 0 ==> magnitude_squared(v) == 0,
        (dir_x(keys) == 0) != (dir_y(keys) == 0) ==> magnitude_squared(v) == speed * speed,
        magnitude_squared(v) <= speed * speed,
        dir_x(keys) != 0 || dir_y(keys) != 0 ==> speed * speed < magnitude_squared(v) + 4 * speed
            + 2,
        (dir_x(keys) != 0 || dir_y(keys) != 0) && speed >= 6 ==> (speed - 3) * (speed - 3)
            < magnitude_squared(v),
{
    let dx: i64 = (if keys.right {
        1i64
    } else {
        0i64
    }) - (if keys.left {
        1i64
    } else {
        0i64
    });
    let dy: i64 = (if keys.up {
        1i64
    } else {
        0i64
    }) - (if keys.down {
        1i64
    } else {
        0i64
    });
    let s: i64 = speed as i64;
    if dx == 0 || dy == 0 {
        let v = Velocity { x: dx * s, y: dy * s };
        proof {
            if dx == 0 && dy == 0 {
                assert(magnitude_squared(v) == 0) by (nonlinear_arith)
                    requires
                        v.x == dx * s,
                        v.y == dy * s,
                        dx == 0,
                        dy == 0,
                ;
            } else {
                assert(magnitude_squared(v) == s * s) by (nonlinear_arith)
                    requires
                        v.x == dx * s,
                        v.y == dy * s,
                        dx == 0 || dy == 0,
                        dx != 0 || dy != 0,
                        -1 <= dx <= 1,
                        -1 <= dy <= 1,
                ;
            }
        }
        assert((speed - 3) * (speed - 3) == speed * speed - 6 * speed + 9) by (nonlinear_arith);
        v
    } else {
        let d: u32 = diagonal_component(speed);
        let di: i64 = d as i64;
        assert(-di <= dx * di <= di && -di <= dy * di <= di) by (nonlinear_arith)
            requires
                dx == 1 || dx == -1,
                dy == 1 || dy == -1,
                di >= 0,
        ;
        let v = Velocity { x: dx * di, y: dy * di };
        proof {
            assert(magnitude_squared(v) == 2 * di * di) by (nonlinear_arith)
                requires
                    v.x == dx * di,
                    v.y == dy * di,
                    dx == 1 || dx == -1,
                    dy == 1 || dy == -1,
            ;
            assert(is_diagonal_component(speed as int, di as int));
            assert(speed * speed < magnitude_squared(v) + 4 * speed + 2) by (nonlinear_arith)
                requires
                    magnitude_squared(v) == 2 * di * di,
                    speed * speed < 2 * (di + 1) * (di + 1),
                    0 <= di <= speed,
            ;
        }
        assert((speed - 3) * (speed - 3) == speed * speed - 6 * speed + 9) by (nonlinear_arith);
        v
    }
}

} // verus!
