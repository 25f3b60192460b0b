use vstd::prelude::*;
use crate::fixed::{add_ticks, clamp, div_toward_zero, div_trunc, mul_rate, sat_i64, saturate_i64};
use crate::game::InputEvent;
use crate::geometry::{px, BoxCollision, SCREEN_HEIGHT, SUBPIXELS_PER_PIXEL};

verus! {

/// Ticks between two frames of the flapping animation.
pub const TICKS_BETWEEN_SPRITES: u64 = 1000;

/// Number of animation frames in the bird's sprite sheet.
pub const SPRITE_FRAMES: u32 = 3;

/// Fixed horizontal position of the bird's sprite, in pixels.
pub const BIRD_X: i64 = 50;

/// Side of the bird's sprite on screen, in pixels.
pub const BIRD_SIZE: i64 = 64;

/// Vertical position of a new bird, in pixels: half a sprite above the
/// middle of the screen.
pub const BIRD_INITIAL_Y: i64 = 268;

/// Lowest vertical position of the bird, in sub-pixels: the sprite rests on
/// the bottom of the screen.
pub const FLOOR_Y: i64 = (SCREEN_HEIGHT - BIRD_SIZE) * SUBPIXELS_PER_PIXEL;

/// Velocity set by a flap, in sub-pixels per microsecond (200 pixels per
/// second upward).
pub const THRUST_VELOCITY: i64 = -200_000_000;

/// Gravity, in sub-pixels per microsecond gained each microsecond (220 pixels
/// per second squared).
pub const GRAVITY: i64 = 220;

/// Tilt change, in micro-degrees per microsecond (25 degrees per second).
pub const ROTATE_SPEED: i64 = 25;

/// Largest tilt either way, in micro-degrees (45 degrees).
pub const MAX_ANGLE: i64 = 45_000_000;

/// Inset of the hitbox from each side of the sprite, in pixels.
pub const HITBOX_INSET: i64 = 16;

/// Width of one animation frame in the sprite sheet, in pixels.
pub const SPRITE_CELL: i32 = 32;

/// The player's bird.
///
/// `y` is the top of the sprite in sub-pixels, `velocity` is in sub-pixels per
/// microsecond (positive is downward) and `angle` is the tilt in
/// micro-degrees (positive is nose down).
#[derive(Clone, Copy, Debug, PartialEq, Eq, Structural)]
pub struct Bird {
    pub tick_of_next_sprite: u64,
    pub sprite_index: u32,
    pub y: i64,
    pub velocity: i64,
    pub angle: i64,
}

/// `a + b` for ticks, saturating at `u64::MAX`.
pub open spec fn tick_sum(a: u64, b: u64) -> u64 {
    if a as int + b as int > u64::MAX {
        u64::MAX
    } else {
        (a + b) as u64
    }
}

/// The animation frame that follows `i`.
pub open spec fn next_frame(i: u32) -> u32 {
    if i >= 2 {
        0
    } else {
        (i + 1) as u32
    }
}

impl Bird {
    /// The animation frame is one of the three in the sheet, the bird is not
    /// below the floor, and the tilt is within 45 degrees either way.
    pub open spec fn wf(&self) -> bool {
        &&& self.sprite_index < SPRITE_FRAMES
        &&& self.y <= FLOOR_Y
        &&& -MAX_ANGLE <= self.angle <= MAX_ANGLE
    }

    /// A bird as created at tick `tick`.
    pub open spec fn initial(tick: u64) -> Bird {
        Bird {
            tick_of_next_sprite: tick_sum(tick, TICKS_BETWEEN_SPRITES),
            sprite_index: 0,
            y: px(BIRD_INITIAL_Y as int) as i64,
            velocity: 0,
            angle: 0,
        }
    }

    /// The velocity after a step of `dt` microseconds.
    pub open spec fn next_velocity(&self, dt: u32) -> int {
        sat_i64(self.velocity + GRAVITY * dt)
    }

    /// The position after a step of `dt` microseconds: moved by the new
    /// velocity, then held above the floor.
    pub open spec fn next_y(&self, dt: u32) -> int {
        let y = sat_i64(self.y + self.next_velocity(dt) * dt);
        if y > FLOOR_Y {
            FLOOR_Y as int
        } else {
            y
        }
    }

    /// The tilt after a step of `dt` microseconds: nose down while falling,
    /// nose up otherwise, limited to 45 degrees either way.
    pub open spec fn next_angle(&self, dt: u32) -> int {
        let a = if self.next_velocity(dt) > 0 {
            self.angle + ROTATE_SPEED * dt
        } else {
            self.angle - ROTATE_SPEED * dt
        };
        clamp(a, -MAX_ANGLE, MAX_ANGLE as int)
    }

    /// The bird after one update at tick `tick` with a step of `dt`
    /// microseconds.
    pub open spec fn after_update(self, tick: u64, dt: u32) -> Bird {
        let advance = tick > self.tick_of_next_sprite;
        Bird {
            tick_of_next_sprite: if advance {
                tick_sum(tick, TICKS_BETWEEN_SPRITES)
            } else {
                self.tick_of_next_sprite
            },
            sprite_index: if advance {
                next_frame(self.sprite_index)
            } else {
                self.sprite_index
            },
            y: self.next_y(dt) as i64,
            velocity: self.next_velocity(dt) as i64,
            angle: self.next_angle(dt) as i64,
        }
    }

    /// The hitbox: the sprite inset by `HITBOX_INSET` pixels on every side.
    pub open spec fn hitbox(&self) -> BoxCollision {
        BoxCollision {
            x1: px(BIRD_X + HITBOX_INSET) as i128,
            y1: (self.y + px(HITBOX_INSET as int)) as i128,
            x2: px(BIRD_X + BIRD_SIZE - HITBOX_INSET) as i128,
            y2: (self.y + px(BIRD_SIZE - HITBOX_INSET)) as i128,
        }
    }

    /// A bird at its starting position, at rest and level, whose animation
    /// next advances after `tick_count`.
    pub fn new(tick_count: u64) -> (r: Bird)
        ensures
            r == Bird::initial(tick_count),
            r.wf(),
    {
        Bird {
            tick_of_next_sprite: add_ticks(tick_count, TICKS_BETWEEN_SPRITES),
            sprite_index: 0,
            y: BIRD_INITIAL_Y * SUBPIXELS_PER_PIXEL,
            velocity: 0,
            angle: 0,
        }
    }

    /// A flap sets the velocity to the thrust velocity, whatever it was;
    /// other events change nothing.
    pub fn event_update(&mut self, event: InputEvent)
        ensures
            *final(self) == (if event == InputEvent::Flap {
                Bird { velocity: THRUST_VELOCITY, ..*old(self) }
            } else {
                *old(self)
            }),
    {
        if let InputEvent::Flap = event {
            self.velocity = THRUST_VELOCITY;
        }
    }

    /// Advances the animation on the tick schedule, then integrates gravity
    /// over `delta_time` microseconds, holds the bird above the floor and
    /// tilts it.
    pub fn update(&mut self, tick_count: u64, delta_time: u32)
        requires
            old(self).wf(),
        ensures
            *final(self) == old(self).after_update(tick_count, delta_time),
            final(self).wf(),
            final(self).y <= FLOOR_Y,
            -MAX_ANGLE <= final(self).angle <= MAX_ANGLE,
            final(self).sprite_index <= 2,
    {
        if tick_count > self.tick_of_next_sprite {
            self.tick_of_next_sprite = add_ticks(tick_count, TICKS_BETWEEN_SPRITES);
            self.sprite_index = if self.sprite_index >= 2 {
                0
            } else {
                self.sprite_index + 1
            };
        }
        self.velocity = saturate_i64(self.velocity as i128 + mul_rate(GRAVITY, delta_time));
        let y = saturate_i64(self.y as i128 + mul_rate(self.velocity, delta_time));
        self.y = if y > FLOOR_Y {
            FLOOR_Y
        } else {
            y
        };
        let turn = mul_rate(ROTATE_SPEED, delta_time);
        let a: i128 = if self.velocity > 0 {
            self.angle as i128 + turn
        } else {
            self.angle as i128 - turn
        };
        self.angle = if a <= -(MAX_ANGLE as i128) {
            -MAX_ANGLE
        } else if a >= MAX_ANGLE as i128 {
            MAX_ANGLE
        } else {
            a as i64
        };
    }

    /// The hitbox at the current position.
    pub fn collision_box(&self) -> (r: BoxCollision)
        ensures
            r == self.hitbox(),
    {
        BoxCollision {
            x1: ((BIRD_X + HITBOX_INSET) * SUBPIXELS_PER_PIXEL) as i128,
            y1: self.y as i128 + (HITBOX_INSET * SUBPIXELS_PER_PIXEL) as i128,
            x2: ((BIRD_X + BIRD_SIZE - HITBOX_INSET) * SUBPIXELS_PER_PIXEL) as i128,
            y2: self.y as i128 + ((BIRD_SIZE - HITBOX_INSET) * SUBPIXELS_PER_PIXEL) as i128,
        }
    }

    /// Left edge, in the sprite sheet, of the animation frame to draw; a frame
    /// index out of range draws the first frame.
    pub fn sprite_source_x(&self) -> (r: i32)
        ensures
            r == (if self.sprite_index < SPRITE_FRAMES { self.sprite_index * SPRITE_CELL } else { 0 }),
    {
        if self.sprite_index < SPRITE_FRAMES {
            self.sprite_index as i32 * SPRITE_CELL
        } else {
            0
        }
    }

    /// Top of the sprite on screen, in whole pixels (rounded toward zero).
    pub fn draw_y(&self) -> (r: i128)
        ensures
            r == div_trunc(self.y as int, SUBPIXELS_PER_PIXEL as int),
    {
        div_toward_zero(self.y, SUBPIXELS_PER_PIXEL)
    }
}

} // verus!

verus! {

/// `b` after `n` updates of `dt` microseconds each at tick `tick`, with no
/// flap in between.
pub open spec fn falling(b: Bird, tick: u64, dt: u32, n: nat) -> Bird
    decreases n,
{
    if n == 0 {
        b
    } else {
        falling(b, tick, dt, (n - 1) as nat).after_update(tick, dt)
    }
}

/// Distance fallen in `n` steps of `dt` microseconds from rest, before the
/// floor stops the bird: the velocity after step `k` is `GRAVITY * dt * k`.
pub open spec fn fallen(dt: int, n: nat) -> int
    decreases n,
{
    if n == 0 {
        0
    } else {
        fallen(dt, (n - 1) as nat) + GRAVITY * dt * n * dt
    }
}

proof fn lemma_fallen_closed_form(dt: int, n: nat)
    ensures
        2 * fallen(dt, n) == GRAVITY * dt * dt * n * (n + 1),
    decreases n,
{
    if n > 0 {
        let m = (n - 1) as nat;
        lemma_fallen_closed_form(dt, m);
        assert(GRAVITY * dt * dt * m * (m + 1) + 2 * (GRAVITY * dt * n * dt) == GRAVITY * dt * dt * n * (n + 1))
            by (nonlinear_arith)
            requires
                m + 1 == n,
        ;
    } else {
        assert(GRAVITY * dt * dt * n * (n + 1) == 0) by (nonlinear_arith)
            requires
                n == 0,
        ;
    }
}

proof fn lemma_fallen_grows(dt: int, n: nat)
    requires
        dt >= 0,
    ensures
        fallen(dt, n) >= 0,
        fallen(dt, n + 1) >= fallen(dt, n),
    decreases n,
{
    assert(GRAVITY * dt * (n + 1) * dt >= 0) by (nonlinear_arith)
        requires
            dt >= 0,
    ;
    if n > 0 {
        lemma_fallen_grows(dt, (n - 1) as nat);
    }
}

/// Falling from rest with no flap: after `n` steps of `dt` microseconds the
/// bird has fallen `GRAVITY * dt^2 * n * (n + 1) / 2` sub-pixels (the discrete
/// form of `GRAVITY * t^2 / 2`), unless the floor stopped it, and its
/// velocity is `GRAVITY * dt * n`.
pub proof fn lemma_fall_from_rest(b: Bird, tick: u64, dt: u32, n: nat)
    requires
        b.wf(),
        b.velocity == 0,
        b.y >= 0,
        GRAVITY * dt * n <= i64::MAX,
    ensures
        2 * fallen(dt as int, n) == GRAVITY * dt * dt * n * (n + 1),
        falling(b, tick, dt, n).velocity == GRAVITY * dt * n,
        falling(b, tick, dt, n).y == if b.y + fallen(dt as int, n) > FLOOR_Y {
            FLOOR_Y as int
        } else {
            b.y + fallen(dt as int, n)
        },
        falling(b, tick, dt, n).wf(),
    decreases n,
{
    lemma_fallen_closed_form(dt as int, n);
    assert(GRAVITY * dt * n >= 0) by (nonlinear_arith)
        requires
            dt >= 0,
            n >= 0,
    ;
    if n == 0 {
        assert(GRAVITY * dt * n == 0) by (nonlinear_arith)
            requires
                n == 0,
        ;
    } else {
        let m = (n - 1) as nat;
        assert(GRAVITY * dt * m <= GRAVITY * dt * n) by (nonlinear_arith)
            requires
                m <= n,
                dt >= 0,
        ;
        lemma_fall_from_rest(b, tick, dt, m);
        lemma_fallen_grows(dt as int, m);
        let prev = falling(b, tick, dt, m);
        assert(GRAVITY * dt * m + GRAVITY * dt == GRAVITY * dt * n) by (nonlinear_arith)
            requires
                m + 1 == n,
        ;
        assert(prev.velocity + GRAVITY * dt == GRAVITY * dt * n);
        assert(GRAVITY * dt * n * dt == (GRAVITY * dt * n) * dt) by (nonlinear_arith);
        assert(GRAVITY * dt * n * dt >= 0) by (nonlinear_arith)
            requires
                dt >= 0,
        ;
    }
}

} // verus!
