use vstd::prelude::*;
use crate::fixed::{div_toward_zero, div_trunc, mul_rate, sat_i64, saturate_i64, subpixels};
use crate::geometry::{px, rect, BoxCollision, PixelRect, SpriteBlit, SCREEN_HEIGHT, SCREEN_WIDTH, SUBPIXELS_PER_PIXEL};

verus! {

/// Width of a pipe, in pixels.
pub const PIPE_WIDTH: i64 = 64;

/// Scroll speed, in sub-pixels per microsecond (200 pixels per second).
pub const PIPE_SPEED: i64 = 200_000_000;

/// A pipe whose left edge is left of this position, in pixels, is removed.
pub const REMOVAL_X: i64 = -150;

/// Left edge of a new pipe, in pixels: beyond the right edge of the screen.
pub const SPAWN_X: i64 = 900;

/// Half the height of the gap, in pixels.
pub const GAP_HALF_HEIGHT: i32 = 50;

/// Lowest gap center drawn for a new pipe, in pixels (30% of the screen).
pub const GAP_CENTER_MIN: i32 = 180;

/// Bound, not reached, of the gap centers drawn for a new pipe, in pixels
/// (70% of the screen).
pub const GAP_CENTER_MAX: i32 = 420;

/// Side of a pipe cap on screen, in pixels.
pub const CAP_SIZE: i128 = 64;

/// A pair of pipes with a gap between them.
///
/// `x` is the left edge in sub-pixels; the gap is centered at `hole_y` and
/// reaches `hole_height` above and below it, both in pixels.
#[derive(Clone, Copy, Debug, PartialEq, Eq, Structural)]
pub struct Pipes {
    pub x: i64,
    pub hole_y: i32,
    pub hole_height: i32,
}

/// Left edge of a new pipe, in sub-pixels.
pub open spec fn spawn_x() -> int {
    px(SPAWN_X as int)
}

impl Pipes {
    /// The left edge after scrolling for `dt` microseconds.
    pub open spec fn next_x(&self, dt: u32) -> int {
        sat_i64(self.x - PIPE_SPEED * dt)
    }

    /// The solid region above the gap, from the top of the screen.
    pub open spec fn top_box(&self) -> BoxCollision {
        BoxCollision {
            x1: self.x as i128,
            y1: 0,
            x2: (self.x + px(PIPE_WIDTH as int)) as i128,
            y2: px(self.hole_y - self.hole_height) as i128,
        }
    }

    /// The solid region below the gap, to the bottom of the screen.
    pub open spec fn bottom_box(&self) -> BoxCollision {
        BoxCollision {
            x1: self.x as i128,
            y1: px(self.hole_y + self.hole_height) as i128,
            x2: (self.x + px(PIPE_WIDTH as int)) as i128,
            y2: px(SCREEN_HEIGHT as int) as i128,
        }
    }

    /// The whole column of the pipe, gap included, over the screen's height.
    pub open spec fn column_box(&self) -> BoxCollision {
        BoxCollision {
            x1: self.x as i128,
            y1: 0,
            x2: (self.x + px(PIPE_WIDTH as int)) as i128,
            y2: px(SCREEN_HEIGHT as int) as i128,
        }
    }

    /// The pipe has scrolled far enough left to be removed.
    pub open spec fn expired(&self) -> bool {
        self.x < px(REMOVAL_X as int)
    }

    /// A pipe with its left edge at `x` sub-pixels and the given gap.
    pub fn new(x: i64, hole_y: i32, hole_height: i32) -> (r: Pipes)
        ensures
            r == (Pipes { x, hole_y, hole_height }),
    {
        Pipes { x, hole_y, hole_height }
    }

    /// Scrolls the pipe left for `delta_time` microseconds.
    pub fn update(&mut self, delta_time: u32)
        ensures
            *final(self) == (Pipes { x: old(self).next_x(delta_time) as i64, ..*old(self) }),
    {
        self.x = saturate_i64(self.x as i128 - mul_rate(PIPE_SPEED, delta_time));
    }

    /// The solid region above the gap.
    pub fn collision_box_top(&self) -> (r: BoxCollision)
        ensures
            r == self.top_box(),
    {
        BoxCollision {
            x1: self.x as i128,
            y1: 0,
            x2: self.x as i128 + (PIPE_WIDTH * SUBPIXELS_PER_PIXEL) as i128,
            y2: subpixels(self.hole_y as i128 - self.hole_height as i128),
        }
    }

    /// The solid region below the gap.
    pub fn collision_box_bottom(&self) -> (r: BoxCollision)
        ensures
            r == self.bottom_box(),
    {
        BoxCollision {
            x1: self.x as i128,
            y1: subpixels(self.hole_y as i128 + self.hole_height as i128),
            x2: self.x as i128 + (PIPE_WIDTH * SUBPIXELS_PER_PIXEL) as i128,
            y2: (SCREEN_HEIGHT * SUBPIXELS_PER_PIXEL) as i128,
        }
    }

    /// The whole column, used to tell when the bird has passed the pipe.
    pub fn column_collision_box(&self) -> (r: BoxCollision)
        ensures
            r == self.column_box(),
    {
        BoxCollision {
            x1: self.x as i128,
            y1: 0,
            x2: self.x as i128 + (PIPE_WIDTH * SUBPIXELS_PER_PIXEL) as i128,
            y2: (SCREEN_HEIGHT * SUBPIXELS_PER_PIXEL) as i128,
        }
    }

    /// True iff the pipe is due for removal.
    pub fn is_expired(&self) -> (r: bool)
        ensures
            r == self.expired(),
    {
        self.x < REMOVAL_X * SUBPIXELS_PER_PIXEL
    }

    /// The four copies that draw the pipe: the body above the gap, the body
    /// below it, the cap on the lower pipe and the cap on the upper pipe.
    pub fn draw_list(&self) -> (r: Vec<SpriteBlit>)
        ensures
            ({
                let x = div_trunc(self.x as int, SUBPIXELS_PER_PIXEL as int);
                let top = self.hole_y - self.hole_height;
                let bottom = self.hole_y + self.hole_height;
                r@ == seq![
                    SpriteBlit { source: rect(32, 0, 16, 1), dest: rect(x, 0, PIPE_WIDTH as int, top) },
                    SpriteBlit {
                        source: rect(32, 0, 16, 1),
                        dest: rect(x, bottom, PIPE_WIDTH as int, SCREEN_HEIGHT - bottom),
                    },
                    SpriteBlit { source: rect(0, 0, 16, 16), dest: rect(x, bottom, CAP_SIZE as int, CAP_SIZE as int) },
                    SpriteBlit {
                        source: rect(16, 0, 16, 16),
                        dest: rect(x, top - CAP_SIZE, CAP_SIZE as int, CAP_SIZE as int),
                    },
                ]
            }),
    {
        let x = div_toward_zero(self.x, SUBPIXELS_PER_PIXEL);
        let top = self.hole_y as i128 - self.hole_height as i128;
        let bottom = self.hole_y as i128 + self.hole_height as i128;
        let body = PixelRect { x: 32, y: 0, w: 16, h: 1 };
        let mut r: Vec<SpriteBlit> = Vec::new();
        r.push(SpriteBlit { source: body, dest: PixelRect { x, y: 0, w: PIPE_WIDTH as i128, h: top } });
        r.push(
            SpriteBlit {
                source: body,
                dest: PixelRect { x, y: bottom, w: PIPE_WIDTH as i128, h: SCREEN_HEIGHT as i128 - bottom },
            },
        );
        r.push(
            SpriteBlit {
                source: PixelRect { x: 0, y: 0, w: 16, h: 16 },
                dest: PixelRect { x, y: bottom, w: CAP_SIZE, h: CAP_SIZE },
            },
        );
        r.push(
            SpriteBlit {
                source: PixelRect { x: 16, y: 0, w: 16, h: 16 },
                dest: PixelRect { x, y: top - CAP_SIZE, w: CAP_SIZE, h: CAP_SIZE },
            },
        );
        r
    }
}

/// A pipe that is removed lies wholly left of the visible screen: its right
/// edge is more than 80 pixels past the left edge of the screen.
pub proof fn lemma_expired_pipe_invisible(p: Pipes)
    requires
        p.expired(),
    ensures
        p.column_box().x2 < px(-80),
{
}

/// A pipe at the spawn position lies wholly right of the visible screen.
pub proof fn lemma_spawned_pipe_offscreen(hole_y: i32, hole_height: i32)
    ensures
        (Pipes { x: spawn_x() as i64, hole_y, hole_height }).column_box().x1 > px(SCREEN_WIDTH as int),
{
}

} // verus!
