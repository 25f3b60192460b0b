use flappy::bird::{Bird, FLOOR_Y, MAX_ANGLE, THRUST_VELOCITY};
use flappy::game::InputEvent;
use flappy::geometry::SUBPIXELS_PER_PIXEL;

#[test]
fn new_bird_starts_at_rest() {
    let b = Bird::new(5);
    assert_eq!(b.y, 268 * SUBPIXELS_PER_PIXEL);
    assert_eq!(b.velocity, 0);
    assert_eq!(b.angle, 0);
    assert_eq!(b.sprite_index, 0);
    assert_eq!(b.tick_of_next_sprite, 1005);
}

#[test]
fn flap_overrides_falling_velocity() {
    let mut b = Bird::new(0);
    b.update(1, 500_000);
    assert!(b.velocity > 0);
    b.event_update(InputEvent::Flap);
    assert_eq!(b.velocity, THRUST_VELOCITY);
    b.event_update(InputEvent::Flap);
    assert_eq!(b.velocity, -200_000_000);
}

#[test]
fn other_events_leave_bird_alone() {
    let mut b = Bird::new(0);
    b.update(1, 1000);
    let before = b;
    b.event_update(InputEvent::Other);
    assert_eq!(b, before);
}

#[test]
fn update_integrates_gravity_exactly() {
    let mut b = Bird::new(0);
    b.update(1, 1_000_000);
    // one second: velocity 220 px/s, moved 220 px
    assert_eq!(b.velocity, 220_000_000);
    assert_eq!(b.y, (268 + 220) * SUBPIXELS_PER_PIXEL);
    assert_eq!(b.angle, 25_000_000);
}

#[test]
fn bird_never_falls_below_floor() {
    let mut b = Bird::new(0);
    for t in 0..200u64 {
        b.update(t, 1_000_000);
        assert!(b.y <= FLOOR_Y);
    }
    assert_eq!(b.y, FLOOR_Y);
    assert_eq!(FLOOR_Y, (600 - 64) * SUBPIXELS_PER_PIXEL);
}

#[test]
fn tilt_stays_within_limits() {
    let mut b = Bird::new(0);
    for t in 0..50u64 {
        b.update(t, 3_000_000);
        assert!(b.angle <= MAX_ANGLE && b.angle >= -MAX_ANGLE);
    }
    assert_eq!(b.angle, 45_000_000);
    for t in 0..50u64 {
        b.event_update(InputEvent::Flap);
        b.update(t, 100_000);
        assert!(b.angle <= MAX_ANGLE && b.angle >= -MAX_ANGLE);
    }
    assert_eq!(b.angle, -45_000_000);
}

#[test]
fn animation_cycles_through_three_frames() {
    let mut b = Bird::new(0);
    b.update(1000, 0);
    assert_eq!(b.sprite_index, 0);
    b.update(1001, 0);
    assert_eq!(b.sprite_index, 1);
    assert_eq!(b.tick_of_next_sprite, 2001);
    b.update(2002, 0);
    assert_eq!(b.sprite_index, 2);
    b.update(3003, 0);
    assert_eq!(b.sprite_index, 0);
    let mut t = 3003u64;
    for _ in 0..20 {
        t += 1001;
        b.update(t, 0);
        assert!(b.sprite_index <= 2);
    }
}

#[test]
fn sprite_source_and_draw_position() {
    let mut b = Bird::new(0);
    b.sprite_index = 2;
    assert_eq!(b.sprite_source_x(), 64);
    b.sprite_index = 7;
    assert_eq!(b.sprite_source_x(), 0);
    b.y = 268 * SUBPIXELS_PER_PIXEL + SUBPIXELS_PER_PIXEL / 2;
    assert_eq!(b.draw_y(), 268);
    b.y = -(3 * SUBPIXELS_PER_PIXEL) - SUBPIXELS_PER_PIXEL / 2;
    assert_eq!(b.draw_y(), -3);
}

#[test]
fn hitbox_is_inset_sprite() {
    let b = Bird::new(0);
    let h = b.collision_box();
    let s = SUBPIXELS_PER_PIXEL as i128;
    assert_eq!(h.x1, 66 * s);
    assert_eq!(h.x2, 98 * s);
    assert_eq!(h.y1, 284 * s);
    assert_eq!(h.y2, 316 * s);
}
