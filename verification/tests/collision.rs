use space_fighters::geom::{Aabb, Vec2i, collide};

fn aabb(x: i32, y: i32, w: i32, h: i32) -> Aabb {
    Aabb { center: Vec2i { x, y }, width: w, height: h }
}

#[test]
fn overlapping_boxes_collide() {
    // Positive overlap on both axes.
    let a = aabb(0, 0, 10, 10);
    let b = aabb(5, 5, 10, 10);
    assert!(collide(&a, &b));
    assert!(collide(&b, &a));
}

#[test]
fn identical_boxes_collide() {
    let a = aabb(3, -7, 8, 6);
    assert!(collide(&a, &a));
}

#[test]
fn touching_edges_do_not_collide() {
    // The boxes abut exactly at x = 5: zero x-overlap.
    let a = aabb(0, 0, 10, 10);
    let b = aabb(10, 0, 10, 10);
    assert!(!collide(&a, &b));
}

#[test]
fn x_overlap_alone_is_no_collision() {
    // Overlap on x, separated on y.
    let a = aabb(0, 0, 10, 10);
    let b = aabb(2, 30, 10, 10);
    assert!(!collide(&a, &b));
}

#[test]
fn y_overlap_alone_is_no_collision() {
    let a = aabb(0, 0, 10, 10);
    let b = aabb(30, 2, 10, 10);
    assert!(!collide(&a, &b));
}

#[test]
fn separated_boxes_do_not_collide() {
    let a = aabb(-100, -100, 20, 20);
    let b = aabb(100, 100, 20, 20);
    assert!(!collide(&a, &b));
}

#[test]
fn odd_sizes_collide_on_half_pixel_overlap() {
    // Centres 5 apart, half-sizes 2.5 + 2.5: edges touch, no collision;
    // one pixel closer they overlap.
    let a = aabb(0, 0, 5, 5);
    let b = aabb(5, 0, 5, 5);
    assert!(!collide(&a, &b));
    let c = aabb(4, 0, 5, 5);
    assert!(collide(&a, &c));
}

#[test]
fn scaled_sprite_box_collides_like_the_game_sprites() {
    // A 90x54 laser sprite and a 93x84 enemy sprite, both at scale 0.5:
    // boxes 45x27 and 46x42 (rounded down), 40 pixels apart on x.
    let laser = aabb(0, 0, 45, 27);
    let enemy = aabb(40, 10, 46, 42);
    assert!(collide(&laser, &enemy));
    let far_enemy = aabb(50, 10, 46, 42);
    assert!(!collide(&laser, &far_enemy));
}
