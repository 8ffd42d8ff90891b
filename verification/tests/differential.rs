use bevy::math::{Vec2 as FloatVec2, Vec3 as FloatVec3};
use bevy::sprite::collide_aabb::{collide, Collision};
use pong_core::arena::{colliders, Collider, Player};
use pong_core::ball::Ball;
use pong_core::geometry::Vec2;
use pong_core::paddle::PaddleController;
use pong_core::scoreboard::Scoreboard;
use pong_core::serve::ServeLockout;
use pong_core::world::World;

/// The state that the float pipeline works on, in arena units and units per
/// second.
struct FloatWorld {
    ball: FloatVec3,
    velocity: FloatVec2,
    p1_y: f32,
    p2_y: f32,
    p1_score: u64,
    p2_score: u64,
    rally: u64,
    served: bool,
}

fn units(sub_units: i64) -> f32 {
    sub_units as f32 / 6_000.0
}

fn float_box(collider: Collider, p1_y: f32, p2_y: f32) -> (FloatVec3, FloatVec2) {
    let center = collider.center(0, 0);
    let half = collider.half();
    let y = match collider {
        Collider::Paddle(Player::One) => p1_y,
        Collider::Paddle(Player::Two) => p2_y,
        _ => units(center.y),
    };
    (
        FloatVec3::new(units(center.x), y, 0.0),
        FloatVec2::new(2.0 * units(half.x), 2.0 * units(half.y)),
    )
}

/// The collision stage in floats: the side comes from the float overlap test
/// and the return off a paddle from the float cosine and sine.
fn float_stage(w: &mut FloatWorld) {
    for collider in colliders() {
        let (center, size) = float_box(collider, w.p1_y, w.p2_y);
        let collision = match collide(w.ball, FloatVec2::new(30.0, 30.0), center, size) {
            Some(collision) => collision,
            None => continue,
        };
        match collision {
            Collision::Left => {
                if w.velocity.x > 0.0 {
                    w.velocity.x = -w.velocity.x;
                }
            }
            Collision::Right => {
                if w.velocity.x < 0.0 {
                    w.velocity.x = -w.velocity.x;
                }
            }
            Collision::Top => {
                if w.velocity.y < 0.0 {
                    w.velocity.y = -w.velocity.y;
                }
            }
            Collision::Bottom => {
                if w.velocity.y > 0.0 {
                    w.velocity.y = -w.velocity.y;
                }
            }
            Collision::Inside => {}
        }
        match collider {
            Collider::Wall(_) => {}
            Collider::Goal(owner) => {
                if w.rally >= 5 {
                    w.rally = 2;
                }
                match owner {
                    Player::One => w.p2_score += 1,
                    Player::Two => w.p1_score += 1,
                }
                w.ball = FloatVec3::new(0.0, 0.0, 1.0);
                w.velocity = FloatVec2::new(400.0, 50.0);
                w.served = true;
            }
            Collider::Paddle(player) => {
                w.rally += 1;
                let paddle_y = match player {
                    Player::One => w.p1_y,
                    Player::Two => w.p2_y,
                };
                let normalized = ((paddle_y - w.ball.y) / 60.0).clamp(-1.0, 1.0);
                let angle = normalized * std::f32::consts::FRAC_PI_4;
                let bonus = w.rally as f32 * 4.0;
                let (x, y) = match player {
                    Player::One => (400.0 * angle.cos() + bonus, 400.0 * -angle.sin() + bonus),
                    Player::Two => (-(400.0 * angle.cos() + bonus), -(400.0 * angle.sin() + bonus)),
                };
                w.velocity = FloatVec2::new(x.clamp(-1000.0, 1000.0), y.clamp(-1000.0, 1000.0));
            }
        }
    }
}

fn next(seed: &mut u64) -> i64 {
    *seed = seed.wrapping_mul(6_364_136_223_846_793_005).wrapping_add(1_442_695_040_888_963_407);
    (*seed >> 33) as i64
}

#[test]
fn collision_stage_agrees_with_the_stage_in_floats() {
    let mut seed: u64 = 0xD1B5_4A32_D192_ED03;
    let mut contacts = [0u32; 3];
    for round in 0..300_000 {
        // Whole and half arena units, which floats represent exactly. Two
        // rounds in three place the ball near a paddle, a wall or a goal.
        let (x, y) = match round % 3 {
            0 => (next(&mut seed) % 941 - 470, next(&mut seed) % 661 - 330),
            1 => ((next(&mut seed) % 61 + 350) * (next(&mut seed) % 2 * 2 - 1), next(&mut seed) % 661 - 330),
            _ => (next(&mut seed) % 941 - 470, (next(&mut seed) % 41 + 280) * (next(&mut seed) % 2 * 2 - 1)),
        };
        let half_x = next(&mut seed) % 2;
        let half_y = next(&mut seed) % 2;
        let position = Vec2 { x: x * 6_000 + half_x * 3_000, y: y * 6_000 + half_y * 3_000 };
        let velocity = Vec2 {
            x: (next(&mut seed) % 1_001 - 500) * 100,
            y: (next(&mut seed) % 1_001 - 500) * 100,
        };
        let mut world = World::new(PaddleController::Idle, PaddleController::Idle);
        world.ball = Ball { position, velocity };
        world.p1.y = (next(&mut seed) % 481 - 240) * 6_000;
        world.p2.y = (next(&mut seed) % 481 - 240) * 6_000;
        world.scoreboard = Scoreboard {
            p1_score: next(&mut seed) as u64 % 10,
            p2_score: next(&mut seed) as u64 % 10,
            rally_intensity: next(&mut seed) as u64 % 12,
        };
        world.lockout = ServeLockout { elapsed: 700_000_000, duration: 700_000_000 };
        let mut float = FloatWorld {
            ball: FloatVec3::new(units(position.x), units(position.y), 1.0),
            velocity: FloatVec2::new(velocity.x as f32 / 100.0, velocity.y as f32 / 100.0),
            p1_y: units(world.p1.y),
            p2_y: units(world.p2.y),
            p1_score: world.scoreboard.p1_score,
            p2_score: world.scoreboard.p2_score,
            rally: world.scoreboard.rally_intensity,
            served: false,
        };
        let before = world;
        world.check_for_collisions();
        float_stage(&mut float);

        assert_eq!(world.scoreboard.p1_score, float.p1_score, "round {}", round);
        assert_eq!(world.scoreboard.p2_score, float.p2_score, "round {}", round);
        assert_eq!(world.scoreboard.rally_intensity, float.rally, "round {}", round);
        assert_eq!(world.lockout.elapsed == 0, float.served, "round {}", round);
        assert_eq!(units(world.ball.position.x), float.ball.x, "round {}", round);
        assert_eq!(units(world.ball.position.y), float.ball.y, "round {}", round);
        let vx = world.ball.velocity.x as f32 / 100.0;
        let vy = world.ball.velocity.y as f32 / 100.0;
        assert!((vx - float.velocity.x).abs() < 0.03, "round {}: {:?}", round, before);
        assert!((vy - float.velocity.y).abs() < 0.03, "round {}: {:?}", round, before);
        assert_eq!(world.p1, before.p1);
        assert_eq!(world.p2, before.p2);

        if float.served {
            contacts[0] += 1;
        } else if world.scoreboard.rally_intensity != before.scoreboard.rally_intensity {
            contacts[1] += 1;
        } else if world.ball.velocity != before.ball.velocity {
            contacts[2] += 1;
        }
    }
    // Goals, returns and reflections were all met in numbers.
    assert!(contacts[0] > 5_000, "{:?}", contacts);
    assert!(contacts[1] > 5_000, "{:?}", contacts);
    assert!(contacts[2] > 5_000, "{:?}", contacts);
}
