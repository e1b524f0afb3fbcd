use rocket_collision::game::handle_bullet_collisions;
use rocket_collision::maths::Point;
use rocket_collision::models::Bullet;
use rocket_collision::models::Enemy;
use rocket_collision::models::Pose;

fn bullet_at(x: i64, y: i64) -> Bullet {
    Bullet::new(Pose::new(Point::new(x, y), Point::new(1, 0)))
}

fn enemy_at(x: i64, y: i64) -> Enemy {
    Enemy::new(Pose::new(Point::new(x, y), Point::new(1, 0)))
}

#[test]
fn bullets_annihilate_their_first_enemy() {
    // Enemy radius 10 plus bullet radius 3: anything within 13 collides.
    let mut bullets = vec![bullet_at(0, 0), bullet_at(500, 500)];
    let mut enemies = vec![enemy_at(5, 0), enemy_at(8, 0)];

    let explosions = handle_bullet_collisions(&mut bullets, &mut enemies);

    // The first bullet takes out the first enemy it reaches; the second
    // bullet reaches nobody and flies on.
    assert_eq!(bullets.len(), 1);
    assert_eq!(bullets[0].vector.position, Point::new(500, 500));
    assert_eq!(enemies.len(), 1);
    assert_eq!(enemies[0].vector.position, Point::new(8, 0));
    assert_eq!(explosions, vec![Point::new(5, 0)]);
}

#[test]
fn each_bullet_takes_at_most_one_enemy() {
    let mut bullets = vec![bullet_at(0, 0), bullet_at(0, 0)];
    let mut enemies = vec![enemy_at(5, 0), enemy_at(-5, 0), enemy_at(300, 300)];

    let explosions = handle_bullet_collisions(&mut bullets, &mut enemies);

    assert_eq!(bullets.len(), 0);
    assert_eq!(enemies.len(), 1);
    assert_eq!(enemies[0].vector.position, Point::new(300, 300));
    assert_eq!(explosions, vec![Point::new(5, 0), Point::new(-5, 0)]);
}

#[test]
fn missing_bullets_change_nothing() {
    let mut bullets = vec![bullet_at(100, 100)];
    let mut enemies = vec![enemy_at(0, 0), enemy_at(200, 200)];

    let explosions = handle_bullet_collisions(&mut bullets, &mut enemies);

    assert_eq!(bullets.len(), 1);
    assert_eq!(enemies.len(), 2);
    assert!(explosions.is_empty());
}

#[test]
fn no_bullets_no_changes() {
    let mut bullets: Vec<Bullet> = vec![];
    let mut enemies = vec![enemy_at(0, 0)];
    let explosions = handle_bullet_collisions(&mut bullets, &mut enemies);
    assert!(bullets.is_empty());
    assert_eq!(enemies.len(), 1);
    assert!(explosions.is_empty());
}
