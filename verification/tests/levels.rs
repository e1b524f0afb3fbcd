use rocket_collision::levels::any_enemy_hits_player;
use rocket_collision::levels::handle_control;
use rocket_collision::levels::retain_live_waves;
use rocket_collision::levels::spawn_enemy;
use rocket_collision::levels::Actions;
use rocket_collision::levels::Controls;
use rocket_collision::maths::Point;
use rocket_collision::models::collides_with;
use rocket_collision::models::Enemy;
use rocket_collision::models::Player;
use rocket_collision::models::Pose;
use rocket_collision::models::Size;
use rocket_collision::models::Wave;
use rocket_collision::levels::dead_zoned_axis_value;

#[test]
fn controls_steer_the_actions() {
    let mut actions = Actions::default();
    assert_eq!(actions.player_velocity, Point::new(0, 0));
    assert!(!actions.shoot);

    handle_control(&mut actions, Controls::X1(-32768));
    assert_eq!(actions.player_velocity, Point::new(-32768, 0));

    handle_control(&mut actions, Controls::Y1(4000));
    assert_eq!(actions.player_velocity, Point::new(-32768, 4000));

    handle_control(&mut actions, Controls::X(true));
    assert!(actions.shoot);
    assert_eq!(actions.player_velocity, Point::new(-32768, 4000));

    handle_control(&mut actions, Controls::X(false));
    assert!(!actions.shoot);

    let before = actions;
    handle_control(&mut actions, Controls::A(true));
    handle_control(&mut actions, Controls::B(true));
    handle_control(&mut actions, Controls::Idle);
    assert_eq!(actions, before);
}

#[test]
fn axis_dead_zone() {
    assert_eq!(dead_zoned_axis_value(0), 0);
    assert_eq!(dead_zoned_axis_value(4999), 0);
    assert_eq!(dead_zoned_axis_value(-4999), 0);
    assert_eq!(dead_zoned_axis_value(5000), 0);
    assert_eq!(dead_zoned_axis_value(5001), 1);
    assert_eq!(dead_zoned_axis_value(-32768), -27768);
    assert_eq!(dead_zoned_axis_value(32767), 27767);
}

#[test]
fn waves_outgrowing_the_world_are_dropped() {
    let size = Size::new(100, 60);
    // Alive while 4 * radius < 3 * (width + height) = 480: radius 119 stays,
    // radius 120 goes.
    let mut small = Wave::new(Point::new(0, 0));
    small.radius = 119;
    let mut exact = Wave::new(Point::new(1, 1));
    exact.radius = 120;
    let mut big = Wave::new(Point::new(2, 2));
    big.radius = 500;
    let fresh = Wave::new(Point::new(3, 3));

    let mut waves = vec![small, exact, fresh, big];
    retain_live_waves(&mut waves, &size);
    assert_eq!(waves.len(), 2);
    assert_eq!(waves[0].radius, 119);
    assert_eq!(waves[1].position, Point::new(3, 3));
}

#[test]
fn spawned_enemies_avoid_the_player() {
    let bounds = Size::new(200, 120);
    for _ in 0..50 {
        let player = Player::random(&bounds);
        let enemy = spawn_enemy(&player, &bounds);
        assert!(!collides_with(&player, &enemy));
        assert!(0 <= enemy.vector.position.x && enemy.vector.position.x < 200);
        assert!(0 <= enemy.vector.position.y && enemy.vector.position.y < 120);
    }
}

#[test]
fn player_collision_scan() {
    let bounds = Size::new(200, 120);
    let player = Player::random(&bounds);
    let far = Enemy::new(Pose::new(Point::new(-400, -400), Point::new(1, 0)));
    assert!(!any_enemy_hits_player(&player, &vec![]));
    assert!(!any_enemy_hits_player(&player, &vec![far, far]));

    // Radii 6 and 10: an enemy 15 away collides, one 16 away only touches.
    let on_top = Enemy::new(Pose::new(
        Point::new(player.vector.position.x + 15, player.vector.position.y),
        Point::new(1, 0),
    ));
    let touching = Enemy::new(Pose::new(
        Point::new(player.vector.position.x + 16, player.vector.position.y),
        Point::new(1, 0),
    ));
    assert!(any_enemy_hits_player(&player, &vec![far, on_top]));
    assert!(!any_enemy_hits_player(&player, &vec![far, touching]));
}
