//! The per-tick gameplay decision that sits above the entities: resolving
//! the flying bullets against the enemy field. The surrounding loop — input,
//! timers, particle effects, rendering — lives outside the crate and hands
//! plain entity vectors in.

use vstd::prelude::*;

use crate::maths::Point;
use crate::models::bodies_collide;
use crate::models::collidable;
use crate::models::Bullet;
use crate::models::Collide;
use crate::models::Enemy;

verus! {

/// The bullet touches the enemy under the gameplay collision rule.
pub open spec fn bullet_hits_enemy(enemy: Enemy, bullet: Bullet) -> bool {
    bodies_collide(enemy.centre(), enemy.radius_value(), bullet.centre(), bullet.radius_value())
}

/// The index of the first enemy at or after `i` that collides with the
/// bullet, if any.
pub open spec fn first_enemy_hit_from(enemies: Seq<Enemy>, bullet: Bullet, i: int) -> Option<int>
    decreases enemies.len() - i,
{
    if i < 0 || i >= enemies.len() {
        None
    } else if bullet_hits_enemy(enemies[i], bullet) {
        Some(i)
    } else {
        first_enemy_hit_from(enemies, bullet, i + 1)
    }
}

/// One sweep of bullet resolution, bullets taken front to back: a bullet
/// that reaches an enemy takes the first such enemy out of the field and
/// leaves an explosion at that enemy's position; a bullet that reaches
/// nobody flies on. `kept` and `explosions` accumulate the bullets that
/// survive and the positions that explode, in order.
pub open spec fn resolve_bullets(
    bullets: Seq<Bullet>,
    enemies: Seq<Enemy>,
    kept: Seq<Bullet>,
    explosions: Seq<Point>,
) -> (Seq<Bullet>, Seq<Enemy>, Seq<Point>)
    decreases bullets.len(),
{
    if bullets.len() == 0 {
        (kept, enemies, explosions)
    } else {
        let bullet = bullets[0];
        match first_enemy_hit_from(enemies, bullet, 0) {
            Some(j) => resolve_bullets(
                bullets.skip(1),
                enemies.remove(j),
                kept,
                explosions.push(enemies[j].centre()),
            ),
            None => resolve_bullets(bullets.skip(1), enemies, kept.push(bullet), explosions),
        }
    }
}

/// Scanning from the front, a prefix free of hits can be skipped without
/// changing which enemy is hit first.
proof fn lemma_first_hit_after_clear_prefix(enemies: Seq<Enemy>, bullet: Bullet, i: int)
    requires
        0 <= i <= enemies.len(),
        forall|k: int| 0 <= k < i ==> !bullet_hits_enemy(#[trigger] enemies[k], bullet),
    ensures
        first_enemy_hit_from(enemies, bullet, 0) == first_enemy_hit_from(enemies, bullet, i),
    decreases i,
{
    if i > 0 {
        lemma_first_hit_after_clear_prefix(enemies, bullet, i - 1);
    }
}

/// Removes each bullet's first colliding enemy — bullet and enemy
/// annihilate — and returns the positions where explosions belong, exactly
/// as `resolve_bullets` describes.
pub fn handle_bullet_collisions(bullets: &mut Vec<Bullet>, enemies: &mut Vec<Enemy>) -> (explosions:
    Vec<Point>)
    requires
        forall|i: int| 0 <= i < old(bullets)@.len() ==> collidable(#[trigger] old(bullets)@[i]),
        forall|i: int| 0 <= i < old(enemies)@.len() ==> collidable(#[trigger] old(enemies)@[i]),
    ensures
        ({
            let outcome = resolve_bullets(
                old(bullets)@,
                old(enemies)@,
                Seq::empty(),
                Seq::empty(),
            );
            &&& final(bullets)@ == outcome.0
            &&& final(enemies)@ == outcome.1
            &&& explosions@ == outcome.2
        }),
{
    let mut kept: Vec<Bullet> = Vec::new();
    let mut explosions: Vec<Point> = Vec::new();
    let mut bi: usize = 0;
    proof {
        assert(bullets@.skip(0) =~= bullets@);
    }
    while bi < bullets.len()
        invariant
            bullets@ == old(bullets)@,
            bi <= bullets@.len(),
            forall|i: int| 0 <= i < bullets@.len() ==> collidable(#[trigger] bullets@[i]),
            forall|i: int| 0 <= i < enemies@.len() ==> collidable(#[trigger] enemies@[i]),
            resolve_bullets(old(bullets)@, old(enemies)@, Seq::empty(), Seq::empty())
                == resolve_bullets(
                bullets@.skip(bi as int),
                enemies@,
                kept@,
                explosions@,
            ),
        decreases bullets@.len() - bi,
    {
        let bullet = bullets[bi];
        let ghost enemies_before = enemies@;
        let n = enemies.len();
        let mut hit_index: usize = n;
        let mut ei: usize = 0;
        while ei < n
            invariant
                n == enemies@.len(),
                ei <= n,
                collidable(bullet),
                if hit_index == n {
                    forall|k: int| 0 <= k < ei ==> !bullet_hits_enemy(
                        #[trigger] enemies@[k],
                        bullet,
                    )
                } else {
                    first_enemy_hit_from(enemies@, bullet, 0) == Some(hit_index as int)
                        && hit_index < n
                },
                forall|i: int| 0 <= i < enemies@.len() ==> collidable(#[trigger] enemies@[i]),
            decreases n - ei,
        {
            if hit_index == n {
                if crate::models::collides_with(&enemies[ei], &bullet) {
                    proof {
                        lemma_first_hit_after_clear_prefix(enemies@, bullet, ei as int);
                    }
                    hit_index = ei;
                }
            }
            ei = ei + 1;
        }
        if hit_index < n {
            let position = enemies[hit_index].position();
            explosions.push(position);
            enemies.remove(hit_index);
            proof {
                enemies_before.remove_ensures(hit_index as int);
                assert(bullets@.skip(bi as int).skip(1) =~= bullets@.skip(bi as int + 1));
                assert(bullets@.skip(bi as int)[0] == bullet);
            }
        } else {
            kept.push(bullet);
            proof {
                lemma_first_hit_after_clear_prefix(enemies@, bullet, n as int);
                assert(bullets@.skip(bi as int).skip(1) =~= bullets@.skip(bi as int + 1));
                assert(bullets@.skip(bi as int)[0] == bullet);
            }
        }
        bi = bi + 1;
    }
    proof {
        assert(bullets@.skip(bullets@.len() as int) =~= Seq::<Bullet>::empty());
    }
    *bullets = kept;
    explosions
}

} // verus!
