use avian2d::collision::CollisionLayers;
use entity_systems::common::colliders::{
    character_with_hurtbox, projectile_with_hitbox, tick_disable_collider_on_time, with_hitbox,
    with_hitbox_for, with_hurtbox, Alignment, CollisionMask,
};
use std::time::Duration;

#[test]
fn each_layer_has_its_own_bit() {
    assert_eq!(CollisionMask::Character.to_bits(), 1);
    assert_eq!(CollisionMask::Projectile.to_bits(), 2);
    assert_eq!(CollisionMask::PlayerHitbox.to_bits(), 4);
    assert_eq!(CollisionMask::EnemyHitbox.to_bits(), 8);
    assert_eq!(CollisionMask::PlayerHurtbox.to_bits(), 16);
    assert_eq!(CollisionMask::EnemyHurtbox.to_bits(), 32);
    assert_eq!(CollisionMask::all_bits(), 63);
}

#[test]
fn sides_have_their_boxes_and_their_opponent() {
    assert_eq!(Alignment::Player.hitbox(), CollisionMask::PlayerHitbox);
    assert_eq!(Alignment::Enemy.hitbox(), CollisionMask::EnemyHitbox);
    assert_eq!(Alignment::Player.hurtbox(), CollisionMask::PlayerHurtbox);
    assert_eq!(Alignment::Enemy.hurtbox(), CollisionMask::EnemyHurtbox);
    assert_eq!(!Alignment::Player, Alignment::Enemy);
    assert_eq!(!Alignment::Enemy, Alignment::Player);
}

#[test]
fn a_hitbox_looks_for_the_other_sides_hurtboxes() {
    assert_eq!(with_hitbox(Alignment::Player), CollisionLayers::from_bits(4, 32));
    assert_eq!(with_hitbox(Alignment::Enemy), CollisionLayers::from_bits(8, 16));
}

#[test]
fn a_hurtbox_looks_for_the_other_sides_hitboxes() {
    assert_eq!(with_hurtbox(Alignment::Player), CollisionLayers::from_bits(16, 8));
    assert_eq!(with_hurtbox(Alignment::Enemy), CollisionLayers::from_bits(32, 4));
}

#[test]
fn a_character_is_a_hurtbox_and_a_character() {
    assert_eq!(character_with_hurtbox(Alignment::Player), CollisionLayers::from_bits(17, 8));
    assert_eq!(character_with_hurtbox(Alignment::Enemy), CollisionLayers::from_bits(33, 4));
}

#[test]
fn a_projectile_is_a_hitbox_and_a_projectile() {
    assert_eq!(projectile_with_hitbox(Alignment::Player), CollisionLayers::from_bits(6, 32));
    assert_eq!(projectile_with_hitbox(Alignment::Enemy), CollisionLayers::from_bits(10, 16));
}

#[test]
fn hitboxes_and_hurtboxes_of_opposite_sides_meet() {
    let attack = with_hitbox(Alignment::Enemy);
    let player = character_with_hurtbox(Alignment::Player);
    let enemy = character_with_hurtbox(Alignment::Enemy);
    assert!(attack.interacts_with(player));
    assert!(!attack.interacts_with(enemy));
}

#[test]
fn a_timed_hitbox_is_taken_away_on_the_frame_after_its_lifetime() {
    let (mut layers, mut timer) = with_hitbox_for(Alignment::Enemy, Duration::from_millis(75));
    assert_eq!(layers, CollisionLayers::from_bits(8, 16));
    tick_disable_collider_on_time(&mut timer, &mut layers, Duration::from_millis(50));
    assert_eq!(layers, CollisionLayers::from_bits(8, 16));
    tick_disable_collider_on_time(&mut timer, &mut layers, Duration::from_millis(50));
    assert_eq!(layers, CollisionLayers::from_bits(8, 16));
    tick_disable_collider_on_time(&mut timer, &mut layers, Duration::from_millis(50));
    assert_eq!(layers, CollisionLayers::NONE);
    // later frames leave whatever layers the collider is given
    layers = CollisionLayers::from_bits(1, 1);
    tick_disable_collider_on_time(&mut timer, &mut layers, Duration::from_millis(50));
    assert_eq!(layers, CollisionLayers::from_bits(1, 1));
}
