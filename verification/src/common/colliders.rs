//! Hitboxes and hurtboxes: which collision layers an actor's colliders belong to and
//! which they report contacts with.

use crate::timer::advance;
use crate::timer::nanos;
use crate::timer::timer_model;
use crate::timer::TimerModel;
use avian2d::collision::CollisionLayers;
use avian2d::collision::LayerMask;
use bevy::time::Timer;
use bevy::time::TimerMode;
use std::ops::Not;
use std::time::Duration;
use vstd::prelude::*;

verus! {

#[verifier::external_type_specification]
pub struct ExLayerMask(LayerMask);

#[verifier::external_type_specification]
pub struct ExCollisionLayers(CollisionLayers);

/// `CollisionLayers::from_bits` stores the two masks as they are given.
pub assume_specification[ CollisionLayers::from_bits ](memberships: u32, filters: u32) -> (r:
    CollisionLayers)
    ensures
        r.memberships.0 == memberships,
        r.filters.0 == filters,
;

/// Whose side a collider is on.
#[derive(Clone, Copy, Debug, PartialEq, Eq, Structural)]
pub enum Alignment {
    Player,
    Enemy,
}

/// The collision layers of the game. Each has a bit of its own, in the order of
/// declaration.
#[derive(Clone, Copy, Debug, PartialEq, Eq, Structural)]
pub enum CollisionMask {
    Character,
    Projectile,
    PlayerHitbox,
    EnemyHitbox,
    PlayerHurtbox,
    EnemyHurtbox,
}

impl Alignment {
    /// The layer of the hitboxes of this side.
    #[inline]
    pub fn hitbox(self) -> (mask: CollisionMask)
        ensures
            mask == self.spec_hitbox(),
    {
        match self {
            Alignment::Player => CollisionMask::PlayerHitbox,
            Alignment::Enemy => CollisionMask::EnemyHitbox,
        }
    }

    /// The layer of the hurtboxes of this side.
    #[inline]
    pub fn hurtbox(self) -> (mask: CollisionMask)
        ensures
            mask == self.spec_hurtbox(),
    {
        match self {
            Alignment::Player => CollisionMask::PlayerHurtbox,
            Alignment::Enemy => CollisionMask::EnemyHurtbox,
        }
    }

    pub open spec fn spec_hitbox(self) -> CollisionMask {
        match self {
            Alignment::Player => CollisionMask::PlayerHitbox,
            Alignment::Enemy => CollisionMask::EnemyHitbox,
        }
    }

    pub open spec fn spec_hurtbox(self) -> CollisionMask {
        match self {
            Alignment::Player => CollisionMask::PlayerHurtbox,
            Alignment::Enemy => CollisionMask::EnemyHurtbox,
        }
    }

    pub open spec fn opponent(self) -> Alignment {
        match self {
            Alignment::Player => Alignment::Enemy,
            Alignment::Enemy => Alignment::Player,
        }
    }
}

impl Not for Alignment {
    type Output = Self;

    /// The other side.
    #[inline]
    fn not(self) -> (other: Alignment) {
        match self {
            Alignment::Player => Alignment::Enemy,
            Alignment::Enemy => Alignment::Player,
        }
    }
}

impl vstd::std_specs::ops::NotSpecImpl for Alignment {
    open spec fn obeys_not_spec() -> bool {
        true
    }

    open spec fn not_req(self) -> bool {
        true
    }

    open spec fn not_spec(self) -> Alignment {
        self.opponent()
    }
}

impl CollisionMask {
    /// The bit of the layer.
    pub open spec fn bits(self) -> u32 {
        match self {
            CollisionMask::Character => 0b00_0001,
            CollisionMask::Projectile => 0b00_0010,
            CollisionMask::PlayerHitbox => 0b00_0100,
            CollisionMask::EnemyHitbox => 0b00_1000,
            CollisionMask::PlayerHurtbox => 0b01_0000,
            CollisionMask::EnemyHurtbox => 0b10_0000,
        }
    }

    pub fn to_bits(&self) -> (bits: u32)
        ensures
            bits == self.bits(),
    {
        match self {
            CollisionMask::Character => 0b00_0001,
            CollisionMask::Projectile => 0b00_0010,
            CollisionMask::PlayerHitbox => 0b00_0100,
            CollisionMask::EnemyHitbox => 0b00_1000,
            CollisionMask::PlayerHurtbox => 0b01_0000,
            CollisionMask::EnemyHurtbox => 0b10_0000,
        }
    }

    /// The bits of all layers together.
    pub fn all_bits() -> (bits: u32)
        ensures
            bits == 0b11_1111,
    {
        0b11_1111
    }
}

/// The layers of a hitbox: it is one of its side's hitboxes and reports contacts
/// with the other side's hurtboxes.
pub fn with_hitbox(alignment: Alignment) -> (layers: CollisionLayers)
    ensures
        layers.memberships.0 == alignment.spec_hitbox().bits(),
        layers.filters.0 == alignment.opponent().spec_hurtbox().bits(),
{
    CollisionLayers::from_bits(alignment.hitbox().to_bits(), alignment.not().hurtbox().to_bits())
}

/// The layers of a hitbox that is to vanish after `hitbox_lifetime`, and the
/// countdown that takes it away.
pub fn with_hitbox_for(alignment: Alignment, hitbox_lifetime: Duration) -> (hitbox: (
    CollisionLayers,
    DisableColliderOnTimer,
))
    ensures
        hitbox.0.memberships.0 == alignment.spec_hitbox().bits(),
        hitbox.0.filters.0 == alignment.opponent().spec_hurtbox().bits(),
        hitbox.1@ == TimerModel::fresh(nanos(hitbox_lifetime), TimerMode::Once),
{
    (
        CollisionLayers::from_bits(
            alignment.hitbox().to_bits(),
            alignment.not().hurtbox().to_bits(),
        ),
        DisableColliderOnTimer { timer: Timer::new(hitbox_lifetime, TimerMode::Once) },
    )
}

/// The layers of a hurtbox: it is one of its side's hurtboxes and reports contacts
/// with the other side's hitboxes.
pub fn with_hurtbox(alignment: Alignment) -> (layers: CollisionLayers)
    ensures
        layers.memberships.0 == alignment.spec_hurtbox().bits(),
        layers.filters.0 == alignment.opponent().spec_hitbox().bits(),
{
    CollisionLayers::from_bits(alignment.hurtbox().to_bits(), alignment.not().hitbox().to_bits())
}

/// The layers of a character's hurtbox: a hurtbox that is a character as well, so
/// that walls stop it.
pub fn character_with_hurtbox(alignment: Alignment) -> (layers: CollisionLayers)
    ensures
        layers.memberships.0 == CollisionMask::Character.bits() | alignment.spec_hurtbox().bits(),
        layers.filters.0 == alignment.opponent().spec_hitbox().bits(),
{
    CollisionLayers::from_bits(
        CollisionMask::Character.to_bits() | alignment.hurtbox().to_bits(),
        alignment.not().hitbox().to_bits(),
    )
}

/// The layers of a projectile's hitbox: a hitbox that is a projectile as well, so
/// that walls notice it.
pub fn projectile_with_hitbox(alignment: Alignment) -> (layers: CollisionLayers)
    ensures
        layers.memberships.0 == CollisionMask::Projectile.bits() | alignment.spec_hitbox().bits(),
        layers.filters.0 == alignment.opponent().spec_hurtbox().bits(),
{
    CollisionLayers::from_bits(
        CollisionMask::Projectile.to_bits() | alignment.hitbox().to_bits(),
        alignment.not().hurtbox().to_bits(),
    )
}

/// Disables a collider by taking it out of every layer once a countdown completes.
pub struct DisableColliderOnTimer {
    timer: Timer,
}

impl View for DisableColliderOnTimer {
    type V = TimerModel;

    closed spec fn view(&self) -> TimerModel {
        timer_model(self.timer)
    }
}

/// One frame of a collider's countdown. Where the previous tick completed it, the
/// collider leaves every layer and stops reporting contacts; else the layers stay.
/// Then the countdown advances by `delta`.
pub fn tick_disable_collider_on_time(
    timer: &mut DisableColliderOnTimer,
    layers: &mut CollisionLayers,
    delta: Duration,
)
    ensures
        old(timer)@.just_finished() ==> final(layers).memberships.0 == 0 && final(layers).filters.0
            == 0,
        !old(timer)@.just_finished() ==> *final(layers) == *old(layers),
        final(timer)@ == old(timer)@.advance(nanos(delta)),
{
    if timer.timer.just_finished() {
        *layers = CollisionLayers::from_bits(0, 0);
    }
    advance(&mut timer.timer, delta);
}

} // verus!
