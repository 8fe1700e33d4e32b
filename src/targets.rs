//! The landing targets of each phase and where they stand.

use vstd::prelude::*;

use crate::events::EntityId;
use crate::states::DayState;

verus! {

/// Marks everything that a phase change clears away.
#[derive(Debug, Clone, Copy, PartialEq, Eq, Structural)]
pub struct ClearOnDayTransition;

/// Marks the bowl under the evening soup.
#[derive(Debug, Clone, Copy, PartialEq, Eq, Structural)]
pub struct Bowl;

/// Marks the rim of a night hole.
#[derive(Debug, Clone, Copy, PartialEq, Eq, Structural)]
pub struct Rim;

/// Marks a night hole.
#[derive(Debug, Clone, Copy, PartialEq, Eq, Structural)]
pub struct Hole;

/// A landing zone: a ball on the floor within `radius` of its centre, along
/// the floor, lands in it.
#[derive(Debug, Clone, Copy, PartialEq, Eq, Structural)]
pub struct Target {
    pub radius: i64,
}

/// The two sprites (handle and basket) that belong to a basket label and go
/// with it.
#[derive(Debug, Clone, Copy, PartialEq, Eq, Structural)]
pub struct LinkedBaskets(pub EntityId, pub EntityId);

/// How the targets of a phase are laid out along the floor.
#[derive(Debug, Clone, Copy)]
pub struct TargetDetails {
    pub amount: u8,
    pub width: i64,
    pub height: i64,
    pub spacing: i64,
    pub speed: i64,
    pub top_sprite: &'static str,
    pub bottom_sprite: &'static str,
}

/// The number, width, height, spacing and speed of the targets of phase `day`.
pub open spec fn spec_target_numbers(day: DayState) -> (u8, i64, i64, i64, i64) {
    match day {
        DayState::Dawn => (0, 0, 0, 0, 0),
        DayState::Morning => (5, 128, 32, 60, 0),
        DayState::Evening => (1, 300, 25, 500, 100),
        DayState::Night => (3, 200, 25, 100, 0),
    }
}

/// The top and bottom sprites of the targets of phase `day`.
pub open spec fn spec_target_sprites(day: DayState) -> (Seq<char>, Seq<char>) {
    match day {
        DayState::Dawn => (""@, ""@),
        DayState::Morning => ("sprites/handle.png"@, "sprites/basket.png"@),
        DayState::Evening => ("sprites/soup.png"@, "sprites/bowl.png"@),
        DayState::Night => ("sprites/rim.png"@, "sprites/hole.png"@),
    }
}

/// The layout of the targets of phase `day`: five labelled baskets in the
/// morning, one moving soup bowl in the evening, three holes at night, none
/// at dawn.
pub fn target_details(day: DayState) -> (r: TargetDetails)
    ensures
        (r.amount, r.width, r.height, r.spacing, r.speed) == spec_target_numbers(day),
        (r.top_sprite@, r.bottom_sprite@) == spec_target_sprites(day),
        details_ok(r),
{
    match day {
        DayState::Dawn => TargetDetails {
            amount: 0,
            width: 0,
            height: 0,
            spacing: 0,
            speed: 0,
            top_sprite: "",
            bottom_sprite: "",
        },
        DayState::Morning => TargetDetails {
            amount: 5,
            width: 128,
            height: 32,
            spacing: 60,
            speed: 0,
            top_sprite: "sprites/handle.png",
            bottom_sprite: "sprites/basket.png",
        },
        DayState::Evening => TargetDetails {
            amount: 1,
            width: 300,
            height: 25,
            spacing: 500,
            speed: 100,
            top_sprite: "sprites/soup.png",
            bottom_sprite: "sprites/bowl.png",
        },
        DayState::Night => TargetDetails {
            amount: 3,
            width: 200,
            height: 25,
            spacing: 100,
            speed: 0,
            top_sprite: "sprites/rim.png",
            bottom_sprite: "sprites/hole.png",
        },
    }
}

/// The layouts that `target_details` gives have small, non-negative sizes.
pub open spec fn details_ok(d: TargetDetails) -> bool {
    &&& 0 <= d.width <= 1000
    &&& 0 <= d.spacing <= 1000
}

/// The centre of target `i` along the floor: each target is `spacing` after
/// the end of the one before it.
pub fn target_center_x(d: &TargetDetails, i: u8) -> (r: i64)
    requires
        details_ok(*d),
    ensures
        r == i * (d.spacing + d.width) + d.spacing + d.width / 2,
{
    proof {
        assert(0 <= i * (d.spacing + d.width) <= 255 * 2000) by (nonlinear_arith)
            requires
                0 <= i <= 255,
                0 <= d.spacing + d.width <= 2000,
        ;
    }
    (i as i64) * (d.spacing + d.width) + d.spacing + d.width / 2
}

/// The capture radius of the targets of a layout: half their width.
pub fn target_radius(d: &TargetDetails) -> (r: Target)
    requires
        details_ok(*d),
    ensures
        r.radius == d.width / 2,
{
    Target { radius: d.width / 2 }
}

} // verus!
