//! Spawn requests toward the scene collaborator.
//!
//! The engine owns node creation; the combat core owns what is to be
//! created.  Each builder here computes the full parameter set of one spawn
//! request — body kind, collider shape, tuning constants, sprite and
//! placement — and the engine carries it out unchanged.

use vstd::prelude::*;

use crate::class::Class;
use vstd::string::StringExecFns;
use crate::geom::Vec2;

verus! {

/// How the physics engine is to move a spawned body.
#[derive(Clone, Copy, PartialEq, Eq, Structural, Debug)]
pub enum BodyKind {
    /// Forces and collisions move it.
    Dynamic,
    /// Moved only by direct position writes (the weapon).
    KinematicPosition,
    /// Moved only by velocity writes (a fighter's hull).
    KinematicVelocity,
}

/// A rigid body with one collider, as the engine is asked to build it.
/// Lengths in thousandths of a unit, the mass in thousandths of the engine's
/// mass unit.
#[derive(Clone, Copy, PartialEq, Eq, Structural, Debug)]
pub struct BodySpawn {
    pub kind: BodyKind,
    /// Collider half-width.
    pub half_w: u32,
    /// Collider half-height.
    pub half_h: u32,
    /// Whether the collider only senses overlap, without physical response.
    pub sensor: bool,
    pub mass: u32,
    /// Gravity scale; 0 for the top-down arena bodies.
    pub gravity: u32,
    pub can_sleep: bool,
    pub rotation_locked: bool,
    /// Continuous collision detection, for fast thin shapes.
    pub ccd: bool,
}

/// A textured rectangle sprite, tinted with an opaque color.
#[derive(Clone, PartialEq, Eq, Debug)]
pub struct SpriteSpawn {
    /// Side length of the square sprite, thousandths of a unit.
    pub scale: u32,
    pub red: u8,
    pub green: u8,
    pub blue: u8,
    pub alpha: u8,
    /// Asset path of the texture.
    pub texture: String,
}

/// A text widget.
#[derive(Clone, PartialEq, Eq, Debug)]
pub struct TextSpawn {
    pub text: String,
    /// Whether the text is centered both ways in its widget.
    pub centered: bool,
}

/// Everything needed to spawn one fighter: its hull, its sprite, its weapon
/// body, and where it starts.
#[derive(Clone, PartialEq, Eq, Debug)]
pub struct PlayerSpawn {
    pub class: Class,
    pub body: BodySpawn,
    pub sprite: SpriteSpawn,
    pub weapon: BodySpawn,
    /// Starting position, thousandths of a unit.
    pub pos: Vec2,
}

/// The hull of a fighter: a small dynamic box that gravity ignores, kept
/// upright and never allowed to sleep.
pub open spec fn spec_cube_rigid_body() -> BodySpawn {
    BodySpawn {
        kind: BodyKind::Dynamic,
        half_w: 250,
        half_h: 200,
        sensor: false,
        mass: 2000,
        gravity: 0,
        can_sleep: false,
        rotation_locked: true,
        ccd: false,
    }
}

pub fn create_cube_rigid_body() -> (r: BodySpawn)
    ensures
        r == spec_cube_rigid_body(),
{
    BodySpawn {
        kind: BodyKind::Dynamic,
        half_w: 250,
        half_h: 200,
        sensor: false,
        mass: 2000,
        gravity: 0,
        can_sleep: false,
        rotation_locked: true,
        ccd: false,
    }
}

/// A velocity-driven sensor box of half a unit on each side.
pub open spec fn spec_kinematic_rigid_body() -> BodySpawn {
    BodySpawn {
        kind: BodyKind::KinematicVelocity,
        half_w: 500,
        half_h: 500,
        sensor: true,
        mass: 1000,
        gravity: 1000,
        can_sleep: true,
        rotation_locked: false,
        ccd: false,
    }
}

pub fn create_kinematic_rigid_body() -> (r: BodySpawn)
    ensures
        r == spec_kinematic_rigid_body(),
{
    BodySpawn {
        kind: BodyKind::KinematicVelocity,
        half_w: 500,
        half_h: 500,
        sensor: true,
        mass: 1000,
        gravity: 1000,
        can_sleep: true,
        rotation_locked: false,
        ccd: false,
    }
}

/// The weapon body of a class: a position-driven sensor box of the class's
/// blade shape, with continuous collision detection for the sweep.
pub open spec fn spec_weapon_body(class: Class) -> BodySpawn {
    BodySpawn {
        kind: BodyKind::KinematicPosition,
        half_w: class.profile_spec().half_w,
        half_h: class.profile_spec().half_h,
        sensor: true,
        mass: 1000,
        gravity: 1000,
        can_sleep: true,
        rotation_locked: false,
        ccd: true,
    }
}

pub fn create_weapon_body(class: &Class) -> (r: BodySpawn)
    ensures
        r == spec_weapon_body(*class),
{
    let prof = class.profile();
    BodySpawn {
        kind: BodyKind::KinematicPosition,
        half_w: prof.half_w,
        half_h: prof.half_h,
        sensor: true,
        mass: 1000,
        gravity: 1000,
        can_sleep: true,
        rotation_locked: false,
        ccd: true,
    }
}

/// A fighter's sprite: a square of 0.4 units, tinted with the player's
/// opaque color, textured with the given asset.  The color triple must hold
/// at least red, green and blue.
pub fn create_rect(color: &Vec<u8>, shape: String) -> (r: SpriteSpawn)
    requires
        color@.len() >= 3,
    ensures
        r.scale == 400,
        r.red == color@[0],
        r.green == color@[1],
        r.blue == color@[2],
        r.alpha == 255,
        r.texture@ == shape@,
{
    SpriteSpawn {
        scale: 400,
        red: color[0],
        green: color[1],
        blue: color[2],
        alpha: 255,
        texture: shape,
    }
}

/// A plain text widget.
pub fn create_text(text: String) -> (r: TextSpawn)
    ensures
        r.text@ == text@,
        r.centered == false,
{
    TextSpawn { text, centered: false }
}

/// A text widget centered both horizontally and vertically.
pub fn create_centered_text(text: String) -> (r: TextSpawn)
    ensures
        r.text@ == text@,
        r.centered == true,
{
    TextSpawn { text, centered: true }
}

/// Vertical placement of text within a widget.
#[derive(Clone, Copy, PartialEq, Eq, Structural, Debug)]
pub enum VAlign {
    Top,
    Center,
    Bottom,
    Stretch,
}

/// Horizontal placement of text within a widget.
#[derive(Clone, Copy, PartialEq, Eq, Structural, Debug)]
pub enum HAlign {
    Left,
    Center,
    Right,
    Stretch,
}

/// A HUD label: black text over a colored backing, placed on screen in
/// whole pixels, created hidden until the match needs it.
#[derive(Clone, PartialEq, Eq, Debug)]
pub struct LabelSpawn {
    pub text: String,
    pub x: i32,
    pub y: i32,
    /// Backing color, opaque.
    pub red: u8,
    pub green: u8,
    pub blue: u8,
    pub visible: bool,
}

/// A clickable menu button with its caption, in whole pixels.
#[derive(Clone, PartialEq, Eq, Debug)]
pub struct ButtonSpawn {
    pub text: String,
    pub x: i32,
    pub y: i32,
    pub width: i32,
    pub height: i32,
    pub valign: Option<VAlign>,
    pub halign: Option<HAlign>,
}

/// A health label of the HUD: text on a colored backing at a screen
/// position, starting hidden.
pub fn create_text_with_background(text: String, x: i32, y: i32, red: u8, green: u8, blue: u8)
    -> (r: LabelSpawn)
    ensures
        r == (LabelSpawn { text, x, y, red, green, blue, visible: false }),
{
    LabelSpawn { text, x, y, red, green, blue, visible: false }
}

/// One button of the class-select menu, with its caption and optional text
/// alignment.
pub fn create_player_class_button(
    x: i32,
    y: i32,
    width: i32,
    height: i32,
    text: String,
    valign: Option<VAlign>,
    halign: Option<HAlign>,
) -> (r: ButtonSpawn)
    ensures
        r == (ButtonSpawn { text, x, y, width, height, valign, halign }),
{
    ButtonSpawn { text, x, y, width, height, valign, halign }
}

/// The class-select screen's button grid: after the start button at index
/// 0, each player slot owns four buttons in class order — Barbarian,
/// Rogue, Wizard, Fighter.  Which slot and class a clicked button index
/// stands for; the start button and anything past the grid choose nothing.
pub fn class_button(index: usize) -> (r: Option<(usize, Class)>)
    ensures
        r is Some <==> 1 <= index <= 16,
        r matches Some((slot, class)) ==> {
            &&& slot == (index - 1) / 4
            &&& ((index - 1) % 4 == 0 ==> class is Barbarian)
            &&& ((index - 1) % 4 == 1 ==> class is Rogue)
            &&& ((index - 1) % 4 == 2 ==> class is Wizard)
            &&& ((index - 1) % 4 == 3 ==> class is Fighter)
        },
{
    if index == 0 || index > 16 {
        return None;
    }
    let slot = (index - 1) / 4;
    let class = match (index - 1) % 4 {
        0 => Class::Barbarian,
        1 => Class::Rogue,
        2 => Class::Wizard,
        _ => Class::Fighter,
    };
    Some((slot, class))
}

/// The text of one health bar on the match HUD: one `x` per point of
/// health, rebuilt whenever a fighter's health changes.
pub fn health_text(health: u32) -> (r: String)
    ensures
        r@.len() == health,
        forall|i: int| 0 <= i < r@.len() ==> r@[i] == 'x',
{
    proof {
        reveal_strlit("");
        reveal_strlit("x");
    }
    let mut text = String::from_str("");
    let mut i: u32 = 0;
    while i < health
        invariant
            i <= health,
            text@.len() == i,
            forall|j: int| 0 <= j < text@.len() ==> text@[j] == 'x',
        decreases health - i,
    {
        proof {
            reveal_strlit("x");
        }
        text.append("x");
        i = i + 1;
    }
    text
}

/// The sprite asset of each class.
pub fn class_sprite_path(class: &Class) -> (r: String)
    ensures
        *class is Barbarian ==> r@ == "data/White_square.png"@,
        *class is Fighter ==> r@ == "data/White_circle.png"@,
        *class is Rogue ==> r@ == "data/White_triangle.png"@,
        *class is Wizard ==> r@ == "data/White_star.png"@,
{
    match class {
        Class::Barbarian => String::from_str("data/White_square.png"),
        Class::Fighter => String::from_str("data/White_circle.png"),
        Class::Rogue => String::from_str("data/White_triangle.png"),
        Class::Wizard => String::from_str("data/White_star.png"),
    }
}

/// The spawn request for player number `player_num` (1 to 4) of the given
/// class: the team color and starting corner of that slot, the class's
/// sprite, hull and weapon body.  Beyond four players there is nothing to
/// spawn.
pub fn create_player(player_num: i8, player_class: Class) -> (r: Option<PlayerSpawn>)
    ensures
        r is Some <==> 1 <= player_num <= 4,
        r matches Some(s) ==> {
            &&& s.class == player_class
            &&& s.body == spec_cube_rigid_body()
            &&& s.weapon == spec_weapon_body(player_class)
            &&& s.sprite.scale == 400
            &&& s.sprite.alpha == 255
            &&& player_num == 1 ==> s.sprite.red == 66 && s.sprite.green == 245
                && s.sprite.blue == 158 && s.pos == (Vec2 { x: 6000, y: 3000 })
            &&& player_num == 2 ==> s.sprite.red == 66 && s.sprite.green == 167
                && s.sprite.blue == 245 && s.pos == (Vec2 { x: -6000i32, y: 3000 })
            &&& player_num == 3 ==> s.sprite.red == 194 && s.sprite.green == 136
                && s.sprite.blue == 252 && s.pos == (Vec2 { x: -6000i32, y: -3000i32 })
            &&& player_num == 4 ==> s.sprite.red == 250 && s.sprite.green == 135
                && s.sprite.blue == 215 && s.pos == (Vec2 { x: 6000, y: -3000i32 })
        },
{
    let (red, green, blue, pos): (u8, u8, u8, Vec2) = if player_num == 1 {
        (66, 245, 158, Vec2 { x: 6000, y: 3000 })
    } else if player_num == 2 {
        (66, 167, 245, Vec2 { x: -6000, y: 3000 })
    } else if player_num == 3 {
        (194, 136, 252, Vec2 { x: -6000, y: -3000 })
    } else if player_num == 4 {
        (250, 135, 215, Vec2 { x: 6000, y: -3000 })
    } else {
        return None;
    };
    let texture = class_sprite_path(&player_class);
    Some(
        PlayerSpawn {
            class: player_class,
            body: create_cube_rigid_body(),
            sprite: SpriteSpawn { scale: 400, red, green, blue, alpha: 255, texture },
            weapon: create_weapon_body(&player_class),
            pos,
        },
    )
}

} // verus!
