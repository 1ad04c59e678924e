//! The fighter state machine: damage, death, stun, parry, movement.

use brawler::class::Class;
use brawler::effects::{Directive, EngineCmd, Envelope, VelCmd};
use brawler::geom::Vec2;
use brawler::messages::{Axis, Button, InputEvent, Knockback, Message};
use brawler::player::{Player, PlayerState};

fn fighter(class: Class) -> Player {
    // entity 1, weapon body 2, weapon collider 3
    Player::new(1, class, 2, 3)
}

fn hit_msg(damage: u32, body: u64, sender: u64) -> Message {
    Message::Hit {
        damage,
        knockback: Knockback { dir: Vec2 { x: 0, y: 1000 }, mag: 3000 },
        body,
        sender,
    }
}

#[test]
fn spawn_health_by_class() {
    assert_eq!(fighter(Class::Barbarian).health, 14);
    assert_eq!(fighter(Class::Fighter).health, 12);
    assert_eq!(fighter(Class::Rogue).health, 7);
    assert_eq!(fighter(Class::Wizard).health, 7);
    let p = fighter(Class::Fighter);
    assert_eq!(p.state, PlayerState::Idle);
    assert_eq!(p.cooldown, 0);
    assert_eq!(p.charges, 0);
    assert_eq!(p.facing, Vec2 { x: 0, y: 1000 });
}

#[test]
fn hit_reduces_health_and_stuns() {
    let mut p = fighter(Class::Fighter);
    let eff = p.on_message(&hit_msg(3, 1, 99));
    assert_eq!(p.health, 9);
    assert_eq!(p.state, PlayerState::Hit(0));
    // the weapon is told to put itself away
    assert_eq!(
        eff.sends,
        vec![Envelope { to: 2, msg: Message::Attack { start: false } }]
    );
    // HUD flagged, knockback applied as a velocity set
    assert_eq!(eff.cmds.len(), 2);
    assert_eq!(eff.cmds[0], Directive { to: 1, cmd: EngineCmd::HealthDirty });
    assert_eq!(
        eff.cmds[1],
        Directive {
            to: 1,
            cmd: EngineCmd::SetVel(VelCmd::Along { dir: Vec2 { x: 0, y: 1000 }, mag: 3000 }),
        }
    );
}

#[test]
fn hits_ignored_while_stunned() {
    let mut p = fighter(Class::Fighter);
    p.on_message(&hit_msg(3, 1, 99));
    assert_eq!(p.health, 9);
    let before = p;
    let eff = p.on_message(&hit_msg(5, 1, 99));
    assert_eq!(p, before);
    assert!(eff.sends.is_empty());
    assert!(eff.cmds.is_empty());
}

#[test]
fn lethal_hit_kills_instead_of_stunning() {
    // Target health 7 (Rogue), incoming damage 10: health 0, Dead, not Hit.
    let mut p = fighter(Class::Rogue);
    let eff = p.on_message(&hit_msg(10, 1, 99));
    assert_eq!(p.health, 0);
    assert!(matches!(p.state, PlayerState::Dead(_)));
    assert!(!p.enabled);
    assert_eq!(
        eff.sends,
        vec![Envelope { to: 2, msg: Message::Attack { start: false } }]
    );
    assert_eq!(eff.cmds[1], Directive { to: 1, cmd: EngineCmd::Disable });
}

#[test]
fn exactly_lethal_hit_floors_at_zero() {
    let mut p = fighter(Class::Rogue);
    p.on_message(&hit_msg(7, 1, 99));
    assert_eq!(p.health, 0);
    assert!(matches!(p.state, PlayerState::Dead(_)));
}

#[test]
fn dead_fighter_is_frozen() {
    let mut p = fighter(Class::Rogue);
    p.on_message(&hit_msg(10, 1, 99));
    let corpse = p;
    // no message moves it
    let eff = p.on_message(&hit_msg(5, 1, 99));
    assert_eq!(p, corpse);
    assert!(eff.sends.is_empty() && eff.cmds.is_empty());
    let eff = p.on_message(&Message::Controller {
        event: InputEvent::AxisChanged(Axis::LeftStickX, 1000),
    });
    assert_eq!(p, corpse);
    assert!(eff.sends.is_empty() && eff.cmds.is_empty());
    let eff = p.on_message(&Message::Controller {
        event: InputEvent::ButtonPressed(Button::RightTrigger),
    });
    assert_eq!(p, corpse);
    assert!(eff.sends.is_empty() && eff.cmds.is_empty());
    // no tick moves it either
    let eff = p.on_update(&vec![]);
    assert_eq!(p, corpse);
    assert!(eff.sends.is_empty() && eff.cmds.is_empty());
}

#[test]
fn attack_timing_is_deterministic() {
    // interval 15 + lag 12: in Attacking for exactly 27 ticks, then idle.
    let mut p = fighter(Class::Fighter);
    let eff = p.on_message(&Message::Controller {
        event: InputEvent::ButtonPressed(Button::RightTrigger),
    });
    assert_eq!(p.state, PlayerState::Attacking(1));
    assert_eq!(
        eff.sends,
        vec![Envelope { to: 2, msg: Message::Attack { start: true } }]
    );
    for i in 0..27 {
        assert_eq!(p.state, PlayerState::Attacking(1 + i));
        p.on_update(&vec![]);
    }
    assert_eq!(p.state, PlayerState::Idle);
}

#[test]
fn attack_end_tells_weapon_to_stop() {
    let mut p = fighter(Class::Fighter);
    p.on_message(&Message::Controller {
        event: InputEvent::ButtonPressed(Button::RightTrigger),
    });
    let mut stop_seen = false;
    for _ in 0..27 {
        let eff = p.on_update(&vec![]);
        if !eff.sends.is_empty() {
            assert_eq!(
                eff.sends,
                vec![Envelope { to: 2, msg: Message::Attack { start: false } }]
            );
            stop_seen = true;
        }
    }
    assert!(stop_seen);
    assert_eq!(p.state, PlayerState::Idle);
}

#[test]
fn melee_rejected_outside_idle_and_charging() {
    let mut p = fighter(Class::Fighter);
    p.on_message(&hit_msg(3, 1, 99));
    assert_eq!(p.state, PlayerState::Hit(0));
    let eff = p.on_message(&Message::Controller {
        event: InputEvent::ButtonPressed(Button::RightTrigger),
    });
    assert_eq!(p.state, PlayerState::Hit(0));
    assert!(eff.sends.is_empty());
}

#[test]
fn parry_deflects_blow_on_own_blade() {
    // A Hit whose struck body is the defender's own weapon, while parrying:
    // Parried goes back to the striker, health is untouched.
    let mut p = fighter(Class::Rogue);
    p.on_message(&Message::Controller {
        event: InputEvent::ButtonPressed(Button::RightThumb),
    });
    assert_eq!(p.state, PlayerState::Parry(0));
    let eff = p.on_message(&hit_msg(5, 2, 77));  // body 2 == p.weapon
    assert_eq!(p.health, 7);
    assert_eq!(p.state, PlayerState::Idle);
    assert_eq!(eff.sends.len(), 2);
    assert_eq!(eff.sends[0], Envelope { to: 77, msg: Message::Parried {} });
    assert_eq!(
        eff.sends[1],
        Envelope { to: 2, msg: Message::Attack { start: false } }
    );
}

#[test]
fn parry_does_not_deflect_body_blow() {
    // A blow on the fighter's own body lands even mid-parry.
    let mut p = fighter(Class::Rogue);
    p.on_message(&Message::Controller {
        event: InputEvent::ButtonPressed(Button::RightThumb),
    });
    let eff = p.on_message(&hit_msg(5, 1, 77));  // body 1 == the fighter itself
    assert_eq!(p.health, 2);
    assert_eq!(p.state, PlayerState::Hit(0));
    assert!(eff.sends.iter().all(|e| e.msg != Message::Parried {}));
}

#[test]
fn parry_arms_blade_and_runs_its_clock() {
    let mut p = fighter(Class::Fighter);
    let eff = p.on_message(&Message::Controller {
        event: InputEvent::ButtonPressed(Button::RightThumb),
    });
    // blade out in front: solid, visible, forward
    assert_eq!(eff.cmds[0], Directive { to: 2, cmd: EngineCmd::SetSensor(false) });
    assert_eq!(eff.cmds[1], Directive { to: 2, cmd: EngineCmd::SetVis(true) });
    assert_eq!(
        eff.cmds[2],
        Directive { to: 2, cmd: EngineCmd::SetRotation { milliturns: 0 } }
    );
    // frames 0..16 hold the blade; the 17th tick puts it away
    for i in 0..=16 {
        assert_eq!(p.state, PlayerState::Parry(i));
        let eff = p.on_update(&vec![]);
        if i == 16 {
            assert_eq!(
                eff.sends,
                vec![Envelope { to: 2, msg: Message::Attack { start: false } }]
            );
        } else {
            assert!(eff.sends.is_empty());
        }
    }
    // recovery to frame 28, then idle
    while matches!(p.state, PlayerState::Parry(_)) {
        p.on_update(&vec![]);
    }
    assert_eq!(p.state, PlayerState::Idle);
}

#[test]
fn hit_stun_blinks_and_recovers() {
    let mut p = fighter(Class::Barbarian);
    p.on_message(&hit_msg(4, 1, 99));
    assert_eq!(p.health, 10);
    let mut ticks = 0;
    while matches!(p.state, PlayerState::Hit(_)) {
        let before_vis = p.vis;
        let eff = p.on_update(&vec![]);
        ticks += 1;
        if matches!(p.state, PlayerState::Hit(_)) {
            // still stunned: visibility toggled
            assert_eq!(p.vis, !before_vis);
            assert_eq!(eff.cmds[0], Directive { to: 1, cmd: EngineCmd::SetVis(p.vis) });
        }
    }
    assert_eq!(p.state, PlayerState::Idle);
    assert!(p.vis);
    assert_eq!(ticks, 31);  // 30 blink frames, then the recovery tick
}

#[test]
fn left_stick_sets_scaled_velocity() {
    let mut p = fighter(Class::Rogue);  // speed 5000
    let eff = p.on_message(&Message::Controller {
        event: InputEvent::AxisChanged(Axis::LeftStickX, -1000),
    });
    assert_eq!(
        eff.cmds,
        vec![Directive { to: 1, cmd: EngineCmd::SetVel(VelCmd::PlaneX { vx: 5_000_000 }) }]
    );
    let eff = p.on_message(&Message::Controller {
        event: InputEvent::AxisChanged(Axis::LeftStickY, 500),
    });
    assert_eq!(
        eff.cmds,
        vec![Directive { to: 1, cmd: EngineCmd::SetVel(VelCmd::PlaneY { vy: 2_500_000 }) }]
    );
}

#[test]
fn right_stick_turns_but_centered_stick_keeps_facing() {
    let mut p = fighter(Class::Wizard);
    p.on_message(&Message::Controller {
        event: InputEvent::AxisChanged(Axis::RightStickX, 600),
    });
    assert_eq!(p.facing, Vec2 { x: -600, y: 1000 });
    p.on_message(&Message::Controller {
        event: InputEvent::AxisChanged(Axis::RightStickY, -250),
    });
    assert_eq!(p.facing, Vec2 { x: -600, y: -250 });
    // a centered stick does not erase the last facing
    p.on_message(&Message::Controller {
        event: InputEvent::AxisChanged(Axis::RightStickX, 0),
    });
    assert_eq!(p.facing, Vec2 { x: -600, y: -250 });
}

#[test]
fn aim_locked_mid_swing_and_movement_locked_in_stun() {
    let mut p = fighter(Class::Fighter);
    p.on_message(&Message::Controller {
        event: InputEvent::ButtonPressed(Button::RightTrigger),
    });
    p.on_message(&Message::Controller {
        event: InputEvent::AxisChanged(Axis::RightStickX, 900),
    });
    assert_eq!(p.facing, Vec2 { x: 0, y: 1000 });  // cannot turn mid-swing
    let mut q = fighter(Class::Fighter);
    q.on_message(&hit_msg(1, 1, 99));
    let eff = q.on_message(&Message::Controller {
        event: InputEvent::AxisChanged(Axis::LeftStickX, 1000),
    });
    assert!(eff.cmds.is_empty());  // cannot move in hit-stun
}

#[test]
fn charges_message_moves_the_bank() {
    let mut p = fighter(Class::Fighter);
    p.on_message(&Message::Charges { delta: 1 });
    p.on_message(&Message::Charges { delta: 1 });
    assert_eq!(p.charges, 2);
    p.on_message(&Message::Charges { delta: -1 });
    assert_eq!(p.charges, 1);
}

#[test]
fn update_reorients_look_and_counts_cooldown() {
    let mut p = fighter(Class::Wizard);
    let eff = p.on_update(&vec![]);
    assert_eq!(p.cooldown, 1);
    assert_eq!(
        eff.cmds,
        vec![Directive { to: 1, cmd: EngineCmd::Face { dir: Vec2 { x: 0, y: 1000 } } }]
    );
}
