//! The class specials: Wizard and Fighter shots, the charge bank, the
//! Barbarian dash and the Rogue riposte.

use brawler::class::Class;
use brawler::collision::{FighterRef, Overlap, OverlapSide};
use brawler::effects::{Directive, EngineCmd, ProjectileSpawn, VelCmd};
use brawler::geom::Vec2;
use brawler::messages::{Button, InputEvent, Message};
use brawler::player::{Player, PlayerState};

fn fighter(class: Class) -> Player {
    Player::new(1, class, 2, 3)
}

fn special() -> Message {
    Message::Controller { event: InputEvent::ButtonPressed(Button::LeftTrigger) }
}

#[test]
fn wizard_fires_once_off_cooldown() {
    let mut p = fighter(Class::Wizard);
    // cooldown 0: gate shut, nothing happens
    let eff = p.on_message(&special());
    assert!(eff.cmds.is_empty());
    assert_eq!(p.cooldown, 0);
    // run the clock past RCOOL
    for _ in 0..61 {
        p.on_update(&vec![]);
    }
    let eff = p.on_message(&special());
    assert_eq!(p.cooldown, 0);  // reset by the shot
    assert_eq!(
        eff.cmds,
        vec![Directive {
            to: 1,
            cmd: EngineCmd::Spawn(ProjectileSpawn {
                owner: 1,
                facing: Vec2 { x: 0, y: 1000 },
                offset: 1250,
                speed: 4500,
                life: 120,
            }),
        }]
    );
}

#[test]
fn fighter_shot_spends_exactly_one_charge() {
    let mut p = fighter(Class::Fighter);
    for _ in 0..61 {
        p.on_update(&vec![]);
    }
    // empty bank: the press is a no-op and the bank is unchanged
    let before = p;
    let eff = p.on_message(&special());
    assert_eq!(p, before);
    assert!(eff.cmds.is_empty() && eff.sends.is_empty());
    // one banked charge: the press fires and spends exactly one
    p.on_message(&Message::Charges { delta: 2 });
    let eff = p.on_message(&special());
    assert_eq!(p.charges, 1);
    assert_eq!(eff.cmds.len(), 1);
    assert!(matches!(eff.cmds[0].cmd, EngineCmd::Spawn(_)));
}

#[test]
fn fighter_attempt_spends_charge_even_when_gate_is_shut() {
    // An attempt with credit spends its charge whether or not the cooldown
    // lets the shot off.
    let mut p = fighter(Class::Fighter);
    p.on_message(&Message::Charges { delta: 1 });
    let eff = p.on_message(&special());  // cooldown still 0
    assert_eq!(p.charges, 0);
    assert!(eff.cmds.is_empty());
}

#[test]
fn barbarian_dash_and_brake() {
    let mut p = fighter(Class::Barbarian);
    for _ in 0..301 {
        p.on_update(&vec![]);
    }
    let eff = p.on_message(&special());
    assert_eq!(p.state, PlayerState::Charging);
    assert_eq!(p.cooldown, 0);
    // six times walking speed, along the facing
    assert_eq!(
        eff.cmds,
        vec![Directive {
            to: 1,
            cmd: EngineCmd::SetVel(VelCmd::Along { dir: Vec2 { x: 0, y: 1000 }, mag: 15000 }),
        }]
    );
    // the dash runs CHARLEN ticks, then the fighter stops dead
    let mut stopped = false;
    for _ in 0..10 {
        let eff = p.on_update(&vec![]);
        if eff.cmds.iter().any(|d| d.cmd == EngineCmd::SetVel(VelCmd::Stop)) {
            stopped = true;
        }
    }
    assert!(stopped);
    assert_eq!(p.state, PlayerState::Idle);
}

#[test]
fn barbarian_dash_needs_long_cooldown() {
    let mut p = fighter(Class::Barbarian);
    for _ in 0..100 {
        p.on_update(&vec![]);
    }
    p.on_message(&special());
    assert_eq!(p.state, PlayerState::Idle);  // gate still shut at 100 < 300
}

fn blade_contact(active: bool) -> Overlap {
    Overlap {
        a: OverlapSide { collider: 3, body: 2, fighter: Some(FighterRef { id: 1, state: PlayerState::Idle }) },
        b: OverlapSide { collider: 40, body: 41, fighter: Some(FighterRef { id: 42, state: PlayerState::Idle }) },
        active,
    }
}

#[test]
fn riposte_window_hits_then_closes() {
    // For ticks 0..9 the blade is active and hit-tests run; at tick 10 the
    // fighter is idle again, hit or no hit.
    let mut p = fighter(Class::Rogue);
    let eff = p.on_message(&special());
    assert_eq!(p.state, PlayerState::Riposting);
    assert_eq!(p.cooldown, 0);
    assert_eq!(
        eff.cmds,
        vec![
            Directive { to: 2, cmd: EngineCmd::SetRotation { milliturns: 0 } },
            Directive { to: 2, cmd: EngineCmd::SetVis(true) },
        ]
    );
    let feed = vec![blade_contact(true)];
    for i in 0..10 {
        assert_eq!(p.state, PlayerState::Riposting);
        assert_eq!(p.cooldown, i);
        let eff = p.on_update(&feed);
        // an active contact in the window is struck for 3 x Rogue damage
        assert_eq!(eff.sends.len(), 1);
        assert_eq!(eff.sends[0].to, 42);
        match eff.sends[0].msg {
            Message::Hit { damage, body, sender, .. } => {
                assert_eq!(damage, 6);
                assert_eq!(body, 41);
                assert_eq!(sender, 1);
            },
            _ => panic!("expected a Hit"),
        }
        // and the blade lunges forward
        assert!(eff.cmds.contains(&Directive {
            to: 2,
            cmd: EngineCmd::Offset { dx: 0, dy: 100 },
        }));
    }
    let eff = p.on_update(&feed);
    assert_eq!(p.state, PlayerState::Idle);
    assert_eq!(
        eff.sends[0],
        brawler::effects::Envelope { to: 2, msg: Message::Attack { start: false } }
    );
}

#[test]
fn riposte_closes_without_any_hit() {
    let mut p = fighter(Class::Rogue);
    p.on_message(&special());
    for _ in 0..11 {
        p.on_update(&vec![]);
    }
    assert_eq!(p.state, PlayerState::Idle);
}

#[test]
fn riposte_ignores_inactive_contacts_and_itself() {
    let mut p = fighter(Class::Rogue);
    p.on_message(&special());
    // inactive contact: no hit
    let eff = p.on_update(&vec![blade_contact(false)]);
    assert!(eff.sends.is_empty());
    // a pair resolving back to the rogue itself: no hit
    let own = Overlap {
        a: OverlapSide { collider: 3, body: 2, fighter: Some(FighterRef { id: 1, state: PlayerState::Riposting }) },
        b: OverlapSide { collider: 8, body: 1, fighter: Some(FighterRef { id: 1, state: PlayerState::Riposting }) },
        active: true,
    };
    let eff = p.on_update(&vec![own]);
    assert!(eff.sends.is_empty());
}

#[test]
fn riposte_only_from_idle() {
    let mut p = fighter(Class::Rogue);
    p.on_message(&Message::Controller { event: InputEvent::ButtonPressed(Button::RightTrigger) });
    assert_eq!(p.state, PlayerState::Attacking(1));
    p.on_message(&special());
    assert_eq!(p.state, PlayerState::Attacking(1));  // rejected mid-swing
}
