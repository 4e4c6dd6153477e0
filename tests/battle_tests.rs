use dnd_battle::battle::{Action, Battle, Outcome, TurnReport};
use dnd_battle::character::{
    Character, ClassType, BASE_ATTACK_MAX, BASE_ATTACK_MIN, BASE_HEALTH_MAX, BASE_HEALTH_MIN,
    HEAL_AMOUNT,
};
use dnd_battle::selection::{action_from_selector, class_from_selector, parse_action, parse_class};

fn modifiers(class: ClassType) -> (i32, i32) {
    match class {
        ClassType::Warrior => (20, -2),
        ClassType::Mage => (-10, 5),
        ClassType::Rogue => (0, 2),
    }
}

#[test]
fn from_base_applies_class_modifiers() {
    let w = Character::from_base("Ann", ClassType::Warrior, 100, 20);
    assert_eq!((w.health(), w.attack()), (120, 18));
    let m = Character::from_base("Ann", ClassType::Mage, 100, 20);
    assert_eq!((m.health(), m.attack()), (90, 25));
    let r = Character::from_base("Ann", ClassType::Rogue, 100, 20);
    assert_eq!((r.health(), r.attack()), (100, 22));
    assert_eq!(w.name(), "Ann");
    assert_eq!(w.class(), ClassType::Warrior);
    assert!(!w.potion_used());
}

#[test]
fn created_stats_stay_in_class_ranges() {
    for class in [ClassType::Warrior, ClassType::Mage, ClassType::Rogue] {
        let (dh, da) = modifiers(class);
        for _ in 0..200 {
            let c = Character::new("Hero", class);
            assert!(BASE_HEALTH_MIN + dh <= c.health() && c.health() <= BASE_HEALTH_MAX + dh);
            assert!(BASE_ATTACK_MIN + da <= c.attack() && c.attack() <= BASE_ATTACK_MAX + da);
            assert_eq!(c.name(), "Hero");
            assert_eq!(c.class(), class);
            assert!(!c.potion_used());
        }
    }
}

#[test]
fn created_stats_are_drawn_not_fixed() {
    let first = Character::new("Hero", ClassType::Rogue);
    let mut differs = false;
    for _ in 0..200 {
        let c = Character::new("Hero", ClassType::Rogue);
        if c.health() != first.health() || c.attack() != first.attack() {
            differs = true;
        }
    }
    assert!(differs);
}

#[test]
fn heal_works_exactly_once() {
    let mut c = Character::from_base("Ann", ClassType::Mage, 80, 15);
    assert_eq!(c.health(), 70);
    assert!(c.heal());
    assert_eq!(c.health(), 70 + HEAL_AMOUNT);
    assert!(c.potion_used());
    assert!(!c.heal());
    assert_eq!(c.health(), 100);
    assert!(!c.heal());
    assert_eq!(c.health(), 100);
}

#[test]
fn take_damage_subtracts_exactly() {
    let mut c = Character::from_base("Ann", ClassType::Rogue, 100, 20);
    c.take_damage(7);
    assert_eq!(c.health(), 93);
    c.take_damage(0);
    assert_eq!(c.health(), 93);
    c.take_damage(-12);
    assert_eq!(c.health(), 105);
    c.take_damage(500);
    assert_eq!(c.health(), -395);
    assert!(!c.is_alive());
}

#[test]
fn alive_only_with_positive_health() {
    let mut c = Character::from_base("Ann", ClassType::Rogue, 80, 20);
    c.take_damage(79);
    assert_eq!(c.health(), 1);
    assert!(c.is_alive());
    c.take_damage(1);
    assert_eq!(c.health(), 0);
    assert!(!c.is_alive());
}

#[test]
fn attack_target_deals_damage_in_range() {
    let attacker = Character::from_base("Ann", ClassType::Warrior, 100, 20);
    for _ in 0..200 {
        let mut target = Character::from_base("Gob", ClassType::Warrior, 100, 20);
        let damage = attacker.attack_target(&mut target);
        assert!(13 <= damage && damage <= 23);
        assert_eq!(target.health(), 120 - damage);
    }
}

#[test]
fn class_names() {
    assert_eq!(Character::from_base("a", ClassType::Warrior, 90, 20).class_name(), "Warrior");
    assert_eq!(Character::from_base("a", ClassType::Mage, 90, 20).class_name(), "Mage");
    assert_eq!(Character::from_base("a", ClassType::Rogue, 90, 20).class_name(), "Rogue");
}

#[test]
fn selectors_name_actions_and_classes() {
    assert_eq!(action_from_selector("1"), Some(Action::Attack));
    assert_eq!(action_from_selector("2"), Some(Action::Heal));
    assert_eq!(action_from_selector("3"), None);
    assert_eq!(action_from_selector(" 1"), None);
    assert_eq!(action_from_selector(""), None);
    assert_eq!(class_from_selector("1"), Some(ClassType::Warrior));
    assert_eq!(class_from_selector("2"), Some(ClassType::Mage));
    assert_eq!(class_from_selector("3"), Some(ClassType::Rogue));
    assert_eq!(class_from_selector("4"), None);
    assert_eq!(class_from_selector("11"), None);
}

#[test]
fn input_lines_are_trimmed() {
    assert_eq!(parse_action("1\n"), Some(Action::Attack));
    assert_eq!(parse_action("  2 \r\n"), Some(Action::Heal));
    assert_eq!(parse_action("attack\n"), None);
    assert_eq!(parse_action("\n"), None);
    assert_eq!(parse_class(" 3\n"), Some(ClassType::Rogue));
    assert_eq!(parse_class("\t1\n"), Some(ClassType::Warrior));
    assert_eq!(parse_class("x\n"), None);
}

#[test]
fn attack_turn_with_retaliation() {
    let player = Character::from_base("Ann", ClassType::Warrior, 100, 20);
    let monster = Character::from_base("Goblin", ClassType::Warrior, 100, 20);
    let mut b = Battle::new(player, monster);
    assert_eq!(b.turn(), 1);
    assert!(b.can_play_turn());
    let r = b.resolve_turn(Action::Attack, false, 15, 20);
    assert_eq!(
        r,
        TurnReport {
            action: Action::Attack,
            defaulted: false,
            player_damage: Some(15),
            healed: false,
            monster_damage: Some(20),
            outcome: Outcome::Ongoing,
        }
    );
    assert_eq!(b.monster().health(), 105);
    assert_eq!(b.player().health(), 100);
    assert_eq!(b.turn(), 2);
    assert!(!b.is_over());
}

#[test]
fn heal_turn_then_used_potion() {
    let player = Character::from_base("Ann", ClassType::Rogue, 80, 20);
    let monster = Character::from_base("Goblin", ClassType::Warrior, 100, 20);
    let mut b = Battle::new(player, monster);
    let r = b.resolve_turn(Action::Heal, false, 20, 14);
    assert_eq!(r.player_damage, None);
    assert!(r.healed);
    assert_eq!(r.monster_damage, Some(14));
    assert_eq!(b.player().health(), 80 + 30 - 14);
    assert_eq!(b.monster().health(), 120);
    let r = b.resolve_turn(Action::Heal, false, 20, 14);
    assert!(!r.healed);
    assert_eq!(b.player().health(), 96 - 14);
    assert_eq!(b.turn(), 3);
}

#[test]
fn killing_blow_stops_retaliation() {
    let player = Character::from_base("Ann", ClassType::Mage, 100, 20);
    let mut monster = Character::from_base("Goblin", ClassType::Warrior, 100, 20);
    monster.take_damage(100);
    let mut b = Battle::new(player, monster);
    let r = b.resolve_turn(Action::Attack, true, 25, 20);
    assert!(r.defaulted);
    assert_eq!(r.monster_damage, None);
    assert_eq!(r.outcome, Outcome::MonsterDefeated);
    assert_eq!(b.monster().health(), -5);
    assert_eq!(b.player().health(), 90);
    assert_eq!(b.turn(), 1);
    assert!(b.is_over());
}

#[test]
fn player_defeat_is_checked_first() {
    let mut player = Character::from_base("Ann", ClassType::Mage, 100, 20);
    player.take_damage(80);
    let mut monster = Character::from_base("Goblin", ClassType::Warrior, 100, 20);
    monster.take_damage(100);
    let mut b = Battle::new(player, monster);
    let r = b.resolve_turn(Action::Heal, false, 20, 23);
    assert_eq!(b.player().health(), 10 + 30 - 23);
    assert_eq!(r.outcome, Outcome::Ongoing);
    let r = b.resolve_turn(Action::Heal, false, 20, 23);
    assert_eq!(b.player().health(), -6);
    assert_eq!(r.outcome, Outcome::PlayerDefeated);
    assert_eq!(b.outcome(), Outcome::PlayerDefeated);
}

#[test]
fn invalid_choice_defaults_to_attack() {
    let player = Character::from_base("Ann", ClassType::Warrior, 100, 20);
    let monster = Character::from_base("Goblin", ClassType::Warrior, 100, 20);
    let mut b = Battle::new(player, monster);
    let r = b.play_turn(parse_action("9\n"));
    assert!(r.defaulted);
    assert_eq!(r.action, Action::Attack);
    let dealt = r.player_damage.unwrap();
    assert!(13 <= dealt && dealt <= 23);
    assert_eq!(b.monster().health(), 120 - dealt);
    let taken = r.monster_damage.unwrap();
    assert!(13 <= taken && taken <= 23);
    assert_eq!(b.player().health(), 120 - taken);
}

#[test]
fn oversized_health_cannot_play() {
    let player = Character::from_base("Ann", ClassType::Rogue, i32::MAX - 10, 20);
    let monster = Character::from_base("Goblin", ClassType::Warrior, 100, 20);
    let b = Battle::new(player, monster);
    assert!(!b.can_play_turn());
}

#[test]
fn warrior_against_goblin_ends_with_one_verdict() {
    let player = Character::from_base("Ann", ClassType::Warrior, 100, 20);
    assert_eq!((player.health(), player.attack()), (120, 18));
    let monster = Character::new("Goblin", ClassType::Warrior);
    let mut b = Battle::new(player, monster);
    let mut turns = 0;
    let mut last = Outcome::Ongoing;
    while !b.is_over() {
        assert!(b.can_play_turn());
        let before = b.player().health() + b.monster().health();
        let r = b.play_turn(parse_action("1\n"));
        assert_eq!(r.action, Action::Attack);
        assert!(!r.defaulted);
        last = r.outcome;
        if !b.is_over() {
            assert!(b.player().health() + b.monster().health() < before);
        }
        turns += 1;
        assert!(turns <= 300);
    }
    let player_won = b.monster().health() <= 0 && b.player().health() > 0;
    let monster_won = b.player().health() <= 0;
    assert!(player_won != monster_won);
    match last {
        Outcome::PlayerDefeated => assert!(monster_won),
        Outcome::MonsterDefeated => assert!(player_won),
        Outcome::Ongoing => panic!("battle ended without a verdict"),
    }
}
