use crate::dice::roll_between;
use vstd::prelude::*;

verus! {

/// Lowest base health that creation draws, before the class modifier.
pub const BASE_HEALTH_MIN: i32 = 80;

/// Highest base health that creation draws, before the class modifier.
pub const BASE_HEALTH_MAX: i32 = 120;

/// Lowest base attack that creation draws, before the class modifier.
pub const BASE_ATTACK_MIN: i32 = 15;

/// Highest base attack that creation draws, before the class modifier.
pub const BASE_ATTACK_MAX: i32 = 25;

/// Health that the single healing potion restores.
pub const HEAL_AMOUNT: i32 = 30;

/// An attack deals its attacker's attack value, give or take this much.
pub const DAMAGE_SPREAD: i32 = 5;

/// The fixed category of a character, which decides its stat modifiers.
#[derive(Clone, Copy, Debug, PartialEq, Eq, Structural)]
pub enum ClassType {
    Warrior,
    Mage,
    Rogue,
}

/// What a class adds to the drawn base health.
pub open spec fn health_modifier(class: ClassType) -> int {
    match class {
        ClassType::Warrior => 20,
        ClassType::Mage => -10,
        ClassType::Rogue => 0,
    }
}

/// What a class adds to the drawn base attack.
pub open spec fn attack_modifier(class: ClassType) -> int {
    match class {
        ClassType::Warrior => -2,
        ClassType::Mage => 5,
        ClassType::Rogue => 2,
    }
}

/// The display name of a class.
pub open spec fn class_label(class: ClassType) -> Seq<char> {
    match class {
        ClassType::Warrior => "Warrior"@,
        ClassType::Mage => "Mage"@,
        ClassType::Rogue => "Rogue"@,
    }
}

impl ClassType {
    /// The health modifier of this class.
    pub fn health_modifier(&self) -> (r: i32)
        ensures
            r == health_modifier(*self),
    {
        match self {
            ClassType::Warrior => 20,
            ClassType::Mage => -10,
            ClassType::Rogue => 0,
        }
    }

    /// The attack modifier of this class.
    pub fn attack_modifier(&self) -> (r: i32)
        ensures
            r == attack_modifier(*self),
    {
        match self {
            ClassType::Warrior => -2,
            ClassType::Mage => 5,
            ClassType::Rogue => 2,
        }
    }
}

/// The mathematical model of a character.
pub struct CharacterView {
    pub name: Seq<char>,
    pub class: ClassType,
    pub health: int,
    pub attack: int,
    pub potion_used: bool,
}

/// A fresh character of `class` whose draws gave `base_health` and `base_attack`.
pub open spec fn created(name: Seq<char>, class: ClassType, base_health: int, base_attack: int) -> CharacterView {
    CharacterView {
        name,
        class,
        health: base_health + health_modifier(class),
        attack: base_attack + attack_modifier(class),
        potion_used: false,
    }
}

/// Whether `x` is a value of `i32`.
pub open spec fn fits_i32(x: int) -> bool {
    i32::MIN <= x <= i32::MAX
}

impl CharacterView {
    /// A character is alive while its health is positive.
    pub open spec fn is_alive(self) -> bool {
        self.health > 0
    }

    /// The character after losing `amount` health (a negative amount adds health).
    pub open spec fn took_damage(self, amount: int) -> CharacterView {
        CharacterView { health: self.health - amount, ..self }
    }

    /// The character after an attempt to drink its potion: the first one
    /// restores a fixed amount of health, any later one changes nothing.
    pub open spec fn drank_potion(self) -> CharacterView {
        if self.potion_used {
            self
        } else {
            CharacterView { health: self.health + HEAL_AMOUNT, potion_used: true, ..self }
        }
    }

    /// Lowest damage that an attack of this character can deal.
    pub open spec fn min_damage(self) -> int {
        self.attack - DAMAGE_SPREAD
    }

    /// Highest damage that an attack of this character can deal.
    pub open spec fn max_damage(self) -> int {
        self.attack + DAMAGE_SPREAD
    }

    /// Whether an attack of this character can deal `damage`.
    pub open spec fn can_deal(self, damage: int) -> bool {
        self.min_damage() <= damage <= self.max_damage()
    }

    /// Both ends of this character's damage range are `i32` values.
    pub open spec fn damage_range_fits(self) -> bool {
        fits_i32(self.min_damage()) && fits_i32(self.max_damage())
    }

    /// Any attack of `attacker` leaves this character's health an `i32` value.
    pub open spec fn can_absorb(self, attacker: CharacterView) -> bool {
        attacker.damage_range_fits() && fits_i32(self.health - attacker.max_damage())
            && fits_i32(self.health - attacker.min_damage())
    }

    /// Drinking the potion leaves this character's health an `i32` value.
    pub open spec fn can_heal(self) -> bool {
        fits_i32(self.drank_potion().health)
    }
}

/// The potion works once: the first drink restores exactly `HEAL_AMOUNT`
/// health and marks the potion as used, and any later drink changes nothing.
pub proof fn lemma_potion_heals_once(c: CharacterView)
    ensures
        !c.potion_used ==> c.drank_potion().health == c.health + HEAL_AMOUNT,
        c.drank_potion().potion_used,
        c.drank_potion().drank_potion() == c.drank_potion(),
        c.potion_used ==> c.drank_potion() == c,
{
}

/// Damage of `amount` lowers health by exactly `amount`, whatever its sign
/// or size, and leaves everything else as it was.
pub proof fn lemma_damage_is_exact(c: CharacterView, amount: int)
    ensures
        c.took_damage(amount).health == c.health - amount,
        c.took_damage(amount).took_damage(-amount) == c,
        c.took_damage(amount).name == c.name,
        c.took_damage(amount).attack == c.attack,
        c.took_damage(amount).potion_used == c.potion_used,
{
}

/// A character that creation draws has health and attack within its
/// class's ranges.
pub proof fn lemma_created_in_range(name: Seq<char>, class: ClassType, base_health: int, base_attack: int)
    requires
        BASE_HEALTH_MIN <= base_health <= BASE_HEALTH_MAX,
        BASE_ATTACK_MIN <= base_attack <= BASE_ATTACK_MAX,
    ensures
        BASE_HEALTH_MIN + health_modifier(class) <= created(name, class, base_health, base_attack).health
            <= BASE_HEALTH_MAX + health_modifier(class),
        BASE_ATTACK_MIN + attack_modifier(class) <= created(name, class, base_health, base_attack).attack
            <= BASE_ATTACK_MAX + attack_modifier(class),
        !created(name, class, base_health, base_attack).potion_used,
{
}

/// A combatant: a name, a class, health, a fixed attack value and a one-time
/// healing potion.
#[derive(Debug)]
pub struct Character {
    name: String,
    class: ClassType,
    health: i32,
    attack: i32,
    potion_used: bool,
}

impl View for Character {
    type V = CharacterView;

    closed spec fn view(&self) -> CharacterView {
        CharacterView {
            name: self.name@,
            class: self.class,
            health: self.health as int,
            attack: self.attack as int,
            potion_used: self.potion_used,
        }
    }
}

impl Character {
    /// Builds a character of `class` from drawn base stats, applying the
    /// class modifiers; the potion is still unused.
    pub fn from_base(name: &str, class: ClassType, base_health: i32, base_attack: i32) -> (r: Character)
        requires
            fits_i32(base_health + health_modifier(class)),
            fits_i32(base_attack + attack_modifier(class)),
        ensures
            r@ == created(name@, class, base_health as int, base_attack as int),
    {
        Character {
            name: String::from_str(name),
            class,
            health: base_health + class.health_modifier(),
            attack: base_attack + class.attack_modifier(),
            potion_used: false,
        }
    }

    /// Creates a character of `class` with base health drawn uniformly from
    /// `BASE_HEALTH_MIN..=BASE_HEALTH_MAX` and base attack drawn uniformly
    /// from `BASE_ATTACK_MIN..=BASE_ATTACK_MAX`, then adjusted by the class.
    pub fn new(name: &str, class: ClassType) -> (r: Character)
        ensures
            r@.name == name@,
            r@.class == class,
            !r@.potion_used,
            BASE_HEALTH_MIN + health_modifier(class) <= r@.health <= BASE_HEALTH_MAX
                + health_modifier(class),
            BASE_ATTACK_MIN + attack_modifier(class) <= r@.attack <= BASE_ATTACK_MAX
                + attack_modifier(class),
    {
        let base_health = roll_between(BASE_HEALTH_MIN, BASE_HEALTH_MAX);
        let base_attack = roll_between(BASE_ATTACK_MIN, BASE_ATTACK_MAX);
        Character::from_base(name, class, base_health, base_attack)
    }

    /// The character's name.
    pub fn name(&self) -> (r: &str)
        ensures
            r@ == self@.name,
    {
        self.name.as_str()
    }

    /// The character's class.
    pub fn class(&self) -> (r: ClassType)
        ensures
            r == self@.class,
    {
        self.class
    }

    /// The character's current health.
    pub fn health(&self) -> (r: i32)
        ensures
            r == self@.health,
    {
        self.health
    }

    /// The character's attack value.
    pub fn attack(&self) -> (r: i32)
        ensures
            r == self@.attack,
    {
        self.attack
    }

    /// Whether the healing potion has been drunk.
    pub fn potion_used(&self) -> (r: bool)
        ensures
            r == self@.potion_used,
    {
        self.potion_used
    }

    /// Whether the character is still alive, that is, its health is positive.
    pub fn is_alive(&self) -> (r: bool)
        ensures
            r == self@.is_alive(),
    {
        self.health > 0
    }

    /// Subtracts `amount` from the health, with no floor at zero.
    pub fn take_damage(&mut self, amount: i32)
        requires
            fits_i32(old(self)@.health - amount),
        ensures
            final(self)@ == old(self)@.took_damage(amount as int),
            final(self)@.health == old(self)@.health - amount,
    {
        self.health = self.health - amount;
    }

    /// Draws a damage uniformly from this character's damage range.
    pub fn roll_damage(&self) -> (damage: i32)
        requires
            self@.damage_range_fits(),
        ensures
            self@.can_deal(damage as int),
    {
        roll_between(self.attack - DAMAGE_SPREAD, self.attack + DAMAGE_SPREAD)
    }

    /// Attacks `target` for a damage drawn uniformly from the attacker's
    /// damage range, and returns that damage.
    pub fn attack_target(&self, target: &mut Character) -> (damage: i32)
        requires
            old(target)@.can_absorb(self@),
        ensures
            self@.can_deal(damage as int),
            final(target)@ == old(target)@.took_damage(damage as int),
    {
        let damage = self.roll_damage();
        target.take_damage(damage);
        damage
    }

    /// Drinks the healing potion if it is still there, restoring
    /// `HEAL_AMOUNT` health; otherwise changes nothing. Returns whether the
    /// potion was drunk.
    pub fn heal(&mut self) -> (healed: bool)
        requires
            old(self)@.can_heal(),
        ensures
            healed == !old(self)@.potion_used,
            final(self)@ == old(self)@.drank_potion(),
    {
        if self.potion_used {
            false
        } else {
            self.health = self.health + HEAL_AMOUNT;
            self.potion_used = true;
            true
        }
    }

    /// The display name of the character's class.
    pub fn class_name(&self) -> (r: &'static str)
        ensures
            r@ == class_label(self@.class),
    {
        match self.class {
            ClassType::Warrior => "Warrior",
            ClassType::Mage => "Mage",
            ClassType::Rogue => "Rogue",
        }
    }
}

} // verus!
