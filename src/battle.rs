use crate::character::{Character, CharacterView, HEAL_AMOUNT};
use vstd::prelude::*;

verus! {

/// What the player does on a turn.
#[derive(Clone, Copy, Debug, PartialEq, Eq, Structural)]
pub enum Action {
    Attack,
    Heal,
}

/// Where a battle stands after a turn.
#[derive(Clone, Copy, Debug, PartialEq, Eq, Structural)]
pub enum Outcome {
    Ongoing,
    PlayerDefeated,
    MonsterDefeated,
}

/// The outcome for the given combatants: the player's defeat is checked
/// first, so a double knock-out counts as a defeat.
pub open spec fn outcome_of(player: CharacterView, monster: CharacterView) -> Outcome {
    if !player.is_alive() {
        Outcome::PlayerDefeated
    } else if !monster.is_alive() {
        Outcome::MonsterDefeated
    } else {
        Outcome::Ongoing
    }
}

/// The action that a player's choice stands for: no valid choice means attack.
pub open spec fn chosen(choice: Option<Action>) -> Action {
    match choice {
        Some(action) => action,
        None => Action::Attack,
    }
}

/// What happened on one turn.
#[derive(Clone, Copy, Debug, PartialEq, Eq, Structural)]
pub struct TurnReport {
    /// The action the player took.
    pub action: Action,
    /// Whether the player's choice was invalid and the turn fell back to an attack.
    pub defaulted: bool,
    /// The damage the player dealt, on an attack.
    pub player_damage: Option<i32>,
    /// Whether the potion was drunk this turn.
    pub healed: bool,
    /// The damage the monster dealt back, if it was still alive to do so.
    pub monster_damage: Option<i32>,
    /// Where the battle stands after the turn.
    pub outcome: Outcome,
}

/// The mathematical model of a battle.
pub struct BattleView {
    pub player: CharacterView,
    pub monster: CharacterView,
    pub turn: int,
}

impl BattleView {
    /// Where this battle stands.
    pub open spec fn outcome(self) -> Outcome {
        outcome_of(self.player, self.monster)
    }

    /// Whether one side has fallen.
    pub open spec fn is_over(self) -> bool {
        self.outcome() != Outcome::Ongoing
    }

    /// The battle after the player's action, with `player_damage` dealt on an attack.
    pub open spec fn after_action(self, action: Action, player_damage: int) -> BattleView {
        match action {
            Action::Attack => BattleView { monster: self.monster.took_damage(player_damage), ..self },
            Action::Heal => BattleView { player: self.player.drank_potion(), ..self },
        }
    }

    /// The battle after a living monster strikes back for `monster_damage`.
    pub open spec fn after_retaliation(self, monster_damage: int) -> BattleView {
        if self.monster.is_alive() {
            BattleView { player: self.player.took_damage(monster_damage), ..self }
        } else {
            self
        }
    }

    /// The battle after a whole turn: the action, the retaliation, and the
    /// turn counter moving on when nobody has fallen.
    pub open spec fn after_turn(self, action: Action, player_damage: int, monster_damage: int) -> BattleView {
        let fought = self.after_action(action, player_damage).after_retaliation(monster_damage);
        if fought.is_over() {
            fought
        } else {
            BattleView { turn: fought.turn + 1, ..fought }
        }
    }

    /// The report of that turn, for a choice that stands for `action`.
    pub open spec fn turn_report(
        self,
        action: Action,
        defaulted: bool,
        player_damage: i32,
        monster_damage: i32,
    ) -> TurnReport {
        let acted = self.after_action(action, player_damage as int);
        TurnReport {
            action,
            defaulted,
            player_damage: if action == Action::Attack {
                Some(player_damage)
            } else {
                None
            },
            healed: action == Action::Heal && !self.player.potion_used,
            monster_damage: if acted.monster.is_alive() {
                Some(monster_damage)
            } else {
                None
            },
            outcome: self.after_turn(action, player_damage as int, monster_damage as int).outcome(),
        }
    }

    /// Every way a turn can go keeps the health values and the turn counter
    /// within their machine types.
    pub open spec fn turn_fits(self) -> bool {
        &&& self.monster.can_absorb(self.player)
        &&& self.player.can_heal()
        &&& self.player.can_absorb(self.monster)
        &&& self.player.drank_potion().can_absorb(self.monster)
        &&& self.turn < u64::MAX
    }

    /// The health left on both sides, counting the unused potion.
    pub open spec fn vitality(self) -> int {
        self.player.health + self.monster.health + if self.player.potion_used {
            0
        } else {
            HEAL_AMOUNT as int
        }
    }
}

/// While both sides stand, what is left of their health is positive; when
/// every attack deals at least one point of damage, each turn either ends
/// the battle or takes at least one point from it, so a battle lasts at most
/// as many turns as its starting vitality.
pub proof fn lemma_turn_makes_progress(b: BattleView, action: Action, player_damage: int, monster_damage: int)
    requires
        !b.is_over(),
        b.player.min_damage() >= 1,
        b.monster.min_damage() >= 1,
        b.player.can_deal(player_damage),
        b.monster.can_deal(monster_damage),
    ensures
        b.vitality() > 0,
        b.after_turn(action, player_damage, monster_damage).is_over() || (0 < b.after_turn(
            action,
            player_damage,
            monster_damage,
        ).vitality() < b.vitality()),
        b.after_turn(action, player_damage, monster_damage).player.attack == b.player.attack,
        b.after_turn(action, player_damage, monster_damage).monster.attack == b.monster.attack,
{
}

/// A battle between a player and a monster, counted in turns from 1.
pub struct Battle {
    player: Character,
    monster: Character,
    turn: u64,
}

impl View for Battle {
    type V = BattleView;

    closed spec fn view(&self) -> BattleView {
        BattleView { player: self.player@, monster: self.monster@, turn: self.turn as int }
    }
}

impl Battle {
    /// Starts a battle at turn 1.
    pub fn new(player: Character, monster: Character) -> (r: Battle)
        ensures
            r@ == (BattleView { player: player@, monster: monster@, turn: 1 }),
    {
        Battle { player, monster, turn: 1 }
    }

    /// The player's character.
    pub fn player(&self) -> (r: &Character)
        ensures
            r@ == self@.player,
    {
        &self.player
    }

    /// The monster.
    pub fn monster(&self) -> (r: &Character)
        ensures
            r@ == self@.monster,
    {
        &self.monster
    }

    /// The number of the current turn.
    pub fn turn(&self) -> (r: u64)
        ensures
            r == self@.turn,
    {
        self.turn
    }

    /// Where the battle stands.
    pub fn outcome(&self) -> (r: Outcome)
        ensures
            r == self@.outcome(),
    {
        if !self.player.is_alive() {
            Outcome::PlayerDefeated
        } else if !self.monster.is_alive() {
            Outcome::MonsterDefeated
        } else {
            Outcome::Ongoing
        }
    }

    /// Whether one side has fallen.
    pub fn is_over(&self) -> (r: bool)
        ensures
            r == self@.is_over(),
    {
        self.outcome() != Outcome::Ongoing
    }

    /// Whether a turn can be played without leaving the machine integers.
    pub fn can_play_turn(&self) -> (r: bool)
        ensures
            r == self@.turn_fits(),
    {
        let p = &self.player;
        let m = &self.monster;
        let spread = crate::character::DAMAGE_SPREAD as i64;
        let min = i32::MIN as i64;
        let max = i32::MAX as i64;
        let p_attack = p.attack() as i64;
        let m_attack = m.attack() as i64;
        let p_health = p.health() as i64;
        let m_health = m.health() as i64;
        let p_healed = if p.potion_used() {
            p_health
        } else {
            p_health + HEAL_AMOUNT as i64
        };
        let ranges = min <= p_attack - spread && p_attack + spread <= max && min <= m_attack
            - spread && m_attack + spread <= max;
        let monster_ok = min <= m_health - (p_attack + spread) && m_health - (p_attack - spread)
            <= max;
        let player_ok = min <= p_health - (m_attack + spread) && p_health - (m_attack - spread)
            <= max;
        let healed_ok = p_healed <= max && min <= p_healed - (m_attack + spread) && p_healed - (
        m_attack - spread) <= max;
        ranges && monster_ok && player_ok && healed_ok && self.turn < u64::MAX
    }

    /// Plays a turn whose damage values are given: the player acts (an
    /// attack deals `player_damage` to the monster, a heal drinks the potion
    /// if it is still there), a monster that is still alive then deals
    /// `monster_damage` to the player, and the turn counter moves on unless
    /// one side has fallen.
    pub fn resolve_turn(
        &mut self,
        action: Action,
        defaulted: bool,
        player_damage: i32,
        monster_damage: i32,
    ) -> (r: TurnReport)
        requires
            old(self)@.turn_fits(),
            old(self)@.player.can_deal(player_damage as int),
            old(self)@.monster.can_deal(monster_damage as int),
        ensures
            final(self)@ == old(self)@.after_turn(action, player_damage as int, monster_damage as int),
            r == old(self)@.turn_report(action, defaulted, player_damage, monster_damage),
    {
        let (dealt, healed) = match action {
            Action::Attack => {
                self.monster.take_damage(player_damage);
                (Some(player_damage), false)
            },
            Action::Heal => (None, self.player.heal()),
        };
        let retaliation = if self.monster.is_alive() {
            self.player.take_damage(monster_damage);
            Some(monster_damage)
        } else {
            None
        };
        let outcome = self.outcome();
        if outcome == Outcome::Ongoing {
            self.turn = self.turn + 1;
        }
        TurnReport {
            action,
            defaulted,
            player_damage: dealt,
            healed,
            monster_damage: retaliation,
            outcome,
        }
    }

    /// Plays a turn on the player's choice, attacking when there is no valid
    /// choice; both sides' damage is drawn uniformly from their ranges.
    pub fn play_turn(&mut self, choice: Option<Action>) -> (r: TurnReport)
        requires
            old(self)@.turn_fits(),
        ensures
            exists|player_damage: i32, monster_damage: i32|
                {
                    &&& old(self)@.player.can_deal(player_damage as int)
                    &&& old(self)@.monster.can_deal(monster_damage as int)
                    &&& final(self)@ == old(self)@.after_turn(
                        chosen(choice),
                        player_damage as int,
                        monster_damage as int,
                    )
                    &&& r == old(self)@.turn_report(
                        chosen(choice),
                        choice is None,
                        player_damage,
                        monster_damage,
                    )
                },
    {
        let (action, defaulted) = match choice {
            Some(action) => (action, false),
            None => (Action::Attack, true),
        };
        let player_damage = self.player.roll_damage();
        let monster_damage = self.monster.roll_damage();
        self.resolve_turn(action, defaulted, player_damage, monster_damage)
    }
}

} // verus!
