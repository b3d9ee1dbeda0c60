//! Players: name, vitality, speed and strength, and what the game does to them.

use vstd::prelude::*;

use crate::text::{decimal, decimal_string};

verus! {

/// Default vitality of a player.
pub const DEFAULT_VITALITY: i32 = 100;

/// Default speed of a player (milliseconds per counter step).
pub const DEFAULT_SPEED: i32 = 50;

/// Default strength of a player.
pub const DEFAULT_STRENGTH: i32 = 50;

/// How much a poison changes speed or strength.
pub const POISON_STEP: i32 = 5;

/// A duel player.
///
/// Vitality is the player's life: the game ends when it reaches 0. Speed is the
/// delay in milliseconds between two counter steps during the player's turn;
/// strength is added to the base score of each objective.
#[derive(Debug, Clone)]
pub struct Player {
    name: String,
    vitality: i32,
    speed: i32,
    strength: i32,
}

/// The abstract state of a [`Player`].
pub struct PlayerView {
    pub name: Seq<char>,
    pub vitality: i32,
    pub speed: i32,
    pub strength: i32,
}

/// A poison that the winner of a round applies to the loser.
#[derive(Debug, Clone, Copy, PartialEq, Eq, Structural)]
pub enum Poison {
    /// Slows the player's counter down: speed (the delay) grows by 5.
    Speed,
    /// Lowers the player's strength by 5, not below 0.
    Strength,
}

impl View for Player {
    type V = PlayerView;

    closed spec fn view(&self) -> PlayerView {
        PlayerView {
            name: self.name@,
            vitality: self.vitality,
            speed: self.speed,
            strength: self.strength,
        }
    }
}

/// The value of an optional setting, or its default.
pub open spec fn or_default(value: Option<i32>, default: i32) -> i32 {
    match value {
        Some(v) => v,
        None => default,
    }
}

/// Vitality after `damage` is taken: lowered by `damage`, never below 0.
pub open spec fn damaged(vitality: int, damage: int) -> int {
    if vitality - damage > 0 {
        vitality - damage
    } else {
        0
    }
}

/// Speed after a speed poison: grown by 5, at least 5.
pub open spec fn poisoned_speed(speed: int) -> int {
    if speed + 5 > 5 {
        speed + 5
    } else {
        5
    }
}

/// Strength after a strength poison: lowered by 5, never below 0.
pub open spec fn poisoned_strength(strength: int) -> int {
    if strength - 5 > 0 {
        strength - 5
    } else {
        0
    }
}

/// A poison can be applied to a player without leaving the `i32` range.
pub open spec fn poison_fits(p: PlayerView, poison: Poison) -> bool {
    match poison {
        Poison::Speed => p.speed + 5 <= i32::MAX,
        Poison::Strength => p.strength - 5 >= i32::MIN,
    }
}

/// The player state after a poison is applied.
pub open spec fn poisoned(p: PlayerView, poison: Poison) -> PlayerView {
    match poison {
        Poison::Speed => PlayerView { speed: poisoned_speed(p.speed as int) as i32, ..p },
        Poison::Strength => PlayerView { strength: poisoned_strength(p.strength as int) as i32, ..p },
    }
}

/// The text that displays a player: `Name (Vitality=v, Speed=s, Strength=f)`.
pub open spec fn display_text(p: PlayerView) -> Seq<char> {
    p.name + " (Vitality="@ + decimal(p.vitality as int) + ", Speed="@ + decimal(p.speed as int)
        + ", Strength="@ + decimal(p.strength as int) + ")"@
}

impl Player {
    /// Creates a player; each missing characteristic takes its default value.
    pub fn new(name: String, vitality: Option<i32>, speed: Option<i32>, strength: Option<i32>) -> (p: Self)
        ensures
            p@.name == name@,
            p@.vitality == or_default(vitality, DEFAULT_VITALITY),
            p@.speed == or_default(speed, DEFAULT_SPEED),
            p@.strength == or_default(strength, DEFAULT_STRENGTH),
            vitality matches Some(v) ==> p@.vitality == v,
            vitality is None ==> p@.vitality == 100,
            speed matches Some(v) ==> p@.speed == v,
            speed is None ==> p@.speed == 50,
            strength matches Some(v) ==> p@.strength == v,
            strength is None ==> p@.strength == 50,
    {
        Player {
            name,
            vitality: vitality.unwrap_or(DEFAULT_VITALITY),
            speed: speed.unwrap_or(DEFAULT_SPEED),
            strength: strength.unwrap_or(DEFAULT_STRENGTH),
        }
    }

    /// The player's name.
    pub fn name(&self) -> (r: &str)
        ensures
            r@ == self@.name,
    {
        self.name.as_str()
    }

    /// The player's current vitality.
    pub fn vitality(&self) -> (r: i32)
        ensures
            r == self@.vitality,
    {
        self.vitality
    }

    /// The player's current speed (milliseconds per counter step).
    pub fn speed(&self) -> (r: i32)
        ensures
            r == self@.speed,
    {
        self.speed
    }

    /// The player's current strength.
    pub fn strength(&self) -> (r: i32)
        ensures
            r == self@.strength,
    {
        self.strength
    }

    /// Whether the player is still in the game (vitality strictly positive).
    pub fn is_alive(&self) -> (r: bool)
        ensures
            r == (self@.vitality > 0),
    {
        self.vitality > 0
    }

    /// Takes `damage` points of vitality away, never going below 0.
    pub fn take_damage(&mut self, damage: i32)
        requires
            i32::MIN <= old(self)@.vitality - damage,
            old(self)@.vitality - damage <= i32::MAX,
        ensures
            final(self)@.vitality == damaged(old(self)@.vitality as int, damage as int),
            old(self)@.vitality - damage > 0 ==> final(self)@.vitality == old(self)@.vitality - damage,
            old(self)@.vitality - damage <= 0 ==> final(self)@.vitality == 0,
            final(self)@.name == old(self)@.name,
            final(self)@.speed == old(self)@.speed,
            final(self)@.strength == old(self)@.strength,
    {
        let left = self.vitality - damage;
        self.vitality = if left > 0 { left } else { 0 };
    }

    /// Applies a poison: a speed poison adds 5 to speed (at least 5), a
    /// strength poison takes 5 from strength (at least 0).
    pub fn apply_poison(&mut self, poison: Poison)
        requires
            poison_fits(old(self)@, poison),
        ensures
            final(self)@ == poisoned(old(self)@, poison),
            final(self)@.name == old(self)@.name,
            final(self)@.vitality == old(self)@.vitality,
            poison == Poison::Speed ==> final(self)@.strength == old(self)@.strength,
            poison == Poison::Speed && old(self)@.speed > 0 ==> final(self)@.speed == old(
                self,
            )@.speed + 5,
            poison == Poison::Speed && old(self)@.speed <= 0 ==> final(self)@.speed == 5,
            poison == Poison::Strength ==> final(self)@.speed == old(self)@.speed,
            poison == Poison::Strength && old(self)@.strength >= 5 ==> final(self)@.strength
                == old(self)@.strength - 5,
            poison == Poison::Strength && old(self)@.strength < 5 ==> final(self)@.strength == 0,
    {
        match poison {
            Poison::Speed => {
                let s = self.speed + POISON_STEP;
                self.speed = if s > POISON_STEP { s } else { POISON_STEP };
            },
            Poison::Strength => {
                let s = self.strength - POISON_STEP;
                self.strength = if s > 0 { s } else { 0 };
            },
        }
    }

    /// Restores the player for a new game: the given vitality, and the given
    /// speed and strength or their defaults. The name is kept.
    pub fn reset(&mut self, vitality: i32, speed: Option<i32>, strength: Option<i32>)
        ensures
            final(self)@.name == old(self)@.name,
            final(self)@.vitality == vitality,
            final(self)@.speed == or_default(speed, DEFAULT_SPEED),
            final(self)@.strength == or_default(strength, DEFAULT_STRENGTH),
            speed matches Some(v) ==> final(self)@.speed == v,
            speed is None ==> final(self)@.speed == 50,
            strength matches Some(v) ==> final(self)@.strength == v,
            strength is None ==> final(self)@.strength == 50,
    {
        self.vitality = vitality;
        self.speed = speed.unwrap_or(DEFAULT_SPEED);
        self.strength = strength.unwrap_or(DEFAULT_STRENGTH);
    }

    /// The display text of the player, such as
    /// `Michel (Vitality=50, Speed=50, Strength=50)`.
    pub fn to_string(&self) -> (s: String)
        ensures
            s@ == display_text(self@),
    {
        let mut s = self.name.clone();
        s.append(" (Vitality=");
        let v = decimal_string(self.vitality);
        s.append(v.as_str());
        s.append(", Speed=");
        let sp = decimal_string(self.speed);
        s.append(sp.as_str());
        s.append(", Strength=");
        let st = decimal_string(self.strength);
        s.append(st.as_str());
        s.append(")");
        s
    }
}

/// Damage never takes vitality below 0 nor, for a non-negative amount, above
/// where it was; the player survives exactly when the damage is smaller than
/// the vitality.
pub proof fn lemma_damage_bounds(vitality: int, damage: int)
    requires
        damage >= 0,
    ensures
        0 <= damaged(vitality, damage),
        vitality >= 0 ==> damaged(vitality, damage) <= vitality,
        damaged(vitality, damage) > 0 <==> vitality > damage,
{
}

/// Damage lowers vitality by exactly the damage, down to 0 and no further.
pub proof fn lemma_damage_exact(vitality: int, damage: int)
    ensures
        vitality - damage > 0 ==> damaged(vitality, damage) == vitality - damage,
        vitality - damage <= 0 ==> damaged(vitality, damage) == 0,
{
}

/// A speed poison adds exactly 5 to a positive speed and leaves 5 otherwise; a
/// strength poison takes exactly 5 from a strength of at least 5 and leaves 0
/// otherwise; each poison changes only its own characteristic.
pub proof fn lemma_poison_exact(p: PlayerView)
    requires
        p.speed + 5 <= i32::MAX,
        p.strength - 5 >= i32::MIN,
    ensures
        p.speed > 0 ==> poisoned(p, Poison::Speed).speed == p.speed + 5,
        p.speed <= 0 ==> poisoned(p, Poison::Speed).speed == 5,
        poisoned(p, Poison::Speed).strength == p.strength,
        poisoned(p, Poison::Speed).vitality == p.vitality,
        poisoned(p, Poison::Speed).name == p.name,
        p.strength >= 5 ==> poisoned(p, Poison::Strength).strength == p.strength - 5,
        p.strength < 5 ==> poisoned(p, Poison::Strength).strength == 0,
        poisoned(p, Poison::Strength).speed == p.speed,
        poisoned(p, Poison::Strength).vitality == p.vitality,
        poisoned(p, Poison::Strength).name == p.name,
        p.speed > 0 ==> poisoned_speed(p.speed as int) == p.speed + 5,
        p.strength >= 5 ==> poisoned_strength(p.strength as int) == p.strength - 5,
{
}

/// A missing setting takes its default; a given one is kept as it is.
pub proof fn lemma_or_default(value: Option<i32>, default: i32)
    ensures
        value matches Some(v) ==> or_default(value, default) == v,
        value is None ==> or_default(value, default) == default,
{
}

/// Taking `a` then `b` points of damage is the same as taking `a + b` at once,
/// for non-negative amounts and a non-negative vitality.
pub proof fn lemma_damage_accumulates(vitality: int, a: int, b: int)
    requires
        vitality >= 0,
        a >= 0,
        b >= 0,
    ensures
        damaged(damaged(vitality, a), b) == damaged(vitality, a + b),
{
}

/// A speed poison always slows the counter down (the delay grows) and leaves
/// a delay of at least 5; a strength poison never leaves a negative strength
/// and never raises a non-negative one.
pub proof fn lemma_poison_effects(speed: int, strength: int)
    ensures
        poisoned_speed(speed) > speed,
        poisoned_speed(speed) >= 5,
        poisoned_strength(strength) >= 0,
        strength >= 0 ==> poisoned_strength(strength) <= strength,
{
}

} // verus!
