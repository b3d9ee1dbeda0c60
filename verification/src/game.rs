//! The duel itself: configuration, the two players, rounds, and how a round
//! is resolved once both players have played their turn.

use vstd::prelude::*;

use crate::player::{
    damaged, or_default, poison_fits, poisoned, Player, PlayerView, Poison, DEFAULT_SPEED,
    DEFAULT_STRENGTH,
};

verus! {

/// Message of the error returned for a vitality that is not positive.
pub const VITALITY_MESSAGE: &'static str = "La vitalité initiale doit être supérieure à 0.";

/// Message of the error returned for a configuration without objectives.
pub const OBJECTIVES_MESSAGE: &'static str = "Le nombre d'objectifs doit être supérieur à 0.";

/// Message of the error returned when the winner's score does not beat the loser's.
pub const DAMAGE_MESSAGE: &'static str = "Le score du gagnant doit être supérieur à celui du perdant.";

/// Settings of a game.
#[derive(Debug, Clone)]
pub struct GameConfig {
    /// Vitality of each player at the start of a game.
    pub initial_vitality: i32,
    /// Speed of each player at the start of a game (default if absent).
    pub initial_speed: Option<i32>,
    /// Strength of each player at the start of a game (default if absent).
    pub initial_strength: Option<i32>,
    /// Number of objectives in each turn.
    pub num_objectives: usize,
}

impl GameConfig {
    /// Checks and builds a configuration.
    ///
    /// Fails when the vitality is not positive (checked first) or when there
    /// are no objectives.
    pub fn new(
        initial_vitality: i32,
        initial_speed: Option<i32>,
        initial_strength: Option<i32>,
        num_objectives: usize,
    ) -> (r: Result<Self, String>)
        ensures
            r is Ok <==> (initial_vitality > 0 && num_objectives > 0),
            r matches Ok(c) ==> c.initial_vitality == initial_vitality && c.initial_speed
                == initial_speed && c.initial_strength == initial_strength && c.num_objectives
                == num_objectives,
            r matches Err(e) ==> (if initial_vitality <= 0 {
                e@ == VITALITY_MESSAGE@
            } else {
                e@ == OBJECTIVES_MESSAGE@
            }),
    {
        if initial_vitality <= 0 {
            return Err(String::from_str(VITALITY_MESSAGE));
        }
        if num_objectives == 0 {
            return Err(String::from_str(OBJECTIVES_MESSAGE));
        }
        Ok(GameConfig { initial_vitality, initial_speed, initial_strength, num_objectives })
    }
}

/// A game in progress: two players, the configuration and the round number.
pub struct Game {
    pub player1: Player,
    pub player2: Player,
    pub config: GameConfig,
    pub round_number: u32,
}

/// The state of a player at the start of a game under `config`.
pub open spec fn fresh_player(name: Seq<char>, config: GameConfig) -> PlayerView {
    PlayerView {
        name,
        vitality: config.initial_vitality,
        speed: or_default(config.initial_speed, DEFAULT_SPEED),
        strength: or_default(config.initial_strength, DEFAULT_STRENGTH),
    }
}

/// Who wins a round with these scores: `Some(1)`, `Some(2)`, or `None` on a tie.
pub open spec fn winner_of(score1: int, score2: int) -> Option<u8> {
    if score1 > score2 {
        Some(1u8)
    } else if score1 < score2 {
        Some(2u8)
    } else {
        None
    }
}

/// The vitality lost by the loser of a round: the gap between the scores.
pub open spec fn round_damage(score1: int, score2: int) -> int {
    if score1 > score2 {
        score1 - score2
    } else {
        score2 - score1
    }
}

/// The scores of a round can be settled without leaving the `i32` range: their
/// gap fits, and so does the loser's vitality minus that gap.
pub open spec fn round_fits(p1: PlayerView, p2: PlayerView, score1: int, score2: int) -> bool {
    &&& round_damage(score1, score2) <= i32::MAX
    &&& score1 > score2 ==> p2.vitality - (score1 - score2) >= i32::MIN
    &&& score1 < score2 ==> p1.vitality - (score2 - score1) >= i32::MIN
}

/// What happened in a round.
#[derive(Debug, Clone, Copy, PartialEq, Eq, Structural)]
pub enum RoundOutcome {
    /// Equal scores: nobody loses vitality.
    Draw,
    /// Player `winner` (1 or 2) won; the other lost `damage` vitality and is
    /// still in the game when `loser_alive` holds, in which case the winner
    /// picks a poison for them.
    Won { winner: u8, damage: i32, loser_alive: bool },
}

impl Game {
    /// Starts a game between two players named `name1` and `name2`.
    pub fn new(name1: String, name2: String, config: GameConfig) -> (g: Self)
        ensures
            g.player1@ == fresh_player(name1@, config),
            g.player2@ == fresh_player(name2@, config),
            g.config == config,
            g.round_number == 0,
            g.player1@.name == name1@ && g.player2@.name == name2@,
            g.player1@.vitality == config.initial_vitality && g.player2@.vitality
                == config.initial_vitality,
            config.initial_speed matches Some(v) ==> g.player1@.speed == v && g.player2@.speed == v,
            config.initial_speed is None ==> g.player1@.speed == 50 && g.player2@.speed == 50,
            config.initial_strength matches Some(v) ==> g.player1@.strength == v
                && g.player2@.strength == v,
            config.initial_strength is None ==> g.player1@.strength == 50 && g.player2@.strength
                == 50,
    {
        let player1 = Player::new(
            name1,
            Some(config.initial_vitality),
            config.initial_speed,
            config.initial_strength,
        );
        let player2 = Player::new(
            name2,
            Some(config.initial_vitality),
            config.initial_speed,
            config.initial_strength,
        );
        Game { player1, player2, config, round_number: 0 }
    }

    /// Puts both players back to their starting state and the round number
    /// back to 0, for a new game with the same players and configuration.
    pub fn reset_for_new_game(&mut self)
        ensures
            final(self).player1@ == fresh_player(old(self).player1@.name, old(self).config),
            final(self).player2@ == fresh_player(old(self).player2@.name, old(self).config),
            final(self).config == old(self).config,
            final(self).round_number == 0,
            final(self).player1@.name == old(self).player1@.name,
            final(self).player2@.name == old(self).player2@.name,
            final(self).player1@.vitality == old(self).config.initial_vitality,
            final(self).player2@.vitality == old(self).config.initial_vitality,
            old(self).config.initial_speed matches Some(v) ==> final(self).player1@.speed == v
                && final(self).player2@.speed == v,
            old(self).config.initial_speed is None ==> final(self).player1@.speed == 50
                && final(self).player2@.speed == 50,
            old(self).config.initial_strength matches Some(v) ==> final(self).player1@.strength
                == v && final(self).player2@.strength == v,
            old(self).config.initial_strength is None ==> final(self).player1@.strength == 50
                && final(self).player2@.strength == 50,
    {
        let vitality = self.config.initial_vitality;
        let speed = self.config.initial_speed;
        let strength = self.config.initial_strength;
        self.player1.reset(vitality, speed, strength);
        self.player2.reset(vitality, speed, strength);
        self.round_number = 0;
    }

    /// Whether both players are still in the game, so that another round is played.
    pub fn both_alive(&self) -> (r: bool)
        ensures
            r == (self.player1@.vitality > 0 && self.player2@.vitality > 0),
    {
        self.player1.is_alive() && self.player2.is_alive()
    }

    /// Starts the next round: the round number grows by one.
    pub fn start_round(&mut self)
        requires
            old(self).round_number < u32::MAX,
        ensures
            final(self).round_number == old(self).round_number + 1,
            final(self).player1@ == old(self).player1@,
            final(self).player2@ == old(self).player2@,
            final(self).config == old(self).config,
    {
        self.round_number = self.round_number + 1;
    }

    /// The winner of a finished game: player 1 if still alive, else player 2.
    pub fn game_winner(&self) -> (r: u8)
        ensures
            r == (if self.player1@.vitality > 0 { 1u8 } else { 2u8 }),
    {
        if self.player1.is_alive() {
            1
        } else {
            2
        }
    }

    /// Settles a round from the two average scores: on a tie nothing changes;
    /// otherwise the player with the lower score loses the gap between the
    /// scores in vitality (never below 0).
    pub fn resolve_round(&mut self, score1: i32, score2: i32) -> (r: RoundOutcome)
        requires
            round_fits(old(self).player1@, old(self).player2@, score1 as int, score2 as int),
        ensures
            final(self).config == old(self).config,
            final(self).round_number == old(self).round_number,
            score1 == score2 ==> r == RoundOutcome::Draw && final(self).player1@ == old(
                self,
            ).player1@ && final(self).player2@ == old(self).player2@,
            score1 > score2 ==> {
                &&& final(self).player1@ == old(self).player1@
                &&& final(self).player2@ == PlayerView {
                    vitality: damaged(old(self).player2@.vitality as int, score1 - score2) as i32,
                    ..old(self).player2@
                }
                &&& r == RoundOutcome::Won {
                    winner: 1,
                    damage: (score1 - score2) as i32,
                    loser_alive: final(self).player2@.vitality > 0,
                }
            },
            score1 > score2 && old(self).player2@.vitality - (score1 - score2) > 0 ==> final(self).player2@.vitality == old(self).player2@.vitality - (score1 - score2),
            score1 > score2 && old(self).player2@.vitality - (score1 - score2) <= 0 ==> final(self).player2@.vitality == 0,
            score1 < score2 && old(self).player1@.vitality - (score2 - score1) > 0 ==> final(self).player1@.vitality == old(self).player1@.vitality - (score2 - score1),
            score1 < score2 && old(self).player1@.vitality - (score2 - score1) <= 0 ==> final(self).player1@.vitality == 0,
            score1 < score2 ==> {
                &&& final(self).player2@ == old(self).player2@
                &&& final(self).player1@ == PlayerView {
                    vitality: damaged(old(self).player1@.vitality as int, score2 - score1) as i32,
                    ..old(self).player1@
                }
                &&& r == RoundOutcome::Won {
                    winner: 2,
                    damage: (score2 - score1) as i32,
                    loser_alive: final(self).player1@.vitality > 0,
                }
            },
    {
        if score1 == score2 {
            return RoundOutcome::Draw;
        }
        if score1 > score2 {
            let damage = score1 - score2;
            self.player2.take_damage(damage);
            RoundOutcome::Won { winner: 1, damage, loser_alive: self.player2.is_alive() }
        } else {
            let damage = score2 - score1;
            self.player1.take_damage(damage);
            RoundOutcome::Won { winner: 2, damage, loser_alive: self.player1.is_alive() }
        }
    }

    /// Applies the poison chosen by the winner of a round to its loser: player
    /// 2 when `score1 > score2`, player 1 otherwise.
    pub fn poison_loser(&mut self, score1: i32, score2: i32, poison: Poison)
        requires
            score1 > score2 ==> poison_fits(old(self).player2@, poison),
            score1 <= score2 ==> poison_fits(old(self).player1@, poison),
        ensures
            final(self).config == old(self).config,
            final(self).round_number == old(self).round_number,
            score1 > score2 ==> final(self).player2@ == poisoned(old(self).player2@, poison)
                && final(self).player1@ == old(self).player1@,
            score1 <= score2 ==> final(self).player1@ == poisoned(old(self).player1@, poison)
                && final(self).player2@ == old(self).player2@,
    {
        if score1 > score2 {
            self.player2.apply_poison(poison);
        } else {
            self.player1.apply_poison(poison);
        }
    }
}

/// Tells who wins a round: `Some(1)` if player 1 has the higher score,
/// `Some(2)` if player 2 has, `None` on a tie.
pub fn determine_winner(score1: i32, score2: i32) -> (r: Option<u8>)
    ensures
        r == winner_of(score1 as int, score2 as int),
        r == Some(1u8) <==> score1 > score2,
        r == Some(2u8) <==> score1 < score2,
        r is None <==> score1 == score2,
{
    if score1 > score2 {
        Some(1)
    } else if score1 < score2 {
        Some(2)
    } else {
        None
    }
}

/// The vitality the loser of a round loses: the winner's score minus the
/// loser's. Fails when the winner's score is not higher.
pub fn calculate_damage(winner_score: i32, loser_score: i32) -> (r: Result<i32, String>)
    requires
        winner_score - loser_score <= i32::MAX,
    ensures
        r is Ok <==> winner_score > loser_score,
        r matches Ok(d) ==> d == winner_score - loser_score,
        r matches Err(e) ==> e@ == DAMAGE_MESSAGE@,
{
    if winner_score <= loser_score {
        return Err(String::from_str(DAMAGE_MESSAGE));
    }
    Ok(winner_score - loser_score)
}

/// A player of a new or reset game starts with the configured vitality, the
/// configured speed and strength when given, and the defaults (50) otherwise.
pub proof fn lemma_fresh_player(name: Seq<char>, config: GameConfig)
    ensures
        fresh_player(name, config).name == name,
        fresh_player(name, config).vitality == config.initial_vitality,
        config.initial_speed matches Some(v) ==> fresh_player(name, config).speed == v,
        config.initial_speed is None ==> fresh_player(name, config).speed == 50,
        config.initial_strength matches Some(v) ==> fresh_player(name, config).strength == v,
        config.initial_strength is None ==> fresh_player(name, config).strength == 50,
{
}

/// A tie has no winner; otherwise exactly one player wins, and swapping the
/// scores swaps the winner.
pub proof fn lemma_winner_swaps(score1: int, score2: int)
    ensures
        winner_of(score1, score2) is None <==> score1 == score2,
        winner_of(score1, score2) == Some(1u8) <==> winner_of(score2, score1) == Some(2u8),
        winner_of(score1, score2) == Some(2u8) <==> winner_of(score2, score1) == Some(1u8),
{
}

/// The damage of a round is the same whichever way the scores are given, and
/// is positive exactly when the round has a winner; player 1 wins exactly when
/// its score is higher, which is when a damage can be computed with player 1
/// as the winner.
pub proof fn lemma_round_damage(score1: int, score2: int)
    ensures
        winner_of(score1, score2) == Some(1u8) <==> score1 > score2,
        winner_of(score1, score2) == Some(2u8) <==> score1 < score2,
        score1 > score2 ==> round_damage(score1, score2) == score1 - score2,
        score1 < score2 ==> round_damage(score1, score2) == score2 - score1,
        round_damage(score1, score2) == round_damage(score2, score1),
        round_damage(score1, score2) > 0 <==> winner_of(score1, score2) is Some,
{
}

} // verus!
