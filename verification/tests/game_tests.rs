use duel_game::game::{calculate_damage, determine_winner, Game, GameConfig, RoundOutcome};
use duel_game::player::{Player, Poison};

#[test]
fn test_game_config_valid() {
    let config = GameConfig::new(100, None, None, 5);
    assert!(config.is_ok());
    let config = config.unwrap();
    assert_eq!(config.initial_vitality, 100);
    assert_eq!(config.num_objectives, 5);
}

#[test]
fn test_game_config_invalid_vitality() {
    let config = GameConfig::new(0, None, None, 5);
    assert!(config.is_err());
}

#[test]
fn test_game_config_invalid_objectives() {
    let config = GameConfig::new(100, None, None, 0);
    assert!(config.is_err());
}

#[test]
fn test_determine_winner_player1() {
    assert_eq!(determine_winner(95, 82), Some(1));
}

#[test]
fn test_determine_winner_player2() {
    assert_eq!(determine_winner(60, 85), Some(2));
}

#[test]
fn test_determine_winner_draw() {
    assert_eq!(determine_winner(75, 75), None);
}

#[test]
fn test_calculate_damage() {
    assert_eq!(calculate_damage(95, 82).unwrap(), 13);
}

#[test]
fn test_calculate_damage_invalid() {
    assert!(calculate_damage(50, 80).is_err());
}

#[test]
fn test_game_creation() {
    let config = GameConfig::new(50, None, None, 5).unwrap();
    let game = Game::new("Michel".to_string(), "Jacque".to_string(), config);
    assert_eq!(game.player1.name(), "Michel");
    assert_eq!(game.player2.name(), "Jacque");
    assert_eq!(game.player1.vitality(), 50);
    assert_eq!(game.round_number, 0);
}

#[test]
fn test_reset_for_new_game() {
    let config = GameConfig::new(50, Some(50), Some(50), 5).unwrap();
    let mut game = Game::new("A".to_string(), "B".to_string(), config);
    game.round_number = 5;
    game.player1.take_damage(20);
    game.player1.apply_poison(Poison::Strength);

    game.reset_for_new_game();

    assert_eq!(game.player1.vitality(), 50);
    assert_eq!(game.player1.strength(), 50);
    assert_eq!(game.round_number, 0);
}

#[test]
fn test_damage_scenario() {
    let damage = calculate_damage(95, 82).unwrap();
    assert_eq!(damage, 13);

    let mut player = Player::new("Michel".to_string(), Some(50), None, None);
    player.take_damage(damage);
    assert_eq!(player.vitality(), 37);
}

#[test]
fn test_game_over_scenario() {
    let mut player = Player::new("Michel".to_string(), Some(37), None, None);
    player.take_damage(40);
    assert_eq!(player.vitality(), 0);
    assert!(!player.is_alive());
}

#[test]
fn test_game_config_with_options() {
    let config = GameConfig::new(80, Some(40), Some(60), 3).unwrap();
    assert_eq!(config.initial_vitality, 80);
    assert_eq!(config.initial_speed, Some(40));
    assert_eq!(config.initial_strength, Some(60));
    assert_eq!(config.num_objectives, 3);
}

#[test]
fn test_config_from_args() {
    let config = GameConfig::new(50, Some(50), Some(50), 5);
    assert!(config.is_ok());
}

#[test]
fn config_error_messages() {
    assert_eq!(
        GameConfig::new(-3, None, None, 0).unwrap_err(),
        "La vitalité initiale doit être supérieure à 0."
    );
    assert_eq!(
        GameConfig::new(10, None, None, 0).unwrap_err(),
        "Le nombre d'objectifs doit être supérieur à 0."
    );
}

#[test]
fn damage_error_message_on_tie() {
    assert_eq!(
        calculate_damage(70, 70).unwrap_err(),
        "Le score du gagnant doit être supérieur à celui du perdant."
    );
}

#[test]
fn new_game_uses_defaults_for_missing_options() {
    let config = GameConfig::new(80, None, Some(7), 2).unwrap();
    let game = Game::new("X".to_string(), "Y".to_string(), config);
    assert_eq!(game.player2.vitality(), 80);
    assert_eq!(game.player2.speed(), 50);
    assert_eq!(game.player2.strength(), 7);
    assert_eq!(game.config.num_objectives, 2);
}

#[test]
fn round_resolution_damages_the_loser_only() {
    let config = GameConfig::new(50, None, None, 5).unwrap();
    let mut game = Game::new("Michel".to_string(), "Jacque".to_string(), config);
    game.start_round();
    let outcome = game.resolve_round(82, 95);
    assert_eq!(
        outcome,
        RoundOutcome::Won { winner: 2, damage: 13, loser_alive: true }
    );
    assert_eq!(game.player1.vitality(), 37);
    assert_eq!(game.player2.vitality(), 50);
    assert_eq!(game.round_number, 1);
    game.poison_loser(82, 95, Poison::Speed);
    assert_eq!(game.player1.speed(), 55);
    assert_eq!(game.player2.speed(), 50);
}

#[test]
fn round_resolution_draw_changes_nothing() {
    let config = GameConfig::new(50, None, None, 5).unwrap();
    let mut game = Game::new("A".to_string(), "B".to_string(), config);
    assert_eq!(game.resolve_round(60, 60), RoundOutcome::Draw);
    assert_eq!(game.player1.vitality(), 50);
    assert_eq!(game.player2.vitality(), 50);
    assert!(game.both_alive());
}

#[test]
fn elimination_ends_the_game() {
    let config = GameConfig::new(30, None, None, 5).unwrap();
    let mut game = Game::new("A".to_string(), "B".to_string(), config);
    let outcome = game.resolve_round(100, 40);
    assert_eq!(
        outcome,
        RoundOutcome::Won { winner: 1, damage: 60, loser_alive: false }
    );
    assert_eq!(game.player2.vitality(), 0);
    assert!(!game.both_alive());
    assert_eq!(game.game_winner(), 1);
}

#[test]
fn player_two_wins_when_player_one_is_out() {
    let config = GameConfig::new(10, None, None, 5).unwrap();
    let mut game = Game::new("A".to_string(), "B".to_string(), config);
    game.resolve_round(0, 15);
    assert_eq!(game.game_winner(), 2);
}

#[test]
fn strength_poison_goes_to_player_two_when_player_one_wins() {
    let config = GameConfig::new(100, None, Some(20), 5).unwrap();
    let mut game = Game::new("A".to_string(), "B".to_string(), config);
    game.poison_loser(90, 10, Poison::Strength);
    assert_eq!(game.player2.strength(), 15);
    assert_eq!(game.player1.strength(), 20);
}
