use duel_game::player::{Player, Poison, DEFAULT_SPEED, DEFAULT_STRENGTH, DEFAULT_VITALITY};

#[test]
fn test_new_player_defaults() {
    let player = Player::new("Test".to_string(), None, None, None);
    assert_eq!(player.name(), "Test");
    assert_eq!(player.vitality(), DEFAULT_VITALITY);
    assert_eq!(player.speed(), DEFAULT_SPEED);
    assert_eq!(player.strength(), DEFAULT_STRENGTH);
}

#[test]
fn test_new_player_custom() {
    let player = Player::new("Alice".to_string(), Some(80), Some(30), Some(60));
    assert_eq!(player.vitality(), 80);
    assert_eq!(player.speed(), 30);
    assert_eq!(player.strength(), 60);
}

#[test]
fn test_is_alive_true() {
    let player = Player::new("Alive".to_string(), Some(1), None, None);
    assert!(player.is_alive());
}

#[test]
fn test_is_alive_false() {
    let player = Player::new("Dead".to_string(), Some(0), None, None);
    assert!(!player.is_alive());
}

#[test]
fn test_take_damage() {
    let mut player = Player::new("Test".to_string(), Some(50), None, None);
    player.take_damage(13);
    assert_eq!(player.vitality(), 37);
}

#[test]
fn test_take_damage_no_negative() {
    let mut player = Player::new("Test".to_string(), Some(10), None, None);
    player.take_damage(20);
    assert_eq!(player.vitality(), 0);
    assert!(!player.is_alive());
}

#[test]
fn test_apply_poison_speed() {
    let mut player = Player::new("Test".to_string(), None, Some(50), None);
    player.apply_poison(Poison::Speed);
    assert_eq!(player.speed(), 55);
}

#[test]
fn test_apply_poison_strength() {
    let mut player = Player::new("Test".to_string(), None, None, Some(50));
    player.apply_poison(Poison::Strength);
    assert_eq!(player.strength(), 45);
}

#[test]
fn test_apply_poison_strength_min_zero() {
    let mut player = Player::new("Test".to_string(), None, None, Some(3));
    player.apply_poison(Poison::Strength);
    assert_eq!(player.strength(), 0);
}

#[test]
fn test_reset() {
    let mut player = Player::new("Test".to_string(), Some(10), Some(80), Some(20));
    player.reset(100, None, None);
    assert_eq!(player.vitality(), 100);
    assert_eq!(player.speed(), DEFAULT_SPEED);
    assert_eq!(player.strength(), DEFAULT_STRENGTH);
}

#[test]
fn test_display() {
    let player = Player::new("Michel".to_string(), Some(50), Some(50), Some(50));
    let display = player.to_string();
    assert_eq!(display, "Michel (Vitality=50, Speed=50, Strength=50)");
}

#[test]
fn display_negative_and_zero_values() {
    let player = Player::new("Zoé".to_string(), Some(0), Some(-7), Some(i32::MIN));
    assert_eq!(
        player.to_string(),
        "Zoé (Vitality=0, Speed=-7, Strength=-2147483648)"
    );
}

#[test]
fn reset_keeps_name_and_uses_given_values() {
    let mut player = Player::new("Bob".to_string(), Some(3), None, None);
    player.reset(40, Some(12), Some(9));
    assert_eq!(player.name(), "Bob");
    assert_eq!(player.vitality(), 40);
    assert_eq!(player.speed(), 12);
    assert_eq!(player.strength(), 9);
}

#[test]
fn speed_poison_has_a_floor_of_five() {
    let mut player = Player::new("Slow".to_string(), None, Some(-20), None);
    player.apply_poison(Poison::Speed);
    assert_eq!(player.speed(), 5);
}

#[test]
fn damage_accumulates_like_one_hit() {
    let mut a = Player::new("A".to_string(), Some(30), None, None);
    a.take_damage(10);
    a.take_damage(25);
    let mut b = Player::new("B".to_string(), Some(30), None, None);
    b.take_damage(35);
    assert_eq!(a.vitality(), b.vitality());
    assert_eq!(a.vitality(), 0);
}

#[test]
fn poison_does_not_touch_other_characteristics() {
    let mut player = Player::new("P".to_string(), Some(70), Some(40), Some(60));
    player.apply_poison(Poison::Speed);
    assert_eq!(player.vitality(), 70);
    assert_eq!(player.strength(), 60);
    assert_eq!(player.speed(), 45);
}
