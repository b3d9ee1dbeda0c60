use duel_game::counter::{
    classify_key, parse_choice, parse_yes_no, CounterResult, KeyAction, KeyCodeInput, KeyInput,
    SharedCounterState,
};

#[test]
fn test_counter_result_creation() {
    let result = CounterResult { counter_value: 42, miss_count: 1 };
    assert_eq!(result.counter_value, 42);
    assert_eq!(result.miss_count, 1);
}

#[test]
fn test_counter_result_copy() {
    let result = CounterResult { counter_value: 50, miss_count: 0 };
    let copy = result;
    assert_eq!(copy.counter_value, result.counter_value);
    assert_eq!(copy.miss_count, result.miss_count);
}

#[test]
fn test_shared_state_init() {
    let state = SharedCounterState::new();
    assert_eq!(state.counter, 0);
    assert_eq!(state.miss, 0);
    assert!(!state.stopped);
    assert!(!state.terminated);
}

#[test]
fn test_shared_state_reset() {
    let mut state = SharedCounterState::new();
    state.counter = 50;
    state.miss = 3;
    state.stopped = true;

    state.reset();

    assert_eq!(state.counter, 0);
    assert_eq!(state.miss, 0);
    assert!(!state.stopped);
}

#[test]
fn test_counter_wrap_around() {
    let mut state = SharedCounterState::new();
    state.counter = 98;
    for _ in 0..3 {
        state.increment();
    }
    assert_eq!(state.counter, 1);
    assert_eq!(state.miss, 1);
}

#[test]
fn five_steps_from_zero() {
    let mut state = SharedCounterState::new();
    for _ in 0..5 {
        state.increment();
    }
    assert_eq!(state.counter, 5);
    assert_eq!(state.miss, 0);
}

#[test]
fn steps_count_cycles() {
    let mut state = SharedCounterState::new();
    for _ in 0..1234 {
        state.increment();
    }
    assert_eq!(state.counter, 34);
    assert_eq!(state.miss, 12);
    let result = state.result();
    assert_eq!(result.counter_value, 34);
    assert_eq!(result.miss_count, 12);
}

#[test]
fn reset_keeps_termination_flag() {
    let mut state = SharedCounterState::new();
    state.terminated = true;
    state.counter = 7;
    state.reset();
    assert!(state.terminated);
    assert_eq!(state.counter, 0);
}

fn key(code: KeyCodeInput, control_only: bool, press: bool) -> Option<KeyInput> {
    Some(KeyInput { code, control_only, press })
}

#[test]
fn key_classification() {
    assert_eq!(classify_key(key(KeyCodeInput::Char('c'), true, true)), KeyAction::Interrupt);
    assert_eq!(classify_key(key(KeyCodeInput::Char('c'), false, true)), KeyAction::Ignore);
    assert_eq!(classify_key(key(KeyCodeInput::Char('c'), true, false)), KeyAction::Ignore);
    assert_eq!(classify_key(key(KeyCodeInput::Char('C'), true, true)), KeyAction::Ignore);
    assert_eq!(classify_key(key(KeyCodeInput::Enter, false, true)), KeyAction::Confirm);
    assert_eq!(classify_key(key(KeyCodeInput::Enter, true, true)), KeyAction::Confirm);
    assert_eq!(classify_key(key(KeyCodeInput::Enter, false, false)), KeyAction::Ignore);
    assert_eq!(classify_key(key(KeyCodeInput::Other, false, true)), KeyAction::Ignore);
    assert_eq!(classify_key(None), KeyAction::Ignore);
}

#[test]
fn choice_parsing() {
    assert_eq!(parse_choice("1\n"), Ok(1));
    assert_eq!(parse_choice("  2 \r\n"), Ok(2));
    assert_eq!(parse_choice("+2\n"), Ok(2));
    assert_eq!(parse_choice("002"), Ok(2));
    assert_eq!(parse_choice("\u{3000}1\u{a0}"), Ok(1));
}

#[test]
fn choice_errors() {
    assert_eq!(parse_choice("3\n"), Err("Le choix doit être 1 ou 2.".to_string()));
    assert_eq!(parse_choice("0"), Err("Le choix doit être 1 ou 2.".to_string()));
    assert_eq!(parse_choice("255"), Err("Le choix doit être 1 ou 2.".to_string()));
    assert_eq!(parse_choice("256"), Err("Choix invalide".to_string()));
    assert_eq!(parse_choice("-1"), Err("Choix invalide".to_string()));
    assert_eq!(parse_choice("+"), Err("Choix invalide".to_string()));
    assert_eq!(parse_choice(""), Err("Choix invalide".to_string()));
    assert_eq!(parse_choice("1 2"), Err("Choix invalide".to_string()));
    assert_eq!(parse_choice("deux"), Err("Choix invalide".to_string()));
    assert_eq!(parse_choice("99999999999999999999"), Err("Choix invalide".to_string()));
}

#[test]
fn yes_no_parsing() {
    for yes in ["y", "Y\n", "yes", "YeS", " o ", "oui\r\n", "OUI"] {
        assert_eq!(parse_yes_no(yes), Ok(true), "{:?}", yes);
    }
    for no in ["n", "N\n", "no", "nO", "non", "NON\n"] {
        assert_eq!(parse_yes_no(no), Ok(false), "{:?}", no);
    }
    for bad in ["", "ye", "nope", "oui oui", "\u{212a}", "yess", "x"] {
        assert_eq!(
            parse_yes_no(bad),
            Err("Réponse invalide. Entrez Y ou N.".to_string()),
            "{:?}",
            bad
        );
    }
}
