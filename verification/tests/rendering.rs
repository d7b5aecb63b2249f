use rps_toy::game::Move;
use rps_toy::wire::{format_state, u64_to_string};

#[test]
fn decimal_rendering_matches_std() {
    for n in [0u64, 1, 9, 10, 11, 99, 100, 107, 4_294_967_295, u64::MAX] {
        assert_eq!(u64_to_string(n), n.to_string());
    }
}

#[test]
fn intermediate_state_line_is_exact() {
    let line = format_state(Move::Rock, Move::Scissors, 3, 1, 17, None);
    assert_eq!(
        line,
        "Player 1: Rock, Player 2: Scissors, SCORES => Player 1: 3, Player 2: 1 | Time Left: 17 sec"
    );
}

#[test]
fn terminal_state_line_appends_the_result() {
    let line = format_state(Move::Paper, Move::Paper, 12, 40, 0, Some("Player 2 wins!"));
    assert_eq!(
        line,
        "Player 1: Paper, Player 2: Paper, SCORES => Player 1: 12, Player 2: 40 | Time Left: 0 sec | Player 2 wins!"
    );
}

#[test]
fn state_line_renders_large_scores() {
    let line = format_state(Move::Scissors, Move::Rock, u32::MAX, 0, 20, None);
    assert_eq!(
        line,
        "Player 1: Scissors, Player 2: Rock, SCORES => Player 1: 4294967295, Player 2: 0 | Time Left: 20 sec"
    );
}
