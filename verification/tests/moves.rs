use rps_toy::game::Move;

#[test]
fn from_char_accepts_all_move_letters() {
    assert_eq!(Move::from_char('r'), Some(Move::Rock));
    assert_eq!(Move::from_char('R'), Some(Move::Rock));
    assert_eq!(Move::from_char('p'), Some(Move::Paper));
    assert_eq!(Move::from_char('P'), Some(Move::Paper));
    assert_eq!(Move::from_char('s'), Some(Move::Scissors));
    assert_eq!(Move::from_char('S'), Some(Move::Scissors));
}

#[test]
fn from_char_rejects_everything_else() {
    assert_eq!(Move::from_char('x'), None);
    assert_eq!(Move::from_char('q'), None);
    assert_eq!(Move::from_char('1'), None);
    assert_eq!(Move::from_char(' '), None);
    assert_eq!(Move::from_char('\u{FFFD}'), None);
}

#[test]
fn compare_full_matrix() {
    assert_eq!(Move::Rock.compare(Move::Rock), 0);
    assert_eq!(Move::Paper.compare(Move::Paper), 0);
    assert_eq!(Move::Scissors.compare(Move::Scissors), 0);
    assert_eq!(Move::Rock.compare(Move::Scissors), 1);
    assert_eq!(Move::Scissors.compare(Move::Paper), 1);
    assert_eq!(Move::Paper.compare(Move::Rock), 1);
    assert_eq!(Move::Scissors.compare(Move::Rock), -1);
    assert_eq!(Move::Paper.compare(Move::Scissors), -1);
    assert_eq!(Move::Rock.compare(Move::Paper), -1);
}

#[test]
fn compare_is_antisymmetric() {
    for a in [Move::Rock, Move::Paper, Move::Scissors] {
        for b in [Move::Rock, Move::Paper, Move::Scissors] {
            assert_eq!(a.compare(b), -b.compare(a));
        }
    }
}

#[test]
fn move_names_are_capitalized() {
    assert_eq!(Move::Rock.name(), "Rock");
    assert_eq!(Move::Paper.name(), "Paper");
    assert_eq!(Move::Scissors.name(), "Scissors");
}
