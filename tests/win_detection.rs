use unite4::board::{has_winning_move, PlayerMove};

fn mv(player: u8, column: usize, row: usize) -> PlayerMove {
    PlayerMove::new(player, column, row)
}

#[test]
fn horizontal_four_wins() {
    let moves = vec![mv(1, 0, 0), mv(1, 1, 0), mv(1, 2, 0), mv(1, 3, 0)];
    assert!(has_winning_move(&moves));
}

#[test]
fn vertical_four_wins() {
    let moves = vec![mv(2, 4, 0), mv(2, 4, 1), mv(2, 4, 2), mv(2, 4, 3)];
    assert!(has_winning_move(&moves));
    assert!(moves[3].is_winner(&moves));
}

#[test]
fn rising_diagonal_wins() {
    let moves = vec![mv(1, 1, 0), mv(1, 2, 1), mv(1, 3, 2), mv(1, 4, 3)];
    assert!(has_winning_move(&moves));
    assert!(moves[1].is_winner(&moves));
}

#[test]
fn falling_diagonal_wins() {
    let moves = vec![mv(2, 0, 5), mv(2, 1, 4), mv(2, 2, 3), mv(2, 3, 2)];
    assert!(has_winning_move(&moves));
    assert!(moves[2].is_winner(&moves));
}

#[test]
fn three_in_a_row_does_not_win() {
    let moves = vec![mv(1, 0, 0), mv(1, 1, 0), mv(1, 2, 0)];
    assert!(!has_winning_move(&moves));
}

#[test]
fn gap_breaks_the_line() {
    let moves = vec![mv(1, 0, 0), mv(1, 1, 0), mv(1, 3, 0), mv(1, 4, 0)];
    assert!(!has_winning_move(&moves));
}

#[test]
fn mixed_players_do_not_win() {
    let moves = vec![mv(1, 0, 0), mv(2, 1, 0), mv(1, 2, 0), mv(1, 3, 0)];
    assert!(!has_winning_move(&moves));
    assert!(!moves[0].is_winner(&moves));
}

#[test]
fn empty_board_has_no_line() {
    let moves: Vec<PlayerMove> = Vec::new();
    assert!(!has_winning_move(&moves));
}

#[test]
fn line_of_five_wins_from_every_cell() {
    let moves = vec![mv(1, 0, 0), mv(1, 1, 0), mv(1, 2, 0), mv(1, 3, 0), mv(1, 4, 0)];
    for m in &moves {
        assert!(m.is_winner(&moves));
    }
}

#[test]
fn winning_line_through_last_move() {
    // the three earlier pieces hold no line; the fourth completes one
    let moves = vec![mv(1, 6, 0), mv(1, 6, 1), mv(1, 6, 2), mv(1, 6, 3)];
    assert!(!has_winning_move(&moves[..3]));
    assert!(moves[3].is_winner(&moves));
    assert!(has_winning_move(&moves));
}

#[test]
fn earlier_line_still_counts() {
    // the line was completed before the last move, which lies on none
    let moves = vec![mv(1, 0, 0), mv(1, 1, 0), mv(1, 2, 0), mv(1, 3, 0), mv(2, 6, 0)];
    assert!(has_winning_move(&moves));
    assert!(!moves[4].is_winner(&moves));
}
