use ndoors::{Decision, GameResult, RoundResult, Settings};

fn round(prize: u32, chosen: u32, left: u32, decision: Decision) -> RoundResult {
    let win = match decision {
        Decision::Stick => chosen == prize,
        Decision::Switch => left == prize,
    };
    RoundResult { prize, chosen, left, decision, win }
}

#[test]
fn calculate_counts_each_tally() {
    let results = vec![
        round(0, 1, 0, Decision::Switch),
        round(0, 0, 2, Decision::Stick),
        round(2, 2, 1, Decision::Switch),
        round(1, 0, 1, Decision::Stick),
        round(1, 2, 1, Decision::Switch),
    ];
    let g = GameResult::calculate(3, &results);
    assert_eq!(g.settings(), Settings::new(3, 5));
    assert_eq!(g.win(), 3);
    assert_eq!(g.chosen_win(), 2);
    assert_eq!(g.left_win(), 3);
    assert_eq!(g.switch(), 3);
    assert_eq!(g.stick(), 2);
    assert_eq!(g.switch_win(), 2);
    assert_eq!(g.stick_win(), 1);
}

#[test]
fn calculate_on_no_rounds() {
    let g = GameResult::calculate(4, &[]);
    assert_eq!(g.settings(), Settings::new(4, 0));
    assert_eq!(g.win(), 0);
    assert_eq!(g.chosen_win(), 0);
    assert_eq!(g.left_win(), 0);
    assert_eq!(g.switch(), 0);
    assert_eq!(g.stick(), 0);
    assert_eq!(g.switch_win(), 0);
    assert_eq!(g.stick_win(), 0);
}

#[test]
fn calculate_over_played_game() {
    let mut room = ndoors::Room::create(uuid::Uuid::new_v4(), Settings::new(3, 50));
    room.accept_contestant(uuid::Uuid::new_v4()).unwrap();
    room.contestant_ready(true).unwrap();
    for i in 0..50 {
        room.start_random().unwrap();
        room.choose_random().unwrap();
        room.reveal_random().unwrap();
        let decision = if i % 2 == 0 { Decision::Switch } else { Decision::Stick };
        room.decide(decision).unwrap();
    }
    let results = room.complete(false).unwrap();
    let g = GameResult::calculate(3, &results);
    assert_eq!(g.settings(), Settings::new(3, 50));
    assert_eq!(g.switch(), 25);
    assert_eq!(g.stick(), 25);
    assert_eq!(g.win(), g.switch_win() + g.stick_win());
    assert_eq!(g.chosen_win() + g.left_win(), 50);
}
