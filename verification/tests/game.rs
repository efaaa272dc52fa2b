use std::collections::VecDeque;

use music_mercenary::game::{BrickData, Game};
use music_mercenary::objects::BrickType;

fn note(bt: BrickType, beat: i32, end: i32, x: i32, hold: bool) -> BrickData {
    BrickData { brick_type: bt, beat_pos: beat, end_beat_pos: end, x_pos: x, is_hold_note: hold }
}

#[test]
fn new_game_is_empty() {
    let mut g = Game::new();
    assert_eq!(g.score(), 0);
    assert_eq!(g.max_score(), 0);
    assert_eq!(g.note_count(), 0);
    assert_eq!(g.bricks_broken(), 0);
    assert!(g.bricks().is_empty());
    assert_eq!(g.select_brick(0, 0), None);
}

#[test]
fn adding_notes_raises_max_score() {
    let mut g = Game::new();
    g.add_brick(note(BrickType::Type1, 4, 4, 2, false));
    assert_eq!(g.max_score(), 100);
    g.add_brick(note(BrickType::Type2, 8, 8, 3, false));
    assert_eq!(g.max_score(), 200);
    g.add_brick(note(BrickType::Type2, 8, 8, 3, false));
    assert_eq!(g.max_score(), 200);
    assert_eq!(g.note_count(), 2);
}

#[test]
fn removing_a_note_undoes_adding_it() {
    let mut g = Game::new();
    let a = note(BrickType::Type1, 4, 4, 2, false);
    let b = note(BrickType::Type3, 6, 9, 1, true);
    g.add_brick(a);
    g.add_brick(b);
    g.remove_brick(b);
    assert_eq!(g.bricks(), vec![a]);
    assert_eq!(g.max_score(), 100);
    g.remove_brick(b);
    assert_eq!(g.note_count(), 1);
}

#[test]
fn bricks_come_in_chart_order() {
    let mut g = Game::new();
    let a = note(BrickType::Type1, 8, 8, 0, false);
    let b = note(BrickType::Type2, 2, 2, 5, false);
    let c = note(BrickType::Type3, 2, 2, 1, false);
    let d = note(BrickType::Type1, -3, -3, 9, false);
    g.add_brick(a);
    g.add_brick(b);
    g.add_brick(c);
    g.add_brick(d);
    assert_eq!(g.bricks(), vec![d, c, b, a]);
}

#[test]
fn select_finds_note_on_its_beat() {
    let mut g = Game::new();
    let a = note(BrickType::Type2, 4, 4, 3, false);
    g.add_brick(a);
    assert_eq!(g.select_brick(4, 3), Some(a));
    assert_eq!(g.select_brick(4, 2), None);
    assert_eq!(g.select_brick(5, 3), None);
    assert_eq!(g.select_brick(3, 3), None);
}

#[test]
fn select_finds_held_note_over_its_length() {
    let mut g = Game::new();
    let h = note(BrickType::Type1, 4, 10, 2, true);
    g.add_brick(h);
    assert_eq!(g.select_brick(4, 2), Some(h));
    assert_eq!(g.select_brick(7, 2), Some(h));
    assert_eq!(g.select_brick(10, 2), Some(h));
    assert_eq!(g.select_brick(11, 2), None);
    assert_eq!(g.select_brick(3, 2), None);
}

#[test]
fn select_prefers_first_note_in_chart_order() {
    let mut g = Game::new();
    let long = note(BrickType::Type3, 2, 12, 1, true);
    let later = note(BrickType::Type1, 6, 6, 1, false);
    g.add_brick(later);
    g.add_brick(long);
    assert_eq!(g.select_brick(6, 1), Some(long));
    assert_eq!(g.select_brick(13, 1), None);
}

#[test]
fn breaking_bricks_scores_and_counts() {
    let mut g = Game::new();
    let mut field: VecDeque<char> = VecDeque::from(vec!['a', 'b', 'c', 'd', 'e']);
    let n = g.break_bricks(&mut field, &vec![false, true, false, true, false]);
    assert_eq!(n, 2);
    assert_eq!(field, VecDeque::from(vec!['a', 'c', 'e']));
    assert_eq!(g.score(), 200);
    let n2 = g.break_bricks(&mut field, &vec![true, false, false]);
    assert_eq!(n2, 1);
    assert_eq!(field, VecDeque::from(vec!['c', 'e']));
    assert_eq!(g.score(), 300);
    assert_eq!(g.bricks_broken(), 3);
    assert_eq!(g.bricks_broken(), 0);
    assert_eq!(g.score(), 300);
}

#[test]
fn reset_clears_score_but_keeps_chart() {
    let mut g = Game::new();
    g.add_brick(note(BrickType::Type1, 1, 1, 1, false));
    let mut field: VecDeque<u8> = VecDeque::from(vec![1]);
    g.break_bricks(&mut field, &vec![true]);
    g.reset_score();
    assert_eq!(g.score(), 0);
    assert_eq!(g.bricks_broken(), 0);
    assert_eq!(g.max_score(), 100);
    assert_eq!(g.note_count(), 1);
}

#[test]
fn note_keys_round_trip() {
    let a = note(BrickType::Type3, -7, 12, 4, true);
    assert_eq!(BrickData::from_key(a.key()), a);
    assert_eq!(a.key(), (-7, 4, 2, 12, 1));
}

#[test]
fn broken_count_can_be_read_without_reset() {
    let mut g = Game::new();
    let mut field: VecDeque<u8> = VecDeque::from(vec![1, 2, 3]);
    g.break_bricks(&mut field, &vec![true, true, false]);
    assert_eq!(g.bricks_broken_count(), 2);
    assert_eq!(g.bricks_broken_count(), 2);
    assert_eq!(g.bricks_broken(), 2);
    assert_eq!(g.bricks_broken_count(), 0);
}

#[test]
fn add_then_remove_restores_chart_and_best_score() {
    let mut g = Game::new();
    let a = note(BrickType::Type2, 3, 3, 1, false);
    let b = note(BrickType::Type1, 5, 7, 2, true);
    g.add_brick(a);
    g.assert_well_formed();
    let before = g.bricks();
    let best = g.max_score();
    g.add_brick(b);
    g.remove_brick(b);
    assert_eq!(g.bricks(), before);
    assert_eq!(g.max_score(), best);
}

#[test]
fn editing_the_chart_starts_the_play_through_over() {
    let mut g = Game::new();
    let mut field: VecDeque<u8> = VecDeque::from(vec![1, 2]);
    g.break_bricks(&mut field, &vec![true, true]);
    assert_eq!(g.score(), 200);
    let a = note(BrickType::Type1, 2, 2, 0, false);
    g.add_brick(a);
    assert_eq!(g.score(), 0);
    assert_eq!(g.bricks_broken_count(), 0);
    let mut field2: VecDeque<u8> = VecDeque::from(vec![3]);
    g.break_bricks(&mut field2, &vec![true]);
    assert_eq!(g.score(), 100);
    g.remove_brick(a);
    assert_eq!(g.score(), 0);
    assert_eq!(g.bricks_broken(), 0);
}
