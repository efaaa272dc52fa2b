use std::collections::VecDeque;

use music_mercenary::field::{discard_flagged, struck_bricks};
use music_mercenary::objects::{brick_type_from_index, brick_type_index, BrickType};
use music_mercenary::resources::{brick_graphics, dash_graphic, slash_graphic, GraphicGroup};
use music_mercenary::song::{
    clamp_note_pos, grade_of, json_array, max_score_for, note_pos_to_x, toggle_change,
    total_points, Grade, ScoreKeeper, SlotChange,
};
use music_mercenary::{
    compose_frame, game_dimensions, num_possible_inputs, Graphic, GraphicFlags, PositionedGraphic,
};

#[test]
fn grades_score_by_timing() {
    assert_eq!(Grade::Perfect.points(), 100);
    assert_eq!(Grade::Good.points(), 90);
    assert_eq!(Grade::Okay.points(), 80);
    assert_eq!(Grade::Late.points(), 70);
    assert_eq!(grade_of(true, true, true), Grade::Perfect);
    assert_eq!(grade_of(false, true, true), Grade::Good);
    assert_eq!(grade_of(false, false, true), Grade::Okay);
    assert_eq!(grade_of(false, false, false), Grade::Late);
}

#[test]
fn total_points_skips_unbroken() {
    let grades = vec![Some(Grade::Perfect), None, Some(Grade::Late), Some(Grade::Good)];
    assert_eq!(total_points(&grades), 260);
    assert_eq!(total_points(&vec![]), 0);
}

#[test]
fn max_score_is_a_hundred_a_note() {
    assert_eq!(max_score_for(0), 0);
    assert_eq!(max_score_for(3), 300);
}

#[test]
fn note_positions_clamp_to_last_column() {
    assert_eq!(clamp_note_pos(3), 3);
    assert_eq!(clamp_note_pos(15), 15);
    assert_eq!(clamp_note_pos(16), 15);
    assert_eq!(clamp_note_pos(200), 15);
    assert_eq!(note_pos_to_x(0), 0);
    assert_eq!(note_pos_to_x(2), 240);
    assert_eq!(note_pos_to_x(40), 1800);
}

#[test]
fn toggling_cycles_through_types() {
    assert_eq!(toggle_change(false, false, false, BrickType::Type2), SlotChange::Insert(BrickType::Type2));
    assert_eq!(
        toggle_change(true, false, false, BrickType::Type3),
        SlotChange::Replace(BrickType::Type1, BrickType::Type2)
    );
    assert_eq!(
        toggle_change(false, true, false, BrickType::Type1),
        SlotChange::Replace(BrickType::Type2, BrickType::Type3)
    );
    assert_eq!(toggle_change(false, false, true, BrickType::Type1), SlotChange::Remove(BrickType::Type3));
    assert_eq!(
        toggle_change(true, true, true, BrickType::Type1),
        SlotChange::Replace(BrickType::Type1, BrickType::Type2)
    );
}

#[test]
fn json_array_frames_entries() {
    assert_eq!(json_array(&vec![]), "[]");
    assert_eq!(json_array(&vec!["{\"a\": 1}".to_string()]), "[{\"a\": 1}]");
    assert_eq!(json_array(&vec!["1".to_string(), "2".to_string(), "3".to_string()]), "[1,2,3]");
}

#[test]
fn score_keeper_counts_and_resets() {
    let mut k = ScoreKeeper::new();
    k.record(170, 2);
    k.record(90, 1);
    assert_eq!(k.score(), 260);
    assert_eq!(k.bricks_broken(), 3);
    assert_eq!(k.bricks_broken(), 0);
    assert_eq!(k.score(), 260);
    k.reset();
    assert_eq!(k.score(), 0);
}

#[test]
fn discarding_keeps_order_of_the_rest() {
    let mut v: VecDeque<i32> = VecDeque::from(vec![10, 20, 30, 40, 50, 60]);
    assert_eq!(discard_flagged(&mut v, &vec![true, false, true, true, false, false]), 3);
    assert_eq!(v, VecDeque::from(vec![20, 50, 60]));
    let mut w: VecDeque<i32> = VecDeque::from(vec![1, 2]);
    assert_eq!(discard_flagged(&mut w, &vec![false, false]), 0);
    assert_eq!(w, VecDeque::from(vec![1, 2]));
    assert_eq!(discard_flagged(&mut w, &vec![true, true]), 2);
    assert!(w.is_empty());
}

#[test]
fn bricks_break_only_under_hitbox_of_their_type() {
    let hitboxes = vec![BrickType::Type1, BrickType::Type2];
    let bricks = vec![BrickType::Type1, BrickType::Type2, BrickType::Type3, BrickType::Type1];
    let touching = vec![vec![true, true, true, false], vec![false, true, true, true]];
    assert_eq!(struck_bricks(&hitboxes, &bricks, &touching), vec![true, true, false, false]);
    assert_eq!(struck_bricks(&vec![], &bricks, &vec![]), vec![false, false, false, false]);
}

#[test]
fn field_dimensions_and_inputs() {
    let d = game_dimensions();
    assert_eq!(d.x, 1920);
    assert_eq!(d.y, 1080);
    assert_eq!(num_possible_inputs(), 7);
    assert_eq!(GraphicFlags::HorizontalFlip.bit(), 1);
    assert_eq!(GraphicFlags::VerticalFlip.bit(), 2);
}

#[test]
fn frame_is_background_runner_bricks_overlays() {
    let pg = |g: GraphicGroup, x: i32| PositionedGraphic { g: Graphic { g, frame: 0, flags: 0 }, x, y: 0 };
    let frame = compose_frame(
        vec![pg(GraphicGroup::Walking, 1)],
        vec![pg(GraphicGroup::Brick1, 2), pg(GraphicGroup::Brick2, 3)],
        vec![pg(GraphicGroup::Brick3Segment, 4)],
    );
    assert_eq!(frame.len(), 5);
    assert_eq!(frame[0], pg(GraphicGroup::Background, 0));
    assert_eq!(frame[1].x, 1);
    assert_eq!(frame[2].x, 2);
    assert_eq!(frame[3].x, 3);
    assert_eq!(frame[4].x, 4);
}

#[test]
fn brick_types_have_their_graphics() {
    assert_eq!(brick_graphics(BrickType::Type1), (GraphicGroup::Brick1, GraphicGroup::Brick1Segment));
    assert_eq!(brick_graphics(BrickType::Type2), (GraphicGroup::Brick2, GraphicGroup::Brick2Segment));
    assert_eq!(brick_graphics(BrickType::Type3), (GraphicGroup::Brick3, GraphicGroup::Brick3Segment));
}

#[test]
fn strikes_have_their_graphics() {
    assert_eq!(slash_graphic(BrickType::Type1), GraphicGroup::Slash1);
    assert_eq!(slash_graphic(BrickType::Type2), GraphicGroup::Slash2);
    assert_eq!(slash_graphic(BrickType::Type3), GraphicGroup::Slash3);
    assert_eq!(dash_graphic(None), GraphicGroup::Dash0);
    assert_eq!(dash_graphic(Some(BrickType::Type1)), GraphicGroup::Dash1);
    assert_eq!(dash_graphic(Some(BrickType::Type2)), GraphicGroup::Dash2);
    assert_eq!(dash_graphic(Some(BrickType::Type3)), GraphicGroup::Dash3);
}

#[test]
fn brick_type_indices_round_trip() {
    for bt in [BrickType::Type1, BrickType::Type2, BrickType::Type3] {
        assert_eq!(brick_type_from_index(brick_type_index(bt)), bt);
    }
    assert_eq!(brick_type_index(BrickType::Type3), 2);
}
