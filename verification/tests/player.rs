use music_mercenary::objects::{BrickType, Direction};
use music_mercenary::player::{Dash, Player, PlayerState, Pursuit, Slash, Strike};
use music_mercenary::resources::GraphicGroup;
use music_mercenary::Input;

type Runner = Player<u32, (i32, i32)>;

fn striking_time(p: &Runner) -> Option<u32> {
    p.strike_requested_at()
}

#[test]
fn new_player_walks_facing_right() {
    let p = Runner::new();
    assert!(matches!(p.state(), PlayerState::Walking));
    assert_eq!(p.hit_type(), None);
    assert_eq!(p.face_dir(), Direction::Right);
    assert_eq!(p.hit_dir(), Direction::Right);
    assert!(p.slash_hitbox().is_none());
    assert!(p.dash_hitbox().is_none());
    assert_eq!(p.graphic().g, GraphicGroup::Walking);
    assert_eq!(p.graphic().frame, 0);
    assert_eq!(p.graphic().flags, 0);
}

#[test]
fn slash_then_dash_combines_with_slash_time() {
    let mut p = Runner::new();
    p.input_slash(BrickType::Type2, 10);
    assert!(matches!(p.state(), PlayerState::Slashing(10)));
    p.input_dash(12);
    assert!(matches!(p.state(), PlayerState::SlashDashing(10)));
    assert_eq!(p.hit_type(), Some(BrickType::Type2));
}

#[test]
fn dash_then_slash_combines_with_dash_time() {
    let mut p = Runner::new();
    p.input_dash(12);
    assert!(matches!(p.state(), PlayerState::Dashing(12)));
    assert_eq!(p.hit_type(), None);
    p.input_slash(BrickType::Type2, 10);
    assert!(matches!(p.state(), PlayerState::SlashDashing(12)));
    assert_eq!(p.hit_type(), Some(BrickType::Type2));
}

#[test]
fn repeated_inputs_keep_the_first_request() {
    let mut p = Runner::new();
    p.input_dash(5);
    p.input_dash(9);
    assert!(matches!(p.state(), PlayerState::Dashing(5)));
    let mut q = Runner::new();
    q.input_slash(BrickType::Type1, 5);
    q.input_slash(BrickType::Type3, 9);
    assert!(matches!(q.state(), PlayerState::Slashing(5)));
    assert_eq!(q.hit_type(), Some(BrickType::Type1));
}

#[test]
fn dash_after_combined_strike_restarts_as_dash() {
    let mut p = Runner::new();
    p.input_slash(BrickType::Type1, 3);
    p.input_dash(4);
    p.input_dash(7);
    assert!(matches!(p.state(), PlayerState::Dashing(7)));
    assert_eq!(p.hit_type(), Some(BrickType::Type1));
    assert_eq!(striking_time(&p), Some(7));
}

#[test]
fn slash_after_combined_strike_restarts_as_slash() {
    let mut p = Runner::new();
    p.input_dash(3);
    p.input_slash(BrickType::Type1, 4);
    p.input_slash(BrickType::Type3, 8);
    assert!(matches!(p.state(), PlayerState::Slashing(8)));
    assert_eq!(p.hit_type(), Some(BrickType::Type3));
}

#[test]
fn keys_map_to_requests() {
    let mut p = Runner::new();
    p.input(Input::Left, 1);
    p.input(Input::Right, 1);
    p.input(Input::Ability4, 1);
    assert!(matches!(p.state(), PlayerState::Walking));
    p.input(Input::Ability3, 2);
    assert!(matches!(p.state(), PlayerState::Slashing(2)));
    assert_eq!(p.hit_type(), Some(BrickType::Type3));
    p.input(Input::Dash, 3);
    assert!(matches!(p.state(), PlayerState::SlashDashing(2)));
    let mut q = Runner::new();
    q.input(Input::Ability1, 4);
    assert_eq!(q.hit_type(), Some(BrickType::Type1));
    let mut r = Runner::new();
    r.input(Input::Ability2, 4);
    assert_eq!(r.hit_type(), Some(BrickType::Type2));
}

#[test]
fn pending_strike_waits_for_its_delay() {
    let mut p = Runner::new();
    p.input_slash(BrickType::Type3, 1);
    assert_eq!(p.update_state(Pursuit::Chasing, false), Strike::Nothing);
    assert!(matches!(p.state(), PlayerState::Slashing(1)));
    assert_eq!(p.update_state(Pursuit::Chasing, true), Strike::Slash(BrickType::Type3));
    assert!(matches!(p.state(), PlayerState::Walking));
    assert_eq!(p.hit_type(), None);
}

#[test]
fn combined_strike_lands_both() {
    let mut p = Runner::new();
    p.input_dash(1);
    p.input_slash(BrickType::Type1, 2);
    assert_eq!(p.update_state(Pursuit::AtTarget, true), Strike::SlashDash(BrickType::Type1));
    assert!(matches!(p.state(), PlayerState::Walking));
    assert_eq!(p.hit_type(), None);
}

#[test]
fn dash_lands_alone() {
    let mut p = Runner::new();
    p.input_dash(1);
    assert_eq!(p.update_state(Pursuit::NoTarget, true), Strike::Dash);
    assert!(matches!(p.state(), PlayerState::Walking));
}

#[test]
fn runner_runs_only_while_chasing() {
    let mut p = Runner::new();
    assert_eq!(p.update_state(Pursuit::Chasing, false), Strike::Nothing);
    assert!(matches!(p.state(), PlayerState::Running));
    p.update_graphic(42);
    assert_eq!(p.graphic().g, GraphicGroup::Running);
    assert_eq!(p.graphic().frame, 42);
    assert_eq!(p.update_state(Pursuit::AtTarget, true), Strike::Nothing);
    assert!(matches!(p.state(), PlayerState::Walking));
    p.update_graphic(42);
    assert_eq!(p.graphic().g, GraphicGroup::Walking);
    assert_eq!(p.graphic().frame, 0);
    p.update_state(Pursuit::Chasing, false);
    p.update_state(Pursuit::NoTarget, false);
    assert!(matches!(p.state(), PlayerState::Walking));
}

#[test]
fn facing_left_flips_graphic() {
    let mut p = Runner::new();
    p.face(Direction::Left);
    assert_eq!(p.face_dir(), Direction::Left);
    assert_eq!(p.hit_dir(), Direction::Left);
    p.update_graphic(0);
    assert_eq!(p.graphic().flags, 1);
    p.face(Direction::Right);
    p.update_graphic(0);
    assert_eq!(p.graphic().flags, 0);
}

#[test]
fn one_slash_and_one_dash_per_tick() {
    let mut p = Runner::new();
    assert!(p.slash(Slash { brick_type: BrickType::Type2, bounds: (1, 2) }));
    assert!(!p.slash(Slash { brick_type: BrickType::Type3, bounds: (5, 6) }));
    let h = p.slash_hitbox().unwrap();
    assert_eq!(h.brick_type, BrickType::Type2);
    assert_eq!(h.bounds, (1, 2));
    assert!(p.dash(Dash { brick_type: None, bounds: (3, 4) }));
    assert!(!p.dash(Dash { brick_type: Some(BrickType::Type1), bounds: (7, 8) }));
    assert!(p.dash_hitbox().is_none());
    assert_eq!(p.hitboxes().len(), 1);
    p.clear_strikes();
    assert!(p.slash_hitbox().is_none());
    assert!(p.dash(Dash { brick_type: Some(BrickType::Type1), bounds: (7, 8) }));
    let d = p.dash_hitbox().unwrap();
    assert_eq!(d.brick_type, BrickType::Type1);
    assert_eq!(d.bounds, (7, 8));
    assert!(p.slash(Slash { brick_type: BrickType::Type1, bounds: (9, 9) }));
    let hs = p.hitboxes();
    assert_eq!(hs.len(), 2);
    assert_eq!(hs[0].bounds, (9, 9));
    assert_eq!(hs[1].bounds, (7, 8));
}

#[test]
fn current_strikes_are_readable() {
    let mut p = Runner::new();
    p.assert_well_formed();
    assert!(p.current_slash().is_none());
    assert!(p.current_dash().is_none());
    p.slash(Slash { brick_type: BrickType::Type3, bounds: (4, 5) });
    p.dash(Dash { brick_type: None, bounds: (6, 7) });
    assert_eq!(p.current_slash().unwrap().bounds, (4, 5));
    assert_eq!(p.current_slash().unwrap().brick_type, BrickType::Type3);
    assert_eq!(p.current_dash().unwrap().bounds, (6, 7));
    assert_eq!(p.current_dash().unwrap().brick_type, None);
    p.clear_strikes();
    assert!(p.current_slash().is_none());
    assert!(p.current_dash().is_none());
}
