//! The runner: what it is doing, which way it faces, and the slash and
//! dash it has struck during the current tick.
//!
//! Times are carried as values of the parameter `T` and areas as values of
//! the parameter `B`; the state machine only stores and hands them back.
use vstd::prelude::*;

use crate::objects::{BrickType, Direction, HitBox};
use crate::resources::GraphicGroup;
use crate::{Graphic, GraphicFlags, Input};

verus! {

/// What the runner is doing. The striking states carry the time at which
/// the strike was asked for; the strike lands a short delay later.
#[derive(Clone, Copy, Debug)]
pub enum PlayerState<T> {
    Running,
    Walking,
    Slashing(T),
    Dashing(T),
    SlashDashing(T),
}

/// A slash of one brick type over an area.
#[derive(Clone, Copy, Debug)]
pub struct Slash<B> {
    pub brick_type: BrickType,
    pub bounds: B,
}

/// A dash over an area; a dash combined with a slash also breaks bricks.
#[derive(Clone, Copy, Debug)]
pub struct Dash<B> {
    pub brick_type: Option<BrickType>,
    pub bounds: B,
}

/// How the runner stands towards the bricks it is heading for.
#[derive(Clone, Copy, Debug, PartialEq, Eq, Structural)]
pub enum Pursuit {
    /// There are no bricks left to head for.
    NoTarget,
    /// The runner stands where it wants to be.
    AtTarget,
    /// The runner has not reached the place it heads for.
    Chasing,
}

/// The strike that lands when a striking state's delay has passed.
#[derive(Clone, Copy, Debug, PartialEq, Eq, Structural)]
pub enum Strike {
    Nothing,
    Slash(BrickType),
    Dash,
    SlashDash(BrickType),
}

/// The part of the runner that its inputs change.
pub struct ActionModel<T> {
    pub state: PlayerState<T>,
    pub hit_type: Option<BrickType>,
}

/// The abstract value of a runner.
pub struct PlayerView<T, B> {
    pub action: ActionModel<T>,
    pub face_dir: Direction,
    pub hit_dir: Direction,
    pub slash: Option<Slash<B>>,
    pub dash: Option<Dash<B>>,
    pub graphic: Graphic,
}

/// A striking state always knows the type of brick it strikes at.
pub open spec fn action_wf<T>(m: ActionModel<T>) -> bool {
    (m.state is Slashing || m.state is SlashDashing) ==> m.hit_type is Some
}

/// The effect of asking for a slash of type `bt` at time `t`.
pub open spec fn after_slash_input<T>(m: ActionModel<T>, bt: BrickType, t: T) -> ActionModel<T> {
    match m.state {
        PlayerState::Slashing(_) => m,
        PlayerState::Dashing(d) => ActionModel { state: PlayerState::SlashDashing(d), hit_type: Some(bt) },
        _ => ActionModel { state: PlayerState::Slashing(t), hit_type: Some(bt) },
    }
}

/// The effect of asking for a dash at time `t`.
pub open spec fn after_dash_input<T>(m: ActionModel<T>, t: T) -> ActionModel<T> {
    match m.state {
        PlayerState::Dashing(_) => m,
        PlayerState::Slashing(s) => ActionModel { state: PlayerState::SlashDashing(s), hit_type: m.hit_type },
        _ => ActionModel { state: PlayerState::Dashing(t), hit_type: m.hit_type },
    }
}

/// The effect of a key press given at time `t`: the dash key asks for a
/// dash, the first three ability keys ask for a slash of the matching brick
/// type, and the other keys change nothing.
pub open spec fn after_input<T>(m: ActionModel<T>, input: Input, t: T) -> ActionModel<T> {
    match input {
        Input::Dash => after_dash_input(m, t),
        Input::Ability1 => after_slash_input(m, BrickType::Type1, t),
        Input::Ability2 => after_slash_input(m, BrickType::Type2, t),
        Input::Ability3 => after_slash_input(m, BrickType::Type3, t),
        _ => m,
    }
}

/// The state after one update, and the strike that lands in it.
///
/// A walking or running runner runs while it chases a target and walks
/// otherwise. A striking runner whose delay has passed lands its strike and
/// walks again; a slash uses up the brick type it was asked with.
pub open spec fn after_update<T>(m: ActionModel<T>, pursuit: Pursuit, delay_passed: bool) -> (ActionModel<T>, Strike) {
    match m.state {
        PlayerState::Running | PlayerState::Walking => (
            ActionModel {
                state: if pursuit == Pursuit::Chasing { PlayerState::Running } else { PlayerState::Walking },
                hit_type: m.hit_type,
            },
            Strike::Nothing,
        ),
        PlayerState::Slashing(_) => if delay_passed {
            (ActionModel { state: PlayerState::Walking, hit_type: None }, Strike::Slash(m.hit_type->0))
        } else {
            (m, Strike::Nothing)
        },
        PlayerState::Dashing(_) => if delay_passed {
            (ActionModel { state: PlayerState::Walking, hit_type: m.hit_type }, Strike::Dash)
        } else {
            (m, Strike::Nothing)
        },
        PlayerState::SlashDashing(_) => if delay_passed {
            (ActionModel { state: PlayerState::Walking, hit_type: None }, Strike::SlashDash(m.hit_type->0))
        } else {
            (m, Strike::Nothing)
        },
    }
}

/// The flags of the runner's graphic when it faces `dir`.
pub open spec fn facing_flags(dir: Direction) -> u8 {
    match dir {
        Direction::Right => 0,
        Direction::Left => GraphicFlags::HorizontalFlip.spec_bit(),
    }
}

/// The runner's graphic: the running animation at `running_frame` while it
/// runs, the first walking frame otherwise, flipped when it faces left.
pub open spec fn runner_graphic<T>(state: PlayerState<T>, face_dir: Direction, running_frame: u8) -> Graphic {
    Graphic {
        g: if state is Running { GraphicGroup::Running } else { GraphicGroup::Walking },
        frame: if state is Running { running_frame } else { 0 },
        flags: facing_flags(face_dir),
    }
}

/// The hitbox of a slash.
pub open spec fn slash_box<B>(s: Option<Slash<B>>) -> Option<HitBox<B>> {
    match s {
        None => None,
        Some(s) => Some(HitBox { brick_type: s.brick_type, bounds: s.bounds }),
    }
}

/// The hitbox of a dash; a dash without a brick type has none.
pub open spec fn dash_box<B>(d: Option<Dash<B>>) -> Option<HitBox<B>> {
    match d {
        None => None,
        Some(d) => match d.brick_type {
            None => None,
            Some(bt) => Some(HitBox { brick_type: bt, bounds: d.bounds }),
        },
    }
}

/// The sequence holding the value of an option, if any.
pub open spec fn seq_of_option<A>(o: Option<A>) -> Seq<A> {
    match o {
        None => Seq::empty(),
        Some(a) => seq![a],
    }
}

/// Every input and every update keeps a runner well formed: a striking
/// runner always knows the brick type it strikes at.
pub proof fn lemma_actions_keep_well_formed<T>(m: ActionModel<T>, input: Input, t: T, pursuit: Pursuit, delay_passed: bool)
    requires
        action_wf(m),
    ensures
        action_wf(after_input(m, input, t)),
        action_wf(after_update(m, pursuit, delay_passed).0),
{
}

/// A slash key and the dash key pressed one after the other by a runner
/// that is not striking give a combined slash and dash of the slash's brick
/// type, in either order; it keeps the time of the first press.
pub proof fn lemma_slash_and_dash_combine<T>(m: ActionModel<T>, bt: BrickType, t_slash: T, t_dash: T)
    requires
        m.state is Walking || m.state is Running,
    ensures
        after_dash_input(after_slash_input(m, bt, t_slash), t_dash)
            == (ActionModel { state: PlayerState::SlashDashing(t_slash), hit_type: Some(bt) }),
        after_slash_input(after_dash_input(m, t_dash), bt, t_slash)
            == (ActionModel { state: PlayerState::SlashDashing(t_dash), hit_type: Some(bt) }),
{
}

/// Asking for a dash a second time changes nothing, unless the runner was
/// slashing before the first request.
pub proof fn lemma_dash_input_repeats<T>(m: ActionModel<T>, t1: T, t2: T)
    requires
        !(m.state is Slashing),
    ensures
        after_dash_input(after_dash_input(m, t1), t2) == after_dash_input(m, t1),
{
}

/// Asking for a slash a second time changes nothing, whatever its brick
/// type, unless the runner was dashing before the first request.
pub proof fn lemma_slash_input_repeats<T>(m: ActionModel<T>, bt1: BrickType, bt2: BrickType, t1: T, t2: T)
    requires
        !(m.state is Dashing),
    ensures
        after_slash_input(after_slash_input(m, bt1, t1), bt2, t2) == after_slash_input(m, bt1, t1),
{
}

/// A strike asked for by a runner that is not striking stays pending while
/// its delay has not passed, and lands at the first update after it has:
/// a slash of the asked type, a dash, or both for a slash and a dash; the
/// runner then walks and no brick type is left pending.
pub proof fn lemma_requested_strike_lands<T>(m: ActionModel<T>, bt: BrickType, t_slash: T, t_dash: T, pursuit: Pursuit)
    requires
        m.state is Walking || m.state is Running,
        m.hit_type is None,
    ensures
        ({
            let s = after_slash_input(m, bt, t_slash);
            &&& after_update(s, pursuit, false) == (s, Strike::Nothing)
            &&& after_update(s, pursuit, true)
                == (ActionModel { state: PlayerState::<T>::Walking, hit_type: None }, Strike::Slash(bt))
        }),
        ({
            let d = after_dash_input(m, t_dash);
            &&& after_update(d, pursuit, false) == (d, Strike::Nothing)
            &&& after_update(d, pursuit, true)
                == (ActionModel { state: PlayerState::<T>::Walking, hit_type: None }, Strike::Dash)
        }),
        ({
            let sd = after_dash_input(after_slash_input(m, bt, t_slash), t_dash);
            &&& after_update(sd, pursuit, false) == (sd, Strike::Nothing)
            &&& after_update(sd, pursuit, true)
                == (ActionModel { state: PlayerState::<T>::Walking, hit_type: None }, Strike::SlashDash(bt))
        }),
{
}

/// A runner that is walking or running runs after an update exactly when it
/// chases its target, whichever of the two it was doing, whether or not a
/// delay has passed; nothing lands and the pending brick type is kept.
pub proof fn lemma_update_runs_while_chasing<T>(m: ActionModel<T>, pursuit: Pursuit, delay_passed: bool)
    requires
        m.state is Walking || m.state is Running,
    ensures
        after_update(m, pursuit, delay_passed).0.state is Running <==> pursuit == Pursuit::Chasing,
        after_update(m, pursuit, delay_passed).0.state is Walking <==> pursuit != Pursuit::Chasing,
        after_update(m, pursuit, delay_passed).0.hit_type == m.hit_type,
        after_update(m, pursuit, delay_passed).1 == Strike::Nothing,
{
}

/// The dash key asks for a dash in every state: a runner that is neither
/// slashing nor dashing (running and walking included) starts dashing at
/// the key's time, a slashing runner turns to a combined slash and dash
/// that keeps its time, and a dashing runner keeps its dash. The pending
/// brick type never changes.
pub proof fn lemma_dash_key_asks_for_dash<T>(m: ActionModel<T>, t: T)
    ensures
        after_input(m, Input::Dash, t).hit_type == m.hit_type,
        !(m.state is Slashing) && !(m.state is Dashing)
            ==> after_input(m, Input::Dash, t).state == PlayerState::Dashing(t),
        m.state is Dashing ==> after_input(m, Input::Dash, t) == m,
        forall|s: T| m.state == PlayerState::Slashing(s)
            ==> after_input(m, Input::Dash, t).state == PlayerState::SlashDashing(s),
{
}

/// The brick type of the slash that the key `input` asks for: ability keys
/// one to three ask for brick types one to three, the other keys for none.
pub open spec fn slash_key_type(input: Input) -> Option<BrickType> {
    match input {
        Input::Ability1 => Some(BrickType::Type1),
        Input::Ability2 => Some(BrickType::Type2),
        Input::Ability3 => Some(BrickType::Type3),
        _ => None,
    }
}

/// Ability keys one to three ask for a slash of brick types one to three in
/// every state: a runner that is neither slashing nor dashing (running and
/// walking included) starts slashing at the key's time with that brick
/// type pending, a dashing runner turns to a combined slash and dash that
/// keeps its time with that brick type pending, and a slashing runner keeps
/// its slash.
pub proof fn lemma_ability_keys_ask_for_slash<T>(m: ActionModel<T>, input: Input, t: T)
    requires
        slash_key_type(input) is Some,
    ensures
        ({
            let bt = slash_key_type(input)->0;
            let r = after_input(m, input, t);
            &&& !(m.state is Slashing) && !(m.state is Dashing)
                ==> r == (ActionModel { state: PlayerState::Slashing(t), hit_type: Some(bt) })
            &&& forall|d: T| m.state == PlayerState::Dashing(d)
                ==> r == (ActionModel { state: PlayerState::SlashDashing(d), hit_type: Some(bt) })
            &&& m.state is Slashing ==> r == m
        }),
{
}

/// The left, right and fourth ability keys change nothing.
pub proof fn lemma_other_keys_change_nothing<T>(m: ActionModel<T>, input: Input, t: T)
    requires
        input == Input::Left || input == Input::Right || input == Input::Ability4,
    ensures
        after_input(m, input, t) == m,
{
}

/// The runner's graphic: its flags tell only which way it faces, in every
/// state (the horizontal flip, 1, when facing left, 0 when facing right);
/// a running runner shows the running animation at the given frame, any
/// other runner the first walking frame.
pub proof fn lemma_runner_graphic<T>(state: PlayerState<T>, face_dir: Direction, running_frame: u8)
    ensures
        runner_graphic(state, face_dir, running_frame).flags == (if face_dir == Direction::Left { 1u8 } else { 0u8 }),
        state is Running ==> runner_graphic(state, face_dir, running_frame).g == GraphicGroup::Running
            && runner_graphic(state, face_dir, running_frame).frame == running_frame,
        !(state is Running) ==> runner_graphic(state, face_dir, running_frame).g == GraphicGroup::Walking
            && runner_graphic(state, face_dir, running_frame).frame == 0,
{
}

/// A striking runner keeps its state while its delay has not passed, and
/// nothing lands. Once the delay has passed it walks again and its strike
/// lands: a slashing runner slashes with its pending brick type and has
/// none pending after, a dashing runner dashes and keeps its pending type,
/// and a runner doing both lands both with its pending type and has none
/// pending after.
pub proof fn lemma_strike_lands_after_delay<T>(m: ActionModel<T>, pursuit: Pursuit)
    requires
        action_wf(m),
        m.state is Slashing || m.state is Dashing || m.state is SlashDashing,
    ensures
        after_update(m, pursuit, false) == (m, Strike::Nothing),
        after_update(m, pursuit, true).0.state is Walking,
        m.state is Slashing ==> after_update(m, pursuit, true).1 == Strike::Slash(m.hit_type->0)
            && after_update(m, pursuit, true).0.hit_type is None,
        m.state is Dashing ==> after_update(m, pursuit, true).1 == Strike::Dash
            && after_update(m, pursuit, true).0.hit_type == m.hit_type,
        m.state is SlashDashing ==> after_update(m, pursuit, true).1 == Strike::SlashDash(m.hit_type->0)
            && after_update(m, pursuit, true).0.hit_type is None,
{
}

/// The runner.
pub struct Player<T, B> {
    state: PlayerState<T>,
    hit_type: Option<BrickType>,
    face_dir: Direction,
    hit_dir: Direction,
    slash: Option<Slash<B>>,
    dash: Option<Dash<B>>,
    graphic: Graphic,
}

impl<T, B> View for Player<T, B> {
    type V = PlayerView<T, B>;

    closed spec fn view(&self) -> PlayerView<T, B> {
        PlayerView {
            action: ActionModel { state: self.state, hit_type: self.hit_type },
            face_dir: self.face_dir,
            hit_dir: self.hit_dir,
            slash: self.slash,
            dash: self.dash,
            graphic: self.graphic,
        }
    }
}

impl<T, B> Player<T, B> {
    #[verifier::type_invariant]
    spec fn well_formed(self) -> bool {
        action_wf(ActionModel { state: self.state, hit_type: self.hit_type })
    }
}

impl<T: Copy, B: Copy> Player<T, B> {

    /// A runner that walks, faces right, has nothing struck and has no
    /// brick type pending.
    pub fn new() -> (p: Self)
        ensures
            p@.action.state is Walking,
            p@.action.hit_type is None,
            p@.face_dir == Direction::Right,
            p@.hit_dir == Direction::Right,
            p@.slash is None,
            p@.dash is None,
            p@.graphic == (Graphic { g: GraphicGroup::Walking, frame: 0, flags: 0 }),
    {
        Player {
            state: PlayerState::Walking,
            hit_type: None,
            face_dir: Direction::Right,
            hit_dir: Direction::Right,
            slash: None,
            dash: None,
            graphic: Graphic { g: GraphicGroup::Walking, frame: 0, flags: 0 },
        }
    }

    /// Tells verified callers that this runner is well formed, so that the
    /// laws of this module apply to it; does nothing when run.
    pub fn assert_well_formed(&self)
        ensures
            action_wf(self@.action),
    {
        proof {
            use_type_invariant(self);
        }
    }

    /// This tick's slash, if one was struck.
    pub fn current_slash(&self) -> (s: Option<Slash<B>>)
        ensures
            s == self@.slash,
    {
        self.slash
    }

    /// This tick's dash, if one was struck.
    pub fn current_dash(&self) -> (d: Option<Dash<B>>)
        ensures
            d == self@.dash,
    {
        self.dash
    }

    /// What the runner is doing.
    pub fn state(&self) -> (s: PlayerState<T>)
        ensures
            s == self@.action.state,
    {
        self.state
    }

    /// The brick type of the slash that is pending, if any.
    pub fn hit_type(&self) -> (h: Option<BrickType>)
        ensures
            h == self@.action.hit_type,
    {
        self.hit_type
    }

    /// The direction the runner faces.
    pub fn face_dir(&self) -> (d: Direction)
        ensures
            d == self@.face_dir,
    {
        self.face_dir
    }

    /// The direction the runner strikes in.
    pub fn hit_dir(&self) -> (d: Direction)
        ensures
            d == self@.hit_dir,
    {
        self.hit_dir
    }

    /// The runner's current graphic.
    pub fn graphic(&self) -> (g: Graphic)
        ensures
            g == self@.graphic,
    {
        self.graphic
    }

    /// The time at which the pending strike was asked for, if one is pending.
    pub fn strike_requested_at(&self) -> (t: Option<T>)
        ensures
            t == match self@.action.state {
                PlayerState::Slashing(t) | PlayerState::Dashing(t) | PlayerState::SlashDashing(t) => Some(t),
                _ => None,
            },
    {
        match self.state {
            PlayerState::Slashing(t) => Some(t),
            PlayerState::Dashing(t) => Some(t),
            PlayerState::SlashDashing(t) => Some(t),
            _ => None,
        }
    }

    /// Asks for a slash of type `brick_type` at time `time_running`.
    ///
    /// A slash already asked for is kept as it is. A dash asked for turns
    /// into a combined slash and dash that keeps the dash's time. Otherwise
    /// the runner starts slashing at the given time.
    pub fn input_slash(&mut self, brick_type: BrickType, time_running: T)
        ensures
            final(self)@.action == after_slash_input(old(self)@.action, brick_type, time_running),
            final(self)@.face_dir == old(self)@.face_dir,
            final(self)@.hit_dir == old(self)@.hit_dir,
            final(self)@.slash == old(self)@.slash,
            final(self)@.dash == old(self)@.dash,
            final(self)@.graphic == old(self)@.graphic,
    {
        match self.state {
            PlayerState::Slashing(_) => {},
            PlayerState::Dashing(t) => {
                self.hit_type = Some(brick_type);
                self.state = PlayerState::SlashDashing(t);
            },
            _ => {
                self.hit_type = Some(brick_type);
                self.state = PlayerState::Slashing(time_running);
            },
        }
    }

    /// Asks for a dash at time `time_running`.
    ///
    /// A dash already asked for is kept as it is. A slash asked for turns
    /// into a combined slash and dash that keeps the slash's time. Otherwise
    /// the runner starts dashing at the given time.
    pub fn input_dash(&mut self, time_running: T)
        ensures
            final(self)@.action == after_dash_input(old(self)@.action, time_running),
            final(self)@.face_dir == old(self)@.face_dir,
            final(self)@.hit_dir == old(self)@.hit_dir,
            final(self)@.slash == old(self)@.slash,
            final(self)@.dash == old(self)@.dash,
            final(self)@.graphic == old(self)@.graphic,
    {
        proof {
            use_type_invariant(&*self);
        }
        match self.state {
            PlayerState::Dashing(_) => {},
            PlayerState::Slashing(t) => {
                self.state = PlayerState::SlashDashing(t);
            },
            _ => {
                self.state = PlayerState::Dashing(time_running);
            },
        }
    }
    /// Applies a key press given at time `time_running`: the dash key asks
    /// for a dash, the first three ability keys ask for a slash of brick type
    /// one, two or three, and the other keys change nothing.
    pub fn input(&mut self, input: Input, time_running: T)
        ensures
            final(self)@.action == after_input(old(self)@.action, input, time_running),
            final(self)@.face_dir == old(self)@.face_dir,
            final(self)@.hit_dir == old(self)@.hit_dir,
            final(self)@.slash == old(self)@.slash,
            final(self)@.dash == old(self)@.dash,
            final(self)@.graphic == old(self)@.graphic,
    {
        match input {
            Input::Dash => self.input_dash(time_running),
            Input::Ability1 => self.input_slash(BrickType::Type1, time_running),
            Input::Ability2 => self.input_slash(BrickType::Type2, time_running),
            Input::Ability3 => self.input_slash(BrickType::Type3, time_running),
            _ => {},
        }
    }

    /// Forgets the slash and the dash struck during the previous tick; each
    /// tick starts with it.
    pub fn clear_strikes(&mut self)
        ensures
            final(self)@.slash is None,
            final(self)@.dash is None,
            final(self)@.action == old(self)@.action,
            final(self)@.face_dir == old(self)@.face_dir,
            final(self)@.hit_dir == old(self)@.hit_dir,
            final(self)@.graphic == old(self)@.graphic,
    {
        proof {
            use_type_invariant(&*self);
        }
        self.slash = None;
        self.dash = None;
    }

    /// Turns the runner towards `dir`; it strikes the way it faces.
    pub fn face(&mut self, dir: Direction)
        ensures
            final(self)@.face_dir == dir,
            final(self)@.hit_dir == dir,
            final(self)@.action == old(self)@.action,
            final(self)@.slash == old(self)@.slash,
            final(self)@.dash == old(self)@.dash,
            final(self)@.graphic == old(self)@.graphic,
    {
        proof {
            use_type_invariant(&*self);
        }
        self.face_dir = dir;
        self.hit_dir = dir;
    }

    /// Moves the state machine on by one tick and returns the strike that
    /// lands, as `after_update` describes. `pursuit` tells how the runner
    /// stands towards its target after this tick's move, and
    /// `delay_passed` whether the short delay since the pending strike was
    /// asked for has passed.
    pub fn update_state(&mut self, pursuit: Pursuit, delay_passed: bool) -> (strike: Strike)
        ensures
            (final(self)@.action, strike) == after_update(old(self)@.action, pursuit, delay_passed),
            final(self)@.face_dir == old(self)@.face_dir,
            final(self)@.hit_dir == old(self)@.hit_dir,
            final(self)@.slash == old(self)@.slash,
            final(self)@.dash == old(self)@.dash,
            final(self)@.graphic == old(self)@.graphic,
    {
        proof {
            use_type_invariant(&*self);
        }
        match self.state {
            PlayerState::Running | PlayerState::Walking => {
                if pursuit == Pursuit::Chasing {
                    self.state = PlayerState::Running;
                } else {
                    self.state = PlayerState::Walking;
                }
                Strike::Nothing
            },
            PlayerState::Slashing(_) => {
                if delay_passed {
                    let brick_type = match self.hit_type {
                        Some(bt) => bt,
                        None => BrickType::Type1,
                    };
                    self.state = PlayerState::Walking;
                    self.hit_type = None;
                    Strike::Slash(brick_type)
                } else {
                    Strike::Nothing
                }
            },
            PlayerState::Dashing(_) => {
                if delay_passed {
                    self.state = PlayerState::Walking;
                    Strike::Dash
                } else {
                    Strike::Nothing
                }
            },
            PlayerState::SlashDashing(_) => {
                if delay_passed {
                    let brick_type = match self.hit_type {
                        Some(bt) => bt,
                        None => BrickType::Type1,
                    };
                    self.state = PlayerState::Walking;
                    self.hit_type = None;
                    Strike::SlashDash(brick_type)
                } else {
                    Strike::Nothing
                }
            },
        }
    }

    /// Keeps `slash` as this tick's slash unless one was struck already;
    /// returns whether it was kept.
    pub fn slash(&mut self, slash: Slash<B>) -> (kept: bool)
        ensures
            kept == old(self)@.slash is None,
            final(self)@.slash == if kept { Some(slash) } else { old(self)@.slash },
            final(self)@.action == old(self)@.action,
            final(self)@.face_dir == old(self)@.face_dir,
            final(self)@.hit_dir == old(self)@.hit_dir,
            final(self)@.dash == old(self)@.dash,
            final(self)@.graphic == old(self)@.graphic,
    {
        proof {
            use_type_invariant(&*self);
        }
        if self.slash.is_none() {
            self.slash = Some(slash);
            true
        } else {
            false
        }
    }

    /// Keeps `dash` as this tick's dash unless one was struck already;
    /// returns whether it was kept.
    pub fn dash(&mut self, dash: Dash<B>) -> (kept: bool)
        ensures
            kept == old(self)@.dash is None,
            final(self)@.dash == if kept { Some(dash) } else { old(self)@.dash },
            final(self)@.action == old(self)@.action,
            final(self)@.face_dir == old(self)@.face_dir,
            final(self)@.hit_dir == old(self)@.hit_dir,
            final(self)@.slash == old(self)@.slash,
            final(self)@.graphic == old(self)@.graphic,
    {
        proof {
            use_type_invariant(&*self);
        }
        if self.dash.is_none() {
            self.dash = Some(dash);
            true
        } else {
            false
        }
    }

    /// The area of this tick's slash and the brick type it breaks.
    pub fn slash_hitbox(&self) -> (h: Option<HitBox<B>>)
        ensures
            h == match self@.slash {
                None => None,
                Some(s) => Some(HitBox { brick_type: s.brick_type, bounds: s.bounds }),
            },
    {
        match &self.slash {
            None => None,
            Some(slash) => Some(HitBox { brick_type: slash.brick_type, bounds: slash.bounds }),
        }
    }

    /// The area of this tick's dash and the brick type it breaks; a dash
    /// struck without a slash breaks nothing.
    pub fn dash_hitbox(&self) -> (h: Option<HitBox<B>>)
        ensures
            h == match self@.dash {
                None => None,
                Some(d) => match d.brick_type {
                    None => None,
                    Some(bt) => Some(HitBox { brick_type: bt, bounds: d.bounds }),
                },
            },
    {
        match &self.dash {
            None => None,
            Some(dash) => match dash.brick_type {
                None => None,
                Some(bt) => Some(HitBox { brick_type: bt, bounds: dash.bounds }),
            },
        }
    }

    /// The hitboxes that can break bricks this tick: the slash's first,
    /// then the dash's.
    pub fn hitboxes(&self) -> (v: Vec<HitBox<B>>)
        ensures
            v@ == seq_of_option(slash_box(self@.slash)) + seq_of_option(dash_box(self@.dash)),
    {
        let mut v: Vec<HitBox<B>> = Vec::new();
        match self.slash_hitbox() {
            Some(h) => v.push(h),
            None => {},
        }
        match self.dash_hitbox() {
            Some(h) => v.push(h),
            None => {},
        }
        proof {
            assert(v@ =~= seq_of_option(slash_box(self@.slash)) + seq_of_option(dash_box(self@.dash)));
        }
        v
    }

    /// Sets the runner's graphic for the current state and facing, with
    /// `running_frame` as the frame of the running animation.
    pub fn update_graphic(&mut self, running_frame: u8)
        ensures
            final(self)@.graphic == runner_graphic(old(self)@.action.state, old(self)@.face_dir, running_frame),
            final(self)@.action == old(self)@.action,
            final(self)@.face_dir == old(self)@.face_dir,
            final(self)@.hit_dir == old(self)@.hit_dir,
            final(self)@.slash == old(self)@.slash,
            final(self)@.dash == old(self)@.dash,
    {
        proof {
            use_type_invariant(&*self);
        }
        let running = match self.state {
            PlayerState::Running => true,
            _ => false,
        };
        let flags = match self.face_dir {
            Direction::Right => 0u8,
            Direction::Left => GraphicFlags::HorizontalFlip.bit(),
        };
        self.graphic = if running {
            Graphic { g: GraphicGroup::Running, frame: running_frame, flags }
        } else {
            Graphic { g: GraphicGroup::Walking, frame: 0, flags }
        };
    }
}

} // verus!
