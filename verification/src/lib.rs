//! Game logic of a rhythm game in which a runner breaks falling bricks
//! with slashes and dashes timed to the music.
//!
//! The verified part of the game lives here: the runner's action state
//! machine, the chart of notes that a song is made of, the bookkeeping of
//! the bricks on screen and the score. Positions and times are real-valued
//! in the game; every piece of logic here is written either over integers
//! or generically over the values that carry those positions and times.

pub mod field;
pub mod game;
pub mod objects;
pub mod player;
pub mod resources;
pub mod song;

use vstd::prelude::*;

use crate::resources::GraphicGroup;

verus! {

/// Width of the playing field, in pixels.
pub const GAME_WIDTH: u32 = 1920;

/// Height of the playing field, in pixels.
pub const GAME_HEIGHT: u32 = 1080;

/// Distance from the top of the field to the ground, in pixels.
pub const GROUND_POS: u32 = 240;

/// A pair of integer coordinates.
#[derive(Clone, Copy, Debug, PartialEq, Eq, Structural)]
pub struct Position {
    pub x: i32,
    pub y: i32,
}

/// The size of the playing field.
pub fn game_dimensions() -> (p: Position)
    ensures
        p.x == GAME_WIDTH,
        p.y == GAME_HEIGHT,
{
    Position { x: GAME_WIDTH as i32, y: GAME_HEIGHT as i32 }
}

/// A key command given by the player.
#[derive(Clone, Copy, Debug, PartialEq, Eq, Structural)]
pub enum Input {
    Dash,
    Left,
    Right,
    Ability1,
    Ability2,
    Ability3,
    Ability4,
}

/// The number of distinct inputs.
pub open spec fn spec_input_count() -> usize {
    7
}

/// The index of an input among all inputs, in declaration order.
pub open spec fn input_index(input: Input) -> int {
    match input {
        Input::Dash => 0,
        Input::Left => 1,
        Input::Right => 2,
        Input::Ability1 => 3,
        Input::Ability2 => 4,
        Input::Ability3 => 5,
        Input::Ability4 => 6,
    }
}

/// The number of distinct inputs a player can give.
pub fn num_possible_inputs() -> (n: usize)
    ensures
        n == spec_input_count(),
        forall|i: Input| 0 <= #[trigger] input_index(i) < n,
{
    7
}

/// A graphic to draw: a sprite sheet, the frame within it and drawing flags.
#[derive(Clone, Copy, Debug, PartialEq, Eq, Structural)]
pub struct Graphic {
    pub g: GraphicGroup,
    pub frame: u8,
    pub flags: u8,
}

/// Flags that change how a graphic is drawn.
#[derive(Clone, Copy, Debug, PartialEq, Eq, Structural)]
pub enum GraphicFlags {
    HorizontalFlip,
    VerticalFlip,
}

impl GraphicFlags {
    /// The bit of a graphic's `flags` that stands for this flag.
    pub open spec fn spec_bit(self) -> u8 {
        match self {
            GraphicFlags::HorizontalFlip => 1,
            GraphicFlags::VerticalFlip => 2,
        }
    }

    /// The bit of a graphic's `flags` that stands for this flag.
    pub fn bit(self) -> (b: u8)
        ensures
            b == self.spec_bit(),
    {
        match self {
            GraphicFlags::HorizontalFlip => 1,
            GraphicFlags::VerticalFlip => 2,
        }
    }
}

/// A graphic placed at integer coordinates on the field.
#[derive(Clone, Copy, Debug, PartialEq, Eq, Structural)]
pub struct PositionedGraphic {
    pub g: Graphic,
    pub x: i32,
    pub y: i32,
}

/// The graphic drawn behind everything else.
pub open spec fn spec_background() -> PositionedGraphic {
    PositionedGraphic { g: Graphic { g: GraphicGroup::Background, frame: 0, flags: 0 }, x: 0, y: 0 }
}

/// The graphics of one frame, back to front: the background, then the
/// runner's graphics, then the bricks', then those drawn over them.
pub fn compose_frame(
    player: Vec<PositionedGraphic>,
    bricks: Vec<PositionedGraphic>,
    overlays: Vec<PositionedGraphic>,
) -> (frame: Vec<PositionedGraphic>)
    ensures
        frame@ == seq![spec_background()] + player@ + bricks@ + overlays@,
{
    let mut player = player;
    let mut bricks = bricks;
    let mut overlays = overlays;
    let mut frame: Vec<PositionedGraphic> = Vec::new();
    frame.push(PositionedGraphic { g: Graphic { g: GraphicGroup::Background, frame: 0, flags: 0 }, x: 0, y: 0 });
    frame.append(&mut player);
    frame.append(&mut bricks);
    frame.append(&mut overlays);
    frame
}

/// A frame holds one graphic for the background, first, and one for each
/// graphic handed in; the background is the first frame of its sheet, not
/// flipped, at the origin.
pub proof fn lemma_frame_len(player: Seq<PositionedGraphic>, bricks: Seq<PositionedGraphic>, overlays: Seq<PositionedGraphic>)
    ensures
        (seq![spec_background()] + player + bricks + overlays).len()
            == 1 + player.len() + bricks.len() + overlays.len(),
        (seq![spec_background()] + player + bricks + overlays)[0] == spec_background(),
        spec_background() == (PositionedGraphic {
            g: Graphic { g: GraphicGroup::Background, frame: 0, flags: 0 },
            x: 0,
            y: 0,
        }),
{
}

} // verus!
