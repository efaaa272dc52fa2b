use vstd::prelude::*;

use crate::objects::BrickType;

verus! {

/// The sprite sheets a graphic can be drawn from.
#[derive(Clone, Copy, Debug, PartialEq, Eq, Structural)]
pub enum GraphicGroup {
    Background,
    Walking,
    Running,
    Brick1,
    Brick2,
    Brick3,
    Brick1Segment,
    Brick2Segment,
    Brick3Segment,
    Slash1,
    Slash2,
    Slash3,
    Dash0,
    Dash1,
    Dash2,
    Dash3,
}

/// The sprite sheets of a brick of type `bt`: the one of its head and the
/// one of the segments of its held part.
pub open spec fn spec_brick_graphics(bt: BrickType) -> (GraphicGroup, GraphicGroup) {
    match bt {
        BrickType::Type1 => (GraphicGroup::Brick1, GraphicGroup::Brick1Segment),
        BrickType::Type2 => (GraphicGroup::Brick2, GraphicGroup::Brick2Segment),
        BrickType::Type3 => (GraphicGroup::Brick3, GraphicGroup::Brick3Segment),
    }
}

/// The sprite sheets of a brick of type `bt`.
pub fn brick_graphics(bt: BrickType) -> (gs: (GraphicGroup, GraphicGroup))
    ensures
        gs == spec_brick_graphics(bt),
{
    match bt {
        BrickType::Type1 => (GraphicGroup::Brick1, GraphicGroup::Brick1Segment),
        BrickType::Type2 => (GraphicGroup::Brick2, GraphicGroup::Brick2Segment),
        BrickType::Type3 => (GraphicGroup::Brick3, GraphicGroup::Brick3Segment),
    }
}

/// The sprite sheet of a slash that breaks bricks of type `bt`.
pub open spec fn spec_slash_graphic(bt: BrickType) -> GraphicGroup {
    match bt {
        BrickType::Type1 => GraphicGroup::Slash1,
        BrickType::Type2 => GraphicGroup::Slash2,
        BrickType::Type3 => GraphicGroup::Slash3,
    }
}

/// The sprite sheet of a slash that breaks bricks of type `bt`.
pub fn slash_graphic(bt: BrickType) -> (g: GraphicGroup)
    ensures
        g == spec_slash_graphic(bt),
{
    match bt {
        BrickType::Type1 => GraphicGroup::Slash1,
        BrickType::Type2 => GraphicGroup::Slash2,
        BrickType::Type3 => GraphicGroup::Slash3,
    }
}

/// The sprite sheet of a dash: a plain one for a dash that breaks nothing,
/// one per brick type for a dash combined with a slash.
pub open spec fn spec_dash_graphic(bt: Option<BrickType>) -> GraphicGroup {
    match bt {
        None => GraphicGroup::Dash0,
        Some(BrickType::Type1) => GraphicGroup::Dash1,
        Some(BrickType::Type2) => GraphicGroup::Dash2,
        Some(BrickType::Type3) => GraphicGroup::Dash3,
    }
}

/// The sprite sheet of a dash.
pub fn dash_graphic(bt: Option<BrickType>) -> (g: GraphicGroup)
    ensures
        g == spec_dash_graphic(bt),
{
    match bt {
        None => GraphicGroup::Dash0,
        Some(BrickType::Type1) => GraphicGroup::Dash1,
        Some(BrickType::Type2) => GraphicGroup::Dash2,
        Some(BrickType::Type3) => GraphicGroup::Dash3,
    }
}

} // verus!
