use vstd::prelude::*;

verus! {

/// Width of a brick, in pixels; notes are placed in columns this wide.
pub const BRICK_WIDTH: u32 = 120;

/// Number of columns across the field.
pub const MAX_NOTES_PER_SCREEN_WIDTH: u8 = 16;

/// The kind of a brick; each kind is broken by its own ability.
#[derive(Clone, Copy, Debug, PartialEq, Eq, Structural)]
pub enum BrickType {
    Type1,
    Type2,
    Type3,
}

/// The position of a brick type among the three: 0, 1 or 2.
pub open spec fn spec_brick_type_index(bt: BrickType) -> u8 {
    match bt {
        BrickType::Type1 => 0,
        BrickType::Type2 => 1,
        BrickType::Type3 => 2,
    }
}

/// The brick type at position `i` among the three.
pub open spec fn spec_brick_type_from_index(i: u8) -> BrickType
    recommends
        i < 3,
{
    if i == 0 {
        BrickType::Type1
    } else if i == 1 {
        BrickType::Type2
    } else {
        BrickType::Type3
    }
}

/// The position of a brick type among the three.
pub fn brick_type_index(bt: BrickType) -> (i: u8)
    ensures
        i == spec_brick_type_index(bt),
        i < 3,
        spec_brick_type_from_index(i) == bt,
{
    match bt {
        BrickType::Type1 => 0,
        BrickType::Type2 => 1,
        BrickType::Type3 => 2,
    }
}

/// The brick type at position `i` among the three.
pub fn brick_type_from_index(i: u8) -> (bt: BrickType)
    requires
        i < 3,
    ensures
        bt == spec_brick_type_from_index(i),
        spec_brick_type_index(bt) == i,
{
    if i == 0 {
        BrickType::Type1
    } else if i == 1 {
        BrickType::Type2
    } else {
        BrickType::Type3
    }
}

/// A horizontal direction.
#[derive(Clone, Copy, Debug, PartialEq, Eq, Structural)]
pub enum Direction {
    Left,
    Right,
}

/// An area that breaks the bricks of one type that it touches.
#[derive(Clone, Copy, Debug)]
pub struct HitBox<B> {
    pub brick_type: BrickType,
    pub bounds: B,
}

} // verus!
