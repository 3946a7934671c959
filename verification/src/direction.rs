//! The sixteen compass directions and the sector of the circle each one names.
//!
//! Sector `k` is centered on `k * 22.5` degrees and reaches 11.25 degrees to
//! either side, its lower edge included and its upper edge not. To keep to
//! whole numbers the sectors are stated in quarter degrees: sector `k` holds
//! the angles from `90 * k - 45` up to, but not including, `90 * k + 45`,
//! around a circle of 1440.

use vstd::prelude::*;
use crate::angle::{lemma_normalize_periodic, normalize_deg, normalize_spec};

verus! {

/// How many directions there are.
pub const DIRECTIONS: u8 = 16;

/// A compass direction, clockwise from north.
#[derive(Clone, Copy, Debug, PartialEq, Eq, Hash, Structural)]
pub enum Direction {
    North,
    NNE,
    NE,
    ENE,
    East,
    ESE,
    SE,
    SSE,
    South,
    SSW,
    SW,
    WSW,
    West,
    WNW,
    NW,
    NNW,
}

/// The number of the sector that holds `angle`: the whole part of
/// `(angle + 11.25) / 22.5`, taken around the circle.
pub open spec fn sector_of(angle: int) -> int {
    ((4 * normalize_spec(angle) + 45) / 90) % 16
}

/// The direction whose sector holds `angle`.
pub open spec fn classify_spec(angle: int) -> Direction {
    Direction::from_index_spec(sector_of(angle))
}

impl Direction {
    /// The place of this direction in the clockwise order, north being 0.
    pub open spec fn index_spec(self) -> int {
        match self {
            Direction::North => 0,
            Direction::NNE => 1,
            Direction::NE => 2,
            Direction::ENE => 3,
            Direction::East => 4,
            Direction::ESE => 5,
            Direction::SE => 6,
            Direction::SSE => 7,
            Direction::South => 8,
            Direction::SSW => 9,
            Direction::SW => 10,
            Direction::WSW => 11,
            Direction::West => 12,
            Direction::WNW => 13,
            Direction::NW => 14,
            Direction::NNW => 15,
        }
    }

    /// The direction at place `index` of the clockwise order.
    pub open spec fn from_index_spec(index: int) -> Direction
        recommends
            0 <= index < 16,
    {
        if index == 0 {
            Direction::North
        } else if index == 1 {
            Direction::NNE
        } else if index == 2 {
            Direction::NE
        } else if index == 3 {
            Direction::ENE
        } else if index == 4 {
            Direction::East
        } else if index == 5 {
            Direction::ESE
        } else if index == 6 {
            Direction::SE
        } else if index == 7 {
            Direction::SSE
        } else if index == 8 {
            Direction::South
        } else if index == 9 {
            Direction::SSW
        } else if index == 10 {
            Direction::SW
        } else if index == 11 {
            Direction::WSW
        } else if index == 12 {
            Direction::West
        } else if index == 13 {
            Direction::WNW
        } else if index == 14 {
            Direction::NW
        } else {
            Direction::NNW
        }
    }

    /// Whether `angle` lies in this direction's sector: at most 11.25 degrees
    /// before its center, and less than 11.25 degrees after.
    pub open spec fn contains(self, angle: int) -> bool {
        (4 * normalize_spec(angle) - (90 * self.index_spec() - 45)) % 1440 < 90
    }

    /// The first whole degree of this direction's sector.
    pub open spec fn sector_start_spec(self) -> int {
        ((90 * self.index_spec() - 45 + 3) / 4) % 360
    }

    /// The next direction clockwise; after north-northwest comes north.
    pub open spec fn clockwise_spec(self) -> Direction {
        Direction::from_index_spec((self.index_spec() + 1) % 16)
    }

    /// Whether the whole degree `degrees` of one turn lies from the start of
    /// this direction's sector up to, but not including, the start of the
    /// next direction clockwise, going through 0 where the sector does.
    pub open spec fn spans(self, degrees: int) -> bool {
        let start = self.sector_start_spec();
        let end = self.clockwise_spec().sector_start_spec();
        if start < end {
            start <= degrees < end
        } else {
            start <= degrees || degrees < end
        }
    }

    /// The next direction counterclockwise; before north comes
    /// north-northwest.
    pub open spec fn counterclockwise_spec(self) -> Direction {
        Direction::from_index_spec((self.index_spec() + 15) % 16)
    }

    /// The place of this direction in the clockwise order, north being 0.
    pub fn index(self) -> (index: u8)
        ensures
            index == self.index_spec(),
            index < DIRECTIONS,
    {
        match self {
            Direction::North => 0,
            Direction::NNE => 1,
            Direction::NE => 2,
            Direction::ENE => 3,
            Direction::East => 4,
            Direction::ESE => 5,
            Direction::SE => 6,
            Direction::SSE => 7,
            Direction::South => 8,
            Direction::SSW => 9,
            Direction::SW => 10,
            Direction::WSW => 11,
            Direction::West => 12,
            Direction::WNW => 13,
            Direction::NW => 14,
            Direction::NNW => 15,
        }
    }

    /// The direction at place `index` of the clockwise order, or `None` where
    /// `index` is not below 16.
    pub fn from_index(index: u8) -> (found: Option<Direction>)
        ensures
            index < DIRECTIONS ==> found == Some(Direction::from_index_spec(index as int)),
            index >= DIRECTIONS ==> found is None,
    {
        match index {
            0 => Some(Direction::North),
            1 => Some(Direction::NNE),
            2 => Some(Direction::NE),
            3 => Some(Direction::ENE),
            4 => Some(Direction::East),
            5 => Some(Direction::ESE),
            6 => Some(Direction::SE),
            7 => Some(Direction::SSE),
            8 => Some(Direction::South),
            9 => Some(Direction::SSW),
            10 => Some(Direction::SW),
            11 => Some(Direction::WSW),
            12 => Some(Direction::West),
            13 => Some(Direction::WNW),
            14 => Some(Direction::NW),
            15 => Some(Direction::NNW),
            _ => None,
        }
    }

    /// The first whole degree of this direction's sector. The sector runs from
    /// there up to the first degree of the next direction clockwise.
    pub fn sector_start(self) -> (degrees: i32)
        ensures
            degrees == self.sector_start_spec(),
            0 <= degrees < 360,
            self.contains(degrees as int),
            !self.contains(degrees - 1),
    {
        match self {
            Direction::North => 349,
            Direction::NNE => 12,
            Direction::NE => 34,
            Direction::ENE => 57,
            Direction::East => 79,
            Direction::ESE => 102,
            Direction::SE => 124,
            Direction::SSE => 147,
            Direction::South => 169,
            Direction::SSW => 192,
            Direction::SW => 214,
            Direction::WSW => 237,
            Direction::West => 259,
            Direction::WNW => 282,
            Direction::NW => 304,
            Direction::NNW => 327,
        }
    }

    /// The next direction clockwise.
    pub fn clockwise(self) -> (next: Direction)
        ensures
            next == self.clockwise_spec(),
    {
        match self {
            Direction::North => Direction::NNE,
            Direction::NNE => Direction::NE,
            Direction::NE => Direction::ENE,
            Direction::ENE => Direction::East,
            Direction::East => Direction::ESE,
            Direction::ESE => Direction::SE,
            Direction::SE => Direction::SSE,
            Direction::SSE => Direction::South,
            Direction::South => Direction::SSW,
            Direction::SSW => Direction::SW,
            Direction::SW => Direction::WSW,
            Direction::WSW => Direction::West,
            Direction::West => Direction::WNW,
            Direction::WNW => Direction::NW,
            Direction::NW => Direction::NNW,
            Direction::NNW => Direction::North,
        }
    }

    /// The next direction counterclockwise.
    pub fn counterclockwise(self) -> (previous: Direction)
        ensures
            previous == self.counterclockwise_spec(),
    {
        match self {
            Direction::North => Direction::NNW,
            Direction::NNE => Direction::North,
            Direction::NE => Direction::NNE,
            Direction::ENE => Direction::NE,
            Direction::East => Direction::ENE,
            Direction::ESE => Direction::East,
            Direction::SE => Direction::ESE,
            Direction::SSE => Direction::SE,
            Direction::South => Direction::SSE,
            Direction::SSW => Direction::South,
            Direction::SW => Direction::SSW,
            Direction::WSW => Direction::SW,
            Direction::West => Direction::WSW,
            Direction::WNW => Direction::West,
            Direction::NW => Direction::WNW,
            Direction::NNW => Direction::NW,
        }
    }
}

/// Finds the direction whose sector holds `angle`, an angle in degrees of any
/// size and sign.
///
/// The angle is reduced to one turn and looked up among the sector
/// boundaries 12, 34, 57, ..., 327, 349. These are the first whole degrees
/// at or above 11.25, 33.75, 56.25, ..., so that for whole degrees the lookup
/// agrees exactly with sectors 22.5 degrees wide. North reaches around zero,
/// from 349 through 359 and from 0 through 11.
pub fn classify(angle: i32) -> (direction: Direction)
    ensures
        direction == classify_spec(angle as int),
        direction.contains(angle as int),
{
    let heading: i32 = normalize_deg(angle);
    if heading < 12 {
        Direction::North
    } else if heading < 34 {
        Direction::NNE
    } else if heading < 57 {
        Direction::NE
    } else if heading < 79 {
        Direction::ENE
    } else if heading < 102 {
        Direction::East
    } else if heading < 124 {
        Direction::ESE
    } else if heading < 147 {
        Direction::SE
    } else if heading < 169 {
        Direction::SSE
    } else if heading < 192 {
        Direction::South
    } else if heading < 214 {
        Direction::SSW
    } else if heading < 237 {
        Direction::SW
    } else if heading < 259 {
        Direction::WSW
    } else if heading < 282 {
        Direction::West
    } else if heading < 304 {
        Direction::WNW
    } else if heading < 327 {
        Direction::NW
    } else if heading < 349 {
        Direction::NNW
    } else {
        Direction::North
    }
}

/// Places and directions correspond one to one: there are exactly sixteen
/// directions.
pub proof fn lemma_index_round_trip(direction: Direction, index: int)
    ensures
        0 <= direction.index_spec() < 16,
        Direction::from_index_spec(direction.index_spec()) == direction,
        0 <= index < 16 ==> Direction::from_index_spec(index).index_spec() == index,
{
}

/// The sectors cover the circle without overlap: every angle lies in the
/// sector of the direction it is classified as, and in no other.
pub proof fn lemma_sectors_partition(angle: int, direction: Direction)
    ensures
        classify_spec(angle).contains(angle),
        direction.contains(angle) <==> direction == classify_spec(angle),
{
}

/// Whole turns do not change the direction of an angle.
pub proof fn lemma_classify_periodic(angle: int, turns: int)
    ensures
        classify_spec(angle + 360 * turns) == classify_spec(angle),
        classify_spec(angle + 360) == classify_spec(angle),
{
    lemma_normalize_periodic(angle, turns);
    lemma_normalize_periodic(angle, 1);
}

/// The sectors follow one another around the circle: within one turn, a
/// direction's sector holds the whole degrees from its own start up to the
/// start of the next direction clockwise.
pub proof fn lemma_sectors_contiguous(direction: Direction, angle: int)
    requires
        0 <= angle < 360,
    ensures
        direction.contains(angle) <==> direction.spans(angle),
{
}

/// No sector is empty: every direction is the direction of some angle, the
/// start of its sector for one.
pub proof fn lemma_every_direction_reached(direction: Direction)
    ensures
        classify_spec(direction.sector_start_spec()) == direction,
{
}

/// Going clockwise and then counterclockwise, or the other way round, comes
/// back to where it started.
pub proof fn lemma_neighbors_inverse(direction: Direction)
    ensures
        direction.clockwise_spec().counterclockwise_spec() == direction,
        direction.counterclockwise_spec().clockwise_spec() == direction,
{
}

} // verus!
