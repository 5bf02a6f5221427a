//! The decisions of placing a door: which door block an item places, whether
//! there is room for it, which way it faces, and the block states of its two
//! halves.
use vstd::prelude::*;
use vstd::string::*;
use crate::text::same_text;

verus! {

/// The face of a block that a player clicked.
#[derive(Debug, Clone, Copy, PartialEq, Eq, Hash)]
pub enum BlockFace {
    Top,
    Bottom,
    North,
    South,
    East,
    West,
}

/// A horizontal direction.
#[derive(Debug, Clone, Copy, PartialEq, Eq, Hash)]
pub enum Facing {
    North,
    South,
    East,
    West,
}

/// The lower or upper half of a door.
#[derive(Debug, Clone, Copy, PartialEq, Eq, Hash)]
pub enum DoorHalf {
    Lower,
    Upper,
}

/// The block state of one half of a door: the door's block name, the way it
/// faces and which half it is. Its hinge is on the left and it is closed and
/// unpowered.
#[derive(Debug, Clone)]
pub struct DoorBlockState {
    pub name: String,
    pub facing: Facing,
    pub half: DoorHalf,
}

/// Why a door cannot be placed.
#[derive(Debug)]
pub enum BlockPlaceError {
    /// The item used places no door; carries the item's name.
    ItemNotMappedToBlock(String),
    /// Doors cannot be placed against this face.
    InvalidBlockFace(BlockFace),
    /// The block registry has no state for this door half.
    BlockNotMappedToBlockStateId(DoorBlockState),
}

/// What placing a door amounts to.
#[derive(Debug)]
pub enum DoorPlacement {
    /// The block above is taken: nothing is placed and the item is kept.
    Obstructed,
    /// Both halves are placed, the lower one at the clicked position and the
    /// upper one above it, and the item is used up.
    Place { lower: DoorBlockState, upper: DoorBlockState },
}

/// The door block that an item places, by the item's name.
pub open spec fn spec_door_block(item: Seq<char>) -> Option<Seq<char>> {
    if item == "oak_door"@ {
        Some("minecraft:oak_door"@)
    } else if item == "birch_door"@ {
        Some("minecraft:birch_door"@)
    } else if item == "spruce_door"@ {
        Some("minecraft:spruce_door"@)
    } else if item == "jungle_door"@ {
        Some("minecraft:jungle_door"@)
    } else if item == "acacia_door"@ {
        Some("minecraft:acacia_door"@)
    } else if item == "dark_oak_door"@ {
        Some("minecraft:dark_oak_door"@)
    } else {
        None
    }
}

/// The way a door faces when placed against a face: away from the clicked
/// side; on top of a block, the way the player looks. Doors cannot be hung
/// under a block.
pub open spec fn spec_door_facing(face: BlockFace, looking: Facing) -> Option<Facing> {
    match face {
        BlockFace::North => Some(Facing::South),
        BlockFace::South => Some(Facing::North),
        BlockFace::East => Some(Facing::West),
        BlockFace::West => Some(Facing::East),
        BlockFace::Top => Some(looking),
        BlockFace::Bottom => None,
    }
}

/// The direction opposite to a side face.
pub open spec fn opposite_of_side(face: BlockFace) -> Facing {
    match face {
        BlockFace::North => Facing::South,
        BlockFace::South => Facing::North,
        BlockFace::East => Facing::West,
        _ => Facing::East,
    }
}

/// The text of a direction in block properties.
pub open spec fn spec_facing_text(f: Facing) -> Seq<char> {
    match f {
        Facing::North => "north"@,
        Facing::South => "south"@,
        Facing::East => "east"@,
        Facing::West => "west"@,
    }
}

/// The text of a door half in block properties.
pub open spec fn spec_half_text(h: DoorHalf) -> Seq<char> {
    match h {
        DoorHalf::Lower => "lower"@,
        DoorHalf::Upper => "upper"@,
    }
}

/// The properties of a door half, ordered by name.
pub open spec fn spec_door_properties(facing: Facing, half: DoorHalf) -> Seq<(Seq<char>, Seq<char>)> {
    seq![
        ("facing"@, spec_facing_text(facing)),
        ("half"@, spec_half_text(half)),
        ("hinge"@, "left"@),
        ("open"@, "false"@),
        ("powered"@, "false"@),
    ]
}

/// The door block that an item places, by the item's name.
pub fn door_block_for_item(item: &str) -> (r: Option<String>)
    ensures
        match r {
            Some(name) => spec_door_block(item@) == Some(name@),
            None => spec_door_block(item@) is None,
        },
{
    proof {
        reveal_strlit("oak_door");
        reveal_strlit("birch_door");
        reveal_strlit("spruce_door");
        reveal_strlit("jungle_door");
        reveal_strlit("acacia_door");
        reveal_strlit("dark_oak_door");
    }
    if same_text(item, "oak_door") {
        Some(String::from_str("minecraft:oak_door"))
    } else if same_text(item, "birch_door") {
        Some(String::from_str("minecraft:birch_door"))
    } else if same_text(item, "spruce_door") {
        Some(String::from_str("minecraft:spruce_door"))
    } else if same_text(item, "jungle_door") {
        Some(String::from_str("minecraft:jungle_door"))
    } else if same_text(item, "acacia_door") {
        Some(String::from_str("minecraft:acacia_door"))
    } else if same_text(item, "dark_oak_door") {
        Some(String::from_str("minecraft:dark_oak_door"))
    } else {
        None
    }
}

/// The way a door placed against `face` faces; `looking` is the way the
/// player looks, used when the door is placed on top of a block.
pub fn door_facing(face: BlockFace, looking: Facing) -> (r: Result<Facing, BlockPlaceError>)
    ensures
        match spec_door_facing(face, looking) {
            Some(f) => r == Ok::<Facing, BlockPlaceError>(f),
            None => r == Err::<Facing, BlockPlaceError>(BlockPlaceError::InvalidBlockFace(face)),
        },
        face == BlockFace::Top ==> r == Ok::<Facing, BlockPlaceError>(looking),
        face == BlockFace::North ==> r == Ok::<Facing, BlockPlaceError>(Facing::South),
        face == BlockFace::South ==> r == Ok::<Facing, BlockPlaceError>(Facing::North),
        face == BlockFace::East ==> r == Ok::<Facing, BlockPlaceError>(Facing::West),
        face == BlockFace::West ==> r == Ok::<Facing, BlockPlaceError>(Facing::East),
        face == BlockFace::Bottom ==> r == Err::<Facing, BlockPlaceError>(
            BlockPlaceError::InvalidBlockFace(BlockFace::Bottom),
        ),
{
    match face {
        BlockFace::North => Ok(Facing::South),
        BlockFace::South => Ok(Facing::North),
        BlockFace::East => Ok(Facing::West),
        BlockFace::West => Ok(Facing::East),
        BlockFace::Top => Ok(looking),
        _ => Err(BlockPlaceError::InvalidBlockFace(face)),
    }
}

impl Facing {
    /// The text of the direction in block properties.
    pub fn as_text(&self) -> (r: &'static str)
        ensures
            r@ == spec_facing_text(*self),
    {
        proof {
            reveal_strlit("north");
            reveal_strlit("south");
            reveal_strlit("east");
            reveal_strlit("west");
        }
        match self {
            Facing::North => "north",
            Facing::South => "south",
            Facing::East => "east",
            Facing::West => "west",
        }
    }
}

impl DoorHalf {
    /// The text of the half in block properties.
    pub fn as_text(&self) -> (r: &'static str)
        ensures
            r@ == spec_half_text(*self),
    {
        proof {
            reveal_strlit("lower");
            reveal_strlit("upper");
        }
        match self {
            DoorHalf::Lower => "lower",
            DoorHalf::Upper => "upper",
        }
    }
}

impl DoorBlockState {
    /// The block properties of this door half, ordered by name.
    pub fn properties(&self) -> (r: Vec<(String, String)>)
        ensures
            r@.len() == 5,
            forall|i: int|
                0 <= i < 5 ==> (#[trigger] r@[i]).0@ == spec_door_properties(self.facing, self.half)[i].0
                    && r@[i].1@ == spec_door_properties(self.facing, self.half)[i].1,
    {
        proof {
            reveal_strlit("facing");
            reveal_strlit("half");
            reveal_strlit("hinge");
            reveal_strlit("left");
            reveal_strlit("open");
            reveal_strlit("powered");
            reveal_strlit("false");
        }
        let mut props: Vec<(String, String)> = Vec::new();
        props.push((String::from_str("facing"), String::from_str(self.facing.as_text())));
        props.push((String::from_str("half"), String::from_str(self.half.as_text())));
        props.push((String::from_str("hinge"), String::from_str("left")));
        props.push((String::from_str("open"), String::from_str("false")));
        props.push((String::from_str("powered"), String::from_str("false")));
        props
    }
}

/// Decides how a door is placed: the item must place a door, the block above
/// the clicked position must be air, and the clicked face must allow a door.
/// `above_is_air` says whether the block above is air (or cave air);
/// `looking` is the way the player looks.
pub fn plan_door_placement(item: &str, above_is_air: bool, face: BlockFace, looking: Facing) -> (r:
    Result<DoorPlacement, BlockPlaceError>)
    ensures
        match spec_door_block(item@) {
            None => r matches Err(BlockPlaceError::ItemNotMappedToBlock(i)) && i@ == item@,
            Some(name) => if !above_is_air {
                r matches Ok(DoorPlacement::Obstructed)
            } else {
                match spec_door_facing(face, looking) {
                    None => r matches Err(BlockPlaceError::InvalidBlockFace(f)) && f == face,
                    Some(facing) => r matches Ok(DoorPlacement::Place { lower, upper }) && lower.name@
                        == name && upper.name@ == name && lower.facing == facing && upper.facing
                        == facing && lower.half == DoorHalf::Lower && upper.half == DoorHalf::Upper,
                }
            },
        },
        spec_door_block(item@) is Some && above_is_air && face == BlockFace::Top ==> (r matches Ok(
            DoorPlacement::Place { lower, upper },
        ) && lower.facing == looking && upper.facing == looking),
        spec_door_block(item@) is Some && above_is_air && face != BlockFace::Top && face
            != BlockFace::Bottom ==> (r matches Ok(DoorPlacement::Place { lower, upper })
            && lower.facing == opposite_of_side(face) && upper.facing == opposite_of_side(face)),
{
    let name = match door_block_for_item(item) {
        Some(name) => name,
        None => return Err(BlockPlaceError::ItemNotMappedToBlock(String::from_str(item))),
    };
    if !above_is_air {
        return Ok(DoorPlacement::Obstructed);
    }
    let facing = door_facing(face, looking)?;
    let upper_name = name.clone();
    Ok(
        DoorPlacement::Place {
            lower: DoorBlockState { name, facing, half: DoorHalf::Lower },
            upper: DoorBlockState { name: upper_name, facing, half: DoorHalf::Upper },
        },
    )
}

/// A door placed against a side face faces away from it.
pub proof fn law_door_faces_away_from_side(face: BlockFace, looking: Facing)
    requires
        face != BlockFace::Top,
        face != BlockFace::Bottom,
    ensures
        spec_door_facing(face, looking) == Some(opposite_of_side(face)),
{
}

/// A door placed on top of a block faces the way the player looks, whichever
/// way that is.
pub proof fn law_door_faces_the_look_on_top(looking: Facing)
    ensures
        spec_door_facing(BlockFace::Top, looking) == Some(looking),
{
}

/// The two halves of a door have the same properties but for `half`.
pub proof fn law_door_halves_differ_only_in_half(facing: Facing)
    ensures
        forall|i: int|
            0 <= i < 5 && i != 1 ==> spec_door_properties(facing, DoorHalf::Lower)[i]
                == spec_door_properties(facing, DoorHalf::Upper)[i],
        spec_door_properties(facing, DoorHalf::Lower)[1].1 != spec_door_properties(
            facing,
            DoorHalf::Upper,
        )[1].1,
{
    reveal_strlit("lower");
    reveal_strlit("upper");
    assert(spec_half_text(DoorHalf::Lower)[0] != spec_half_text(DoorHalf::Upper)[0]);
}

} // verus!
