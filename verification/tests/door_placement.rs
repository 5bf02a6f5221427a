use temper_storage::door::{
    door_block_for_item, door_facing, plan_door_placement, BlockFace, BlockPlaceError, DoorHalf,
    DoorPlacement, Facing,
};

#[test]
fn every_door_item_places_its_door() {
    for wood in ["oak", "birch", "spruce", "jungle", "acacia", "dark_oak"] {
        let item = format!("{}_door", wood);
        assert_eq!(door_block_for_item(&item), Some(format!("minecraft:{}_door", wood)));
    }
    assert_eq!(door_block_for_item("iron_door"), None);
    assert_eq!(door_block_for_item("oak_doo"), None);
}

#[test]
fn door_faces_away_from_the_clicked_side() {
    assert!(matches!(door_facing(BlockFace::North, Facing::East), Ok(Facing::South)));
    assert!(matches!(door_facing(BlockFace::South, Facing::East), Ok(Facing::North)));
    assert!(matches!(door_facing(BlockFace::East, Facing::North), Ok(Facing::West)));
    assert!(matches!(door_facing(BlockFace::West, Facing::North), Ok(Facing::East)));
    assert!(matches!(door_facing(BlockFace::Top, Facing::West), Ok(Facing::West)));
    assert!(matches!(
        door_facing(BlockFace::Bottom, Facing::West),
        Err(BlockPlaceError::InvalidBlockFace(BlockFace::Bottom))
    ));
}

#[test]
fn door_is_placed_in_two_halves() {
    match plan_door_placement("spruce_door", true, BlockFace::Top, Facing::North).unwrap() {
        DoorPlacement::Place { lower, upper } => {
            assert_eq!(lower.name, "minecraft:spruce_door");
            assert_eq!(upper.name, "minecraft:spruce_door");
            assert_eq!(lower.facing, Facing::North);
            assert_eq!(lower.half, DoorHalf::Lower);
            assert_eq!(upper.half, DoorHalf::Upper);
            let props: Vec<(String, String)> = lower.properties();
            let expected: Vec<(String, String)> = vec![
                ("facing".to_string(), "north".to_string()),
                ("half".to_string(), "lower".to_string()),
                ("hinge".to_string(), "left".to_string()),
                ("open".to_string(), "false".to_string()),
                ("powered".to_string(), "false".to_string()),
            ];
            assert_eq!(props, expected);
            assert_eq!(upper.properties()[1], ("half".to_string(), "upper".to_string()));
        }
        DoorPlacement::Obstructed => panic!("door should be placed"),
    }
}

#[test]
fn obstructed_door_is_not_placed_even_on_a_bad_face() {
    assert!(matches!(
        plan_door_placement("oak_door", false, BlockFace::Bottom, Facing::North),
        Ok(DoorPlacement::Obstructed)
    ));
}

#[test]
fn unknown_item_is_refused_first() {
    match plan_door_placement("stone", false, BlockFace::Bottom, Facing::North) {
        Err(BlockPlaceError::ItemNotMappedToBlock(item)) => assert_eq!(item, "stone"),
        _ => panic!("item should be refused"),
    }
    assert!(matches!(
        plan_door_placement("birch_door", true, BlockFace::Bottom, Facing::North),
        Err(BlockPlaceError::InvalidBlockFace(BlockFace::Bottom))
    ));
}
