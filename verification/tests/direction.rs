use pewpewboom::lasers::{Direction, Position};

const CLOCKWISE: [Direction; 6] = [
    Direction::North,
    Direction::Northeast,
    Direction::Southeast,
    Direction::South,
    Direction::Southwest,
    Direction::Northwest,
];

#[test]
fn all_lists_the_six_directions_in_the_order_of_the_type() {
    assert_eq!(
        Direction::all(),
        vec![
            Direction::North,
            Direction::South,
            Direction::Northeast,
            Direction::Southeast,
            Direction::Northwest,
            Direction::Southwest,
        ]
    );
    assert_eq!(Direction::default(), Direction::North);
}

#[test]
fn opposite_is_three_steps_round() {
    for place in 0..6 {
        assert_eq!(CLOCKWISE[place].opposite(), CLOCKWISE[(place + 3) % 6]);
        assert_eq!(CLOCKWISE[place].opposite().opposite(), CLOCKWISE[place]);
    }
    assert_eq!(Direction::North.opposite(), Direction::South);
    assert_eq!(Direction::Northeast.opposite(), Direction::Southwest);
    assert_eq!(Direction::Southeast.opposite(), Direction::Northwest);
}

#[test]
fn clockwise_follows_the_compass() {
    for place in 0..6 {
        for offset in 0..=20u8 {
            let expected = CLOCKWISE[(place + offset as usize) % 6];
            assert_eq!(CLOCKWISE[place].clockwise(offset), expected);
        }
    }
    assert_eq!(Direction::North.clockwise(1), Direction::Northeast);
    assert_eq!(Direction::Northwest.clockwise(1), Direction::North);
    assert_eq!(Direction::North.clockwise(255), Direction::South);
}

#[test]
fn counterclockwise_undoes_clockwise() {
    for place in 0..6 {
        for offset in 0..=20u8 {
            let expected = CLOCKWISE[(place + 60 - offset as usize) % 6];
            assert_eq!(CLOCKWISE[place].counterclockwise(offset), expected);
            assert_eq!(
                CLOCKWISE[place].clockwise(offset).counterclockwise(offset),
                CLOCKWISE[place]
            );
        }
    }
    assert_eq!(Direction::North.counterclockwise(1), Direction::Northwest);
    assert_eq!(Direction::North.counterclockwise(6), Direction::North);
}

#[test]
fn steps_between_counts_clockwise_steps_from_start() {
    for start in 0..6 {
        for steps in 0..6 {
            let end = CLOCKWISE[(start + steps) % 6];
            assert_eq!(end.steps_between(CLOCKWISE[start]), steps as u8);
        }
    }
    assert_eq!(Direction::Northeast.steps_between(Direction::North), 1);
    assert_eq!(Direction::North.steps_between(Direction::Northeast), 5);
}

#[test]
fn front_and_back_directions() {
    assert_eq!(
        Direction::South.front_directions(),
        [Direction::Southwest, Direction::South, Direction::Southeast]
    );
    assert_eq!(
        Direction::South.back_directions(),
        [Direction::Northeast, Direction::North, Direction::Northwest]
    );
    for facing in CLOCKWISE {
        let front = facing.front_directions();
        let back = facing.back_directions();
        for direction in CLOCKWISE {
            assert_ne!(front.contains(&direction), back.contains(&direction));
        }
    }
}

#[test]
fn as_hex_and_from_hex_agree() {
    let edges = [1u8, 2, 3, 4, 5, 0];
    for place in 0..6 {
        assert_eq!(CLOCKWISE[place].as_hex(), edges[place]);
        assert_eq!(Direction::from_hex(edges[place]), CLOCKWISE[place]);
    }
}

#[test]
fn neighbor_steps_one_cell_in_each_direction() {
    let cell = Position::new(10, 5);
    assert_eq!(cell.neighbor(Direction::North), Position::new(10, 6));
    assert_eq!(cell.neighbor(Direction::Northeast), Position::new(9, 6));
    assert_eq!(cell.neighbor(Direction::Southeast), Position::new(9, 5));
    assert_eq!(cell.neighbor(Direction::South), Position::new(10, 4));
    assert_eq!(cell.neighbor(Direction::Southwest), Position::new(11, 4));
    assert_eq!(cell.neighbor(Direction::Northwest), Position::new(11, 5));
    for direction in CLOCKWISE {
        assert_eq!(cell.neighbor(direction).neighbor(direction.opposite()), cell);
        assert_eq!(cell.neighbor(direction).unsigned_distance_to(cell), 1);
    }
}

#[test]
fn distance_is_the_largest_cubic_coordinate_of_the_difference() {
    let origin = Position::new(0, 0);
    assert_eq!(Position::new(0, 0).unsigned_distance_to(origin), 0);
    assert_eq!(Position::new(3, -1).unsigned_distance_to(origin), 3);
    assert_eq!(Position::new(2, 2).unsigned_distance_to(origin), 4);
    assert_eq!(Position::new(-2, 5).unsigned_distance_to(origin), 5);
    assert_eq!(Position::new(1, 1).unsigned_distance_to(Position::new(4, -3)), 4);
    assert_eq!(Position::new(4, -3).unsigned_distance_to(Position::new(1, 1)), 4);
    assert_eq!(Position::default(), origin);
}

#[test]
fn range_lists_every_cell_within_reach_once() {
    let centre = Position::new(3, -2);
    assert_eq!(centre.range(0), vec![centre]);
    for reach in 0..5u32 {
        let cells = centre.range(reach);
        assert_eq!(cells.len() as u32, 3 * reach * (reach + 1) + 1);
        for x in -8..=8 {
            for y in -8..=8 {
                let cell = Position::new(centre.x + x, centre.y + y);
                let inside = cell.unsigned_distance_to(centre) <= reach;
                assert_eq!(cells.iter().filter(|listed| **listed == cell).count(), inside as usize);
            }
        }
    }
}

#[test]
fn cells_at_the_edge_of_what_can_be_stored() {
    let corner = Position::new(i32::MAX, i32::MIN);
    assert!(!corner.has_neighbor(Direction::Northwest));
    assert!(!corner.has_neighbor(Direction::South));
    assert!(!corner.has_neighbor(Direction::Southwest));
    assert!(corner.has_neighbor(Direction::North));
    assert!(corner.has_neighbor(Direction::Northeast));
    assert!(corner.has_neighbor(Direction::Southeast));
    assert_eq!(corner.neighbor(Direction::Northeast), Position::new(i32::MAX - 1, i32::MIN + 1));
    assert!(Position::new(0, 0).has_neighbor(Direction::South));

    assert!(Position::new(5, 5).can_measure(Position::new(-5, -5)));
    assert!(corner.can_measure(corner));
    assert!(!corner.can_measure(Position::new(-1, 0)));
    assert!(!Position::new(i32::MAX, i32::MAX).can_measure(Position::new(0, 0)));
    assert!(Position::new(i32::MAX, i32::MIN).can_measure(Position::new(0, 0)));
    assert!(!Position::new(i32::MIN, 0).can_measure(Position::new(0, 0)));

    assert!(Position::new(0, 0).can_range(0x7fff));
    assert!(!Position::new(0, 0).can_range(0x8000));
    assert!(!corner.can_range(1));
    assert!(corner.can_range(0));
    assert_eq!(corner.range(0), vec![corner]);
}
