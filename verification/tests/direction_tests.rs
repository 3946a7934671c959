use compass_gauge::direction::{classify, Direction, DIRECTIONS};

const CLOCKWISE: [Direction; 16] = [
    Direction::North,
    Direction::NNE,
    Direction::NE,
    Direction::ENE,
    Direction::East,
    Direction::ESE,
    Direction::SE,
    Direction::SSE,
    Direction::South,
    Direction::SSW,
    Direction::SW,
    Direction::WSW,
    Direction::West,
    Direction::WNW,
    Direction::NW,
    Direction::NNW,
];

#[test]
fn classify_at_the_edges_of_north() {
    assert_eq!(classify(11), Direction::North);
    assert_eq!(classify(12), Direction::NNE);
    assert_eq!(classify(348), Direction::NNW);
    assert_eq!(classify(349), Direction::North);
    assert_eq!(classify(359), Direction::North);
    assert_eq!(classify(0), Direction::North);
}

#[test]
fn classify_at_every_boundary() {
    let starts = [349, 12, 34, 57, 79, 102, 124, 147, 169, 192, 214, 237, 259, 282, 304, 327];
    for (k, direction) in CLOCKWISE.iter().enumerate() {
        assert_eq!(direction.sector_start(), starts[k]);
        assert_eq!(classify(starts[k]), *direction);
        assert_eq!(classify(starts[k] - 1), direction.counterclockwise());
    }
}

#[test]
fn classify_the_cardinal_points() {
    assert_eq!(classify(0), Direction::North);
    assert_eq!(classify(45), Direction::NE);
    assert_eq!(classify(90), Direction::East);
    assert_eq!(classify(135), Direction::SE);
    assert_eq!(classify(180), Direction::South);
    assert_eq!(classify(225), Direction::SW);
    assert_eq!(classify(270), Direction::West);
    assert_eq!(classify(315), Direction::NW);
}

#[test]
fn classify_agrees_with_sectors_of_twenty_two_and_a_half_degrees() {
    for angle in 0..360 {
        let sector = ((f64::from(angle) + 11.25) / 22.5).floor() as u8 % 16;
        assert_eq!(classify(angle).index(), sector, "at {angle}");
    }
}

#[test]
fn classify_normalizes_its_argument() {
    assert_eq!(classify(-1), Direction::North);
    assert_eq!(classify(-12), Direction::NNW);
    assert_eq!(classify(-90), Direction::West);
    assert_eq!(classify(372), Direction::NNE);
    assert_eq!(classify(360 * 5 + 180), Direction::South);
    assert_eq!(classify(i32::MAX), Direction::SE);
    assert_eq!(classify(i32::MIN), Direction::SW);
}

#[test]
fn classify_is_the_same_a_turn_later() {
    for angle in -720..=720 {
        assert_eq!(classify(angle), classify(angle + 360), "at {angle}");
    }
}

#[test]
fn classify_reaches_every_direction_and_covers_the_turn() {
    let mut count = [0u32; 16];
    for angle in 0..360 {
        count[usize::from(classify(angle).index())] += 1;
    }
    for (k, n) in count.iter().enumerate() {
        assert!(*n == 22 || *n == 23, "sector {k} holds {n} degrees");
    }
    assert_eq!(count.iter().sum::<u32>(), 360);
    assert_eq!(count[0], 23);
    assert_eq!(count[1], 22);
}

#[test]
fn index_and_from_index_are_inverse() {
    for (k, direction) in CLOCKWISE.iter().enumerate() {
        assert_eq!(usize::from(direction.index()), k);
        assert_eq!(Direction::from_index(k as u8), Some(*direction));
    }
    assert_eq!(DIRECTIONS, 16);
    assert_eq!(Direction::from_index(16), None);
    assert_eq!(Direction::from_index(u8::MAX), None);
}

#[test]
fn neighbors_go_around_the_compass() {
    for k in 0..16 {
        assert_eq!(CLOCKWISE[k].clockwise(), CLOCKWISE[(k + 1) % 16]);
        assert_eq!(CLOCKWISE[k].counterclockwise(), CLOCKWISE[(k + 15) % 16]);
        assert_eq!(CLOCKWISE[k].clockwise().counterclockwise(), CLOCKWISE[k]);
    }
    assert_eq!(Direction::NNW.clockwise(), Direction::North);
    assert_eq!(Direction::North.counterclockwise(), Direction::NNW);
}

#[test]
fn sector_runs_from_its_start_to_the_next_start() {
    for direction in CLOCKWISE {
        let start = direction.sector_start();
        let end = direction.clockwise().sector_start();
        for angle in 0..360 {
            let inside = if start < end {
                start <= angle && angle < end
            } else {
                start <= angle || angle < end
            };
            assert_eq!(classify(angle) == direction, inside, "{direction:?} at {angle}");
        }
    }
}
