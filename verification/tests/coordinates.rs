use heliocron::errors::{Axis, ConfigErrorKind, CoordinateFault, HeliocronError};
use heliocron::structs::{Angle, Coordinates, Direction};

fn degrees(angle: &Angle) -> f64 {
    let mut value = angle.whole as f64;
    let mut place = 0.1;
    for digit in &angle.fraction {
        value += *digit as f64 * place;
        place /= 10.0;
    }
    if angle.negative {
        -value
    } else {
        value
    }
}

fn close(a: f64, b: f64) -> bool {
    (a - b).abs() < 1e-9
}

fn refused(axis: Axis, fault: CoordinateFault) -> HeliocronError {
    HeliocronError::Config(ConfigErrorKind::InvalidCoordinate(axis, fault))
}

#[test]
fn reads_the_default_position() {
    let position = Coordinates::from_decimal_degrees("51.4769N", "0.0005W").unwrap();
    assert_eq!(
        position.latitude,
        Angle { negative: false, whole: 51, fraction: vec![4, 7, 6, 9] }
    );
    assert_eq!(
        position.longitude,
        Angle { negative: true, whole: 0, fraction: vec![0, 0, 0, 5] }
    );
    assert!(close(degrees(&position.latitude), 51.4769));
    assert!(close(degrees(&position.longitude), -0.0005));
}

#[test]
fn north_and_east_are_positive() {
    let position = Coordinates::from_decimal_degrees("10.0N", "20.0E").unwrap();
    assert!(!position.latitude.negative);
    assert!(!position.longitude.negative);
    assert_eq!(degrees(&position.latitude), 10.0);
    assert_eq!(degrees(&position.longitude), 20.0);
}

#[test]
fn south_and_west_are_negative() {
    let position = Coordinates::from_decimal_degrees("5.0S", "5.0W").unwrap();
    assert!(position.latitude.negative);
    assert!(position.longitude.negative);
    assert_eq!(degrees(&position.latitude), -5.0);
    assert_eq!(degrees(&position.longitude), -5.0);
}

#[test]
fn magnitude_is_kept_digit_by_digit() {
    let angle = Angle::parse("012.3450E", Axis::Longitude).unwrap();
    assert_eq!(angle, Angle { negative: false, whole: 12, fraction: vec![3, 4, 5, 0] });
    let long = Angle::parse("1.00000000000000000000000001S", Axis::Latitude).unwrap();
    assert_eq!(long.whole, 1);
    assert_eq!(long.fraction.len(), 26);
    assert_eq!(long.fraction[25], 1);
    assert!(long.negative);
}

#[test]
fn integers_and_bare_points_are_numbers() {
    assert_eq!(
        Angle::parse("45N", Axis::Latitude),
        Ok(Angle { negative: false, whole: 45, fraction: vec![] })
    );
    assert_eq!(
        Angle::parse("45.N", Axis::Latitude),
        Ok(Angle { negative: false, whole: 45, fraction: vec![] })
    );
    assert_eq!(
        Angle::parse(".5S", Axis::Latitude),
        Ok(Angle { negative: true, whole: 0, fraction: vec![5] })
    );
    assert_eq!(
        Angle::parse("0W", Axis::Longitude),
        Ok(Angle { negative: true, whole: 0, fraction: vec![] })
    );
}

#[test]
fn rejects_out_of_range_latitude() {
    assert_eq!(
        Coordinates::from_decimal_degrees("91N", "0.0E"),
        Err(refused(Axis::Latitude, CoordinateFault::Range))
    );
}

#[test]
fn rejects_unknown_direction_letter() {
    assert_eq!(
        Coordinates::from_decimal_degrees("45X", "0.0E"),
        Err(refused(Axis::Latitude, CoordinateFault::Direction))
    );
}

#[test]
fn rejects_non_numeric_magnitude() {
    assert_eq!(
        Coordinates::from_decimal_degrees("abcN", "0.0E"),
        Err(refused(Axis::Latitude, CoordinateFault::Magnitude))
    );
    assert_eq!(
        Coordinates::from_decimal_degrees("45.0N", "1O.5E"),
        Err(refused(Axis::Longitude, CoordinateFault::Magnitude))
    );
}

#[test]
fn the_three_faults_differ() {
    let range = Angle::parse("91N", Axis::Latitude).unwrap_err();
    let letter = Angle::parse("45X", Axis::Latitude).unwrap_err();
    let number = Angle::parse("fortyN", Axis::Latitude).unwrap_err();
    assert_eq!(range, CoordinateFault::Range);
    assert_eq!(letter, CoordinateFault::Direction);
    assert_eq!(number, CoordinateFault::Magnitude);
    assert_ne!(range, letter);
    assert_ne!(range, number);
    assert_ne!(letter, number);
}

#[test]
fn the_limits_themselves_are_in_range() {
    assert!(Angle::parse("90N", Axis::Latitude).is_ok());
    assert!(Angle::parse("90.000S", Axis::Latitude).is_ok());
    assert!(Angle::parse("180E", Axis::Longitude).is_ok());
    assert!(Angle::parse("180.0W", Axis::Longitude).is_ok());
    assert!(Angle::parse("89.999999999N", Axis::Latitude).is_ok());
    assert!(Angle::parse("179.999999999W", Axis::Longitude).is_ok());
}

#[test]
fn anything_beyond_the_limits_is_out_of_range() {
    assert_eq!(Angle::parse("90.0000001N", Axis::Latitude), Err(CoordinateFault::Range));
    assert_eq!(Angle::parse("90.1S", Axis::Latitude), Err(CoordinateFault::Range));
    assert_eq!(Angle::parse("180.01W", Axis::Longitude), Err(CoordinateFault::Range));
    assert_eq!(Angle::parse("181E", Axis::Longitude), Err(CoordinateFault::Range));
    assert_eq!(Angle::parse("100N", Axis::Latitude), Err(CoordinateFault::Range));
    assert_eq!(
        Angle::parse("99999999999999999999999999999999N", Axis::Latitude),
        Err(CoordinateFault::Range)
    );
    assert_eq!(Angle::parse("4294967296E", Axis::Longitude), Err(CoordinateFault::Range));
    assert_eq!(Angle::parse("1000E", Axis::Longitude), Err(CoordinateFault::Range));
    assert_eq!(Angle::parse("999E", Axis::Longitude), Err(CoordinateFault::Range));
}

#[test]
fn leading_zeros_do_not_count() {
    assert_eq!(
        Angle::parse("0000000000000000000000045.5N", Axis::Latitude),
        Ok(Angle { negative: false, whole: 45, fraction: vec![5] })
    );
}

#[test]
fn a_letter_of_the_other_axis_is_refused() {
    assert_eq!(Angle::parse("45E", Axis::Latitude), Err(CoordinateFault::Direction));
    assert_eq!(Angle::parse("45W", Axis::Latitude), Err(CoordinateFault::Direction));
    assert_eq!(Angle::parse("45N", Axis::Longitude), Err(CoordinateFault::Direction));
    assert_eq!(Angle::parse("45S", Axis::Longitude), Err(CoordinateFault::Direction));
    assert_eq!(
        Coordinates::from_decimal_degrees("10.0E", "20.0N"),
        Err(refused(Axis::Latitude, CoordinateFault::Direction))
    );
}

#[test]
fn lower_case_letters_are_refused() {
    assert_eq!(Angle::parse("45n", Axis::Latitude), Err(CoordinateFault::Direction));
    assert_eq!(Angle::parse("45w", Axis::Longitude), Err(CoordinateFault::Direction));
}

#[test]
fn the_letter_is_looked_at_first() {
    assert_eq!(Angle::parse("", Axis::Latitude), Err(CoordinateFault::Direction));
    assert_eq!(Angle::parse("abc", Axis::Latitude), Err(CoordinateFault::Direction));
    assert_eq!(Angle::parse("999", Axis::Latitude), Err(CoordinateFault::Direction));
    assert_eq!(Angle::parse("N45", Axis::Latitude), Err(CoordinateFault::Direction));
}

#[test]
fn the_number_is_looked_at_before_the_range() {
    assert_eq!(Angle::parse("999xN", Axis::Latitude), Err(CoordinateFault::Magnitude));
    assert_eq!(Angle::parse("999.9.9N", Axis::Latitude), Err(CoordinateFault::Magnitude));
}

#[test]
fn the_sign_comes_from_the_letter_alone() {
    assert_eq!(Angle::parse("-5N", Axis::Latitude), Err(CoordinateFault::Magnitude));
    assert_eq!(Angle::parse("+5N", Axis::Latitude), Err(CoordinateFault::Magnitude));
}

#[test]
fn only_plain_decimals_are_numbers() {
    assert_eq!(Angle::parse("N", Axis::Latitude), Err(CoordinateFault::Magnitude));
    assert_eq!(Angle::parse(".N", Axis::Latitude), Err(CoordinateFault::Magnitude));
    assert_eq!(Angle::parse("1.2.3N", Axis::Latitude), Err(CoordinateFault::Magnitude));
    assert_eq!(Angle::parse("1e1N", Axis::Latitude), Err(CoordinateFault::Magnitude));
    assert_eq!(Angle::parse("infN", Axis::Latitude), Err(CoordinateFault::Magnitude));
    assert_eq!(Angle::parse("4 5N", Axis::Latitude), Err(CoordinateFault::Magnitude));
    assert_eq!(Angle::parse("45 N", Axis::Latitude), Err(CoordinateFault::Magnitude));
    assert_eq!(Angle::parse("\u{ff14}\u{ff15}N", Axis::Latitude), Err(CoordinateFault::Magnitude));
    assert_eq!(Angle::parse("45\u{b0}N", Axis::Latitude), Err(CoordinateFault::Magnitude));
}

#[test]
fn the_latitude_is_read_first() {
    assert_eq!(
        Coordinates::from_decimal_degrees("91N", "181E"),
        Err(refused(Axis::Latitude, CoordinateFault::Range))
    );
    assert_eq!(
        Coordinates::from_decimal_degrees("45N", "181E"),
        Err(refused(Axis::Longitude, CoordinateFault::Range))
    );
    assert_eq!(
        Coordinates::from_decimal_degrees("45N", "18E1"),
        Err(refused(Axis::Longitude, CoordinateFault::Direction))
    );
}

#[test]
fn direction_letters() {
    assert_eq!(Direction::from_letter('N'), Some(Direction::North));
    assert_eq!(Direction::from_letter('S'), Some(Direction::South));
    assert_eq!(Direction::from_letter('E'), Some(Direction::East));
    assert_eq!(Direction::from_letter('W'), Some(Direction::West));
    assert_eq!(Direction::from_letter('n'), None);
    assert_eq!(Direction::from_letter('X'), None);
    assert!(Direction::North.lies_on(Axis::Latitude));
    assert!(Direction::South.lies_on(Axis::Latitude));
    assert!(!Direction::South.lies_on(Axis::Longitude));
    assert!(Direction::East.lies_on(Axis::Longitude));
    assert!(Direction::West.lies_on(Axis::Longitude));
    assert!(!Direction::West.lies_on(Axis::Latitude));
    assert!(Direction::South.is_negative());
    assert!(Direction::West.is_negative());
    assert!(!Direction::North.is_negative());
    assert!(!Direction::East.is_negative());
}

#[test]
fn axis_limits() {
    assert_eq!(Axis::Latitude.max_degrees(), 90);
    assert_eq!(Axis::Longitude.max_degrees(), 180);
}
