//! Geographic positions in decimal degrees, read from strings such as
//! `51.4769N` and kept exactly, digit by digit.

use vstd::prelude::*;

use crate::errors::{invalid_coordinate, Axis, CoordinateFault, ConfigErrorKind, HeliocronError};
use crate::text::chars_of;

verus! {

/// The compass letter that ends a coordinate string.
#[derive(Debug, Clone, Copy, PartialEq, Eq, Structural)]
pub enum Direction {
    North,
    South,
    East,
    West,
}

impl Direction {
    /// The direction that `letter` stands for, if any.
    pub open spec fn of(letter: char) -> Option<Direction> {
        if letter == 'N' {
            Some(Direction::North)
        } else if letter == 'S' {
            Some(Direction::South)
        } else if letter == 'E' {
            Some(Direction::East)
        } else if letter == 'W' {
            Some(Direction::West)
        } else {
            None
        }
    }

    /// The axis along which the direction points.
    pub open spec fn axis(self) -> Axis {
        match self {
            Direction::North | Direction::South => Axis::Latitude,
            Direction::East | Direction::West => Axis::Longitude,
        }
    }

    /// South and west give negative coordinates.
    pub open spec fn negative(self) -> bool {
        self is South || self is West
    }

    /// Reads a direction letter.
    pub fn from_letter(letter: char) -> (direction: Option<Direction>)
        ensures
            direction == Direction::of(letter),
    {
        if letter == 'N' {
            Some(Direction::North)
        } else if letter == 'S' {
            Some(Direction::South)
        } else if letter == 'E' {
            Some(Direction::East)
        } else if letter == 'W' {
            Some(Direction::West)
        } else {
            None
        }
    }

    /// Whether the direction points along `axis`.
    pub fn lies_on(self, axis: Axis) -> (yes: bool)
        ensures
            yes == (self.axis() == axis),
    {
        match self {
            Direction::North | Direction::South => axis == Axis::Latitude,
            Direction::East | Direction::West => axis == Axis::Longitude,
        }
    }

    /// Whether the direction makes a coordinate negative.
    pub fn is_negative(self) -> (yes: bool)
        ensures
            yes == self.negative(),
    {
        match self {
            Direction::South | Direction::West => true,
            Direction::North | Direction::East => false,
        }
    }
}

/// Ten to the power `n`.
pub open spec fn pow10(n: nat) -> nat
    decreases n,
{
    if n == 0 {
        1
    } else {
        10 * pow10((n - 1) as nat)
    }
}

/// Whether `c` is one of the ten ASCII digits.
pub open spec fn is_digit(c: char) -> bool {
    '0' <= c && c <= '9'
}

/// Whether every character of `s` is a digit.
pub open spec fn all_digits(s: Seq<char>) -> bool {
    forall|i: int| 0 <= i < s.len() ==> is_digit(#[trigger] s[i])
}

/// The value of each digit character of `s`.
pub open spec fn digits_of(s: Seq<char>) -> Seq<u8> {
    Seq::new(s.len(), |i: int| (s[i] as int - '0' as int) as u8)
}

/// The number that the decimal digits `digits` write, most significant first.
pub open spec fn value_of(digits: Seq<u8>) -> nat
    decreases digits.len(),
{
    if digits.len() == 0 {
        0
    } else {
        value_of(digits.drop_last()) * 10 + digits.last() as nat
    }
}

/// Where the decimal point of `m` stands: at the first `.`, or at the end of
/// `m` where it holds none.
pub open spec fn point_of(m: Seq<char>) -> int {
    match m.index_of_first('.') {
        Some(k) => k,
        None => m.len() as int,
    }
}

/// The characters of `m` before its decimal point.
pub open spec fn whole_part(m: Seq<char>) -> Seq<char> {
    m.take(point_of(m))
}

/// The characters of `m` after its decimal point.
pub open spec fn fraction_part(m: Seq<char>) -> Seq<char> {
    if point_of(m) < m.len() {
        m.skip(point_of(m) + 1)
    } else {
        Seq::empty()
    }
}

/// Whether `m` is an unsigned decimal number: digits, with at most one
/// decimal point among them, and at least one digit.
pub open spec fn is_magnitude(m: Seq<char>) -> bool {
    &&& all_digits(whole_part(m))
    &&& all_digits(fraction_part(m))
    &&& whole_part(m).len() + fraction_part(m).len() > 0
}

/// An angle in decimal degrees as a number: its sign, its whole degrees and
/// the digits behind the decimal point.
pub struct Degrees {
    pub negative: bool,
    pub whole: nat,
    pub fraction: Seq<u8>,
}

impl Degrees {
    /// The magnitude, multiplied by ten to the number of fractional digits.
    pub open spec fn scaled(self) -> nat {
        self.whole * pow10(self.fraction.len()) + value_of(self.fraction)
    }

    /// Whether the fractional digits are digits and the magnitude is at most
    /// `limit` degrees.
    pub open spec fn within(self, limit: nat) -> bool {
        &&& forall|i: int| 0 <= i < self.fraction.len() ==> #[trigger] self.fraction[i] <= 9
        &&& self.scaled() <= limit * pow10(self.fraction.len())
    }
}

/// What a coordinate string means on `axis`: the magnitude before the
/// direction letter, made negative by `S` and `W`, or the reason why the
/// string is refused.
pub open spec fn degrees_of(text: Seq<char>, axis: Axis) -> Result<Degrees, CoordinateFault> {
    if text.len() == 0 {
        Err(CoordinateFault::Direction)
    } else {
        match Direction::of(text.last()) {
            None => Err(CoordinateFault::Direction),
            Some(direction) => {
                let m = text.drop_last();
                let degrees = Degrees {
                    negative: direction.negative(),
                    whole: value_of(digits_of(whole_part(m))),
                    fraction: digits_of(fraction_part(m)),
                };
                if direction.axis() != axis {
                    Err(CoordinateFault::Direction)
                } else if !is_magnitude(m) {
                    Err(CoordinateFault::Magnitude)
                } else if !degrees.within(axis.limit()) {
                    Err(CoordinateFault::Range)
                } else {
                    Ok(degrees)
                }
            },
        }
    }
}

/// Ten to any power is positive.
pub proof fn lemma_pow10_positive(n: nat)
    ensures
        pow10(n) > 0,
    decreases n,
{
    if n > 0 {
        lemma_pow10_positive((n - 1) as nat);
    }
}

/// One more digit at the end multiplies the number by ten and adds the digit.
pub proof fn lemma_value_push(digits: Seq<u8>, d: u8)
    ensures
        value_of(digits.push(d)) == value_of(digits) * 10 + d,
{
    assert(digits.push(d).drop_last() =~= digits);
}

/// A number of `n` decimal digits is below ten to the `n`.
pub proof fn lemma_value_bound(digits: Seq<u8>)
    requires
        forall|i: int| 0 <= i < digits.len() ==> #[trigger] digits[i] <= 9,
    ensures
        value_of(digits) < pow10(digits.len()),
    decreases digits.len(),
{
    if digits.len() > 0 {
        lemma_value_bound(digits.drop_last());
    }
}

/// A number is zero exactly when all its digits are.
pub proof fn lemma_value_zero(digits: Seq<u8>)
    ensures
        value_of(digits) == 0 <==> forall|i: int| 0 <= i < digits.len() ==> #[trigger] digits[i] == 0,
    decreases digits.len(),
{
    if digits.len() > 0 {
        let front = digits.drop_last();
        lemma_value_zero(front);
        if value_of(digits) == 0 {
            assert forall|i: int| 0 <= i < digits.len() implies #[trigger] digits[i] == 0 by {
                if i < front.len() {
                    assert(front[i] == 0);
                }
            }
        } else if value_of(front) != 0 {
            let i = choose|i: int| 0 <= i < front.len() && #[trigger] front[i] != 0;
            assert(digits[i] != 0);
        }
    }
}

/// A magnitude is within a limit exactly when its whole degrees are below
/// the limit, or reach it with nothing but zeros behind the point.
pub proof fn lemma_within(degrees: Degrees, limit: nat)
    requires
        forall|i: int| 0 <= i < degrees.fraction.len() ==> #[trigger] degrees.fraction[i] <= 9,
    ensures
        degrees.within(limit) <==> degrees.whole < limit || (degrees.whole == limit && value_of(
            degrees.fraction,
        ) == 0),
{
    let p = pow10(degrees.fraction.len());
    let v = value_of(degrees.fraction);
    let w = degrees.whole;
    lemma_pow10_positive(degrees.fraction.len());
    lemma_value_bound(degrees.fraction);
    if w < limit {
        assert((w + 1) * p <= limit * p) by (nonlinear_arith)
            requires
                w + 1 <= limit,
                p > 0,
        ;
        assert((w + 1) * p == w * p + p) by (nonlinear_arith);
    } else if w > limit {
        assert(w * p >= (limit + 1) * p) by (nonlinear_arith)
            requires
                w >= limit + 1,
                p > 0,
        ;
        assert((limit + 1) * p == limit * p + p) by (nonlinear_arith);
    }
}

/// An angle in decimal degrees, kept digit by digit: `whole` degrees and the
/// digits behind the decimal point, south and west being negative.
#[derive(Debug, Clone, PartialEq, Eq)]
pub struct Angle {
    pub negative: bool,
    pub whole: u8,
    pub fraction: Vec<u8>,
}

impl View for Angle {
    type V = Degrees;

    open spec fn view(&self) -> Degrees {
        Degrees { negative: self.negative, whole: self.whole as nat, fraction: self.fraction@ }
    }
}

/// Whether the outcome `r` of reading a coordinate string is `expected`.
pub open spec fn reads_as(
    r: Result<Angle, CoordinateFault>,
    expected: Result<Degrees, CoordinateFault>,
) -> bool {
    match (r, expected) {
        (Ok(angle), Ok(degrees)) => angle@ == degrees,
        (Err(fault), Err(other)) => fault == other,
        _ => false,
    }
}

/// What a whole number is counted up to: anything beyond is out of range on
/// either axis.
pub const WHOLE_CAP: u32 = 1000;

/// `value`, or the cap where it is larger.
pub open spec fn capped(value: nat) -> nat {
    if value < WHOLE_CAP {
        value
    } else {
        WHOLE_CAP as nat
    }
}

/// The place of the decimal point among the first `end` characters.
fn find_point(chars: &Vec<char>, end: usize) -> (point: usize)
    requires
        end <= chars.len(),
    ensures
        point <= end,
        point == point_of(chars@.take(end as int)),
{
    let ghost m = chars@.take(end as int);
    let mut point: usize = 0;
    while point < end && chars[point] != '.'
        invariant
            point <= end <= chars.len(),
            m == chars@.take(end as int),
            forall|j: int| 0 <= j < point ==> m[j] != '.',
        decreases end - point,
    {
        point += 1;
    }
    proof {
        m.index_of_first_ensures('.');
        if point < end {
            assert(m[point as int] == '.');
        }
    }
    point
}

/// The number that the characters from `from` up to `to` write, counted up
/// to the cap; `None` where one of them is no digit.
fn read_whole(chars: &Vec<char>, from: usize, to: usize) -> (r: Option<u32>)
    requires
        from <= to <= chars.len(),
    ensures
        r is Some <==> all_digits(chars@.subrange(from as int, to as int)),
        r is Some ==> r.unwrap() == capped(
            value_of(digits_of(chars@.subrange(from as int, to as int))),
        ),
{
    let ghost part = chars@.subrange(from as int, to as int);
    let mut whole: u32 = 0;
    let mut i: usize = from;
    while i < to
        invariant
            from <= i <= to <= chars.len(),
            part == chars@.subrange(from as int, to as int),
            all_digits(part.take(i - from)),
            whole == capped(value_of(digits_of(part.take(i - from)))),
        decreases to - i,
    {
        let c = chars[i];
        if !(c >= '0' && c <= '9') {
            assert(!is_digit(part[i - from]));
            return None;
        }
        let d: u32 = c as u32 - 48;
        proof {
            let before = part.take(i - from);
            let after = part.take(i - from + 1);
            assert(after =~= before.push(c));
            assert(digits_of(after) =~= digits_of(before).push(d as u8));
            lemma_value_push(digits_of(before), d as u8);
        }
        whole = if whole >= 100 {
            WHOLE_CAP
        } else {
            whole * 10 + d
        };
        i += 1;
    }
    assert(part.take(to - from) =~= part);
    Some(whole)
}

/// The digits that the characters from `from` up to `to` write; `None`
/// where one of them is no digit.
fn read_fraction(chars: &Vec<char>, from: usize, to: usize) -> (r: Option<Vec<u8>>)
    requires
        from <= to <= chars.len(),
    ensures
        r is Some <==> all_digits(chars@.subrange(from as int, to as int)),
        r is Some ==> r.unwrap()@ == digits_of(chars@.subrange(from as int, to as int)),
{
    let ghost part = chars@.subrange(from as int, to as int);
    let mut digits: Vec<u8> = Vec::new();
    let mut i: usize = from;
    while i < to
        invariant
            from <= i <= to <= chars.len(),
            part == chars@.subrange(from as int, to as int),
            all_digits(part.take(i - from)),
            digits@ == digits_of(part.take(i - from)),
        decreases to - i,
    {
        let c = chars[i];
        if !(c >= '0' && c <= '9') {
            assert(!is_digit(part[i - from]));
            return None;
        }
        let d: u32 = c as u32 - 48;
        proof {
            let before = part.take(i - from);
            let after = part.take(i - from + 1);
            assert(after =~= before.push(c));
            assert(digits_of(after) =~= digits_of(before).push(d as u8));
        }
        digits.push(d as u8);
        i += 1;
    }
    assert(part.take(to - from) =~= part);
    Some(digits)
}

/// Whether the digits write zero.
fn is_zero(digits: &Vec<u8>) -> (yes: bool)
    ensures
        yes == (value_of(digits@) == 0),
{
    let mut i: usize = 0;
    while i < digits.len()
        invariant
            i <= digits.len(),
            forall|j: int| 0 <= j < i ==> digits[j] == 0,
        decreases digits.len() - i,
    {
        if digits[i] != 0 {
            proof {
                lemma_value_zero(digits@);
            }
            return false;
        }
        i += 1;
    }
    proof {
        lemma_value_zero(digits@);
    }
    true
}

impl Axis {
    /// The largest magnitude, in whole degrees, that the axis allows.
    pub fn max_degrees(self) -> (limit: u32)
        ensures
            limit == self.limit(),
    {
        match self {
            Axis::Latitude => 90,
            Axis::Longitude => 180,
        }
    }
}

impl Angle {
    /// Reads a coordinate string of `axis`: an unsigned decimal number and
    /// the direction letter that gives its sign.
    pub fn parse(text: &str, axis: Axis) -> (r: Result<Angle, CoordinateFault>)
        ensures
            reads_as(r, degrees_of(text@, axis)),
    {
        let chars = chars_of(text);
        let n = chars.len();
        if n == 0 {
            return Err(CoordinateFault::Direction);
        }
        let direction = match Direction::from_letter(chars[n - 1]) {
            Some(direction) => direction,
            None => {
                return Err(CoordinateFault::Direction);
            },
        };
        if !direction.lies_on(axis) {
            return Err(CoordinateFault::Direction);
        }
        let end = n - 1;
        let ghost m = text@.drop_last();
        assert(m =~= chars@.take(end as int));
        let point = find_point(&chars, end);
        assert(whole_part(m) =~= chars@.subrange(0, point as int));
        let whole = match read_whole(&chars, 0, point) {
            Some(whole) => whole,
            None => {
                return Err(CoordinateFault::Magnitude);
            },
        };
        let fraction = if point < end {
            assert(fraction_part(m) =~= chars@.subrange(point + 1, end as int));
            match read_fraction(&chars, point + 1, end) {
                Some(fraction) => fraction,
                None => {
                    return Err(CoordinateFault::Magnitude);
                },
            }
        } else {
            Vec::new()
        };
        assert(fraction@ =~= digits_of(fraction_part(m)));
        if point == 0 && fraction.len() == 0 {
            return Err(CoordinateFault::Magnitude);
        }
        let limit = axis.max_degrees();
        let ghost degrees = Degrees {
            negative: direction.negative(),
            whole: value_of(digits_of(whole_part(m))),
            fraction: fraction@,
        };
        proof {
            lemma_within(degrees, axis.limit());
        }
        if whole > limit || (whole == limit && !is_zero(&fraction)) {
            return Err(CoordinateFault::Range);
        }
        Ok(Angle { negative: direction.is_negative(), whole: whole as u8, fraction })
    }
}

/// A position as two numbers: its latitude and its longitude.
pub struct Position {
    pub latitude: Degrees,
    pub longitude: Degrees,
}

impl Position {
    /// Whether the latitude is at most 90 degrees and the longitude at most
    /// 180 degrees, either way.
    pub open spec fn valid(self) -> bool {
        &&& self.latitude.within(Axis::Latitude.limit())
        &&& self.longitude.within(Axis::Longitude.limit())
    }
}

/// What a pair of coordinate strings means: the position they give, or the
/// error of the first string that is refused, the latitude coming first.
pub open spec fn position_of(latitude: Seq<char>, longitude: Seq<char>) -> Result<
    Position,
    HeliocronError,
> {
    match degrees_of(latitude, Axis::Latitude) {
        Err(fault) => Err(invalid_coordinate(Axis::Latitude, fault)),
        Ok(north) => match degrees_of(longitude, Axis::Longitude) {
            Err(fault) => Err(invalid_coordinate(Axis::Longitude, fault)),
            Ok(east) => Ok(Position { latitude: north, longitude: east }),
        },
    }
}

/// A geographic position in decimal degrees.
#[derive(Debug, Clone, PartialEq, Eq)]
pub struct Coordinates {
    pub latitude: Angle,
    pub longitude: Angle,
}

impl View for Coordinates {
    type V = Position;

    open spec fn view(&self) -> Position {
        Position { latitude: self.latitude@, longitude: self.longitude@ }
    }
}

/// Whether the outcome `r` of reading a pair of coordinate strings is
/// `expected`.
pub open spec fn locates(
    r: Result<Coordinates, HeliocronError>,
    expected: Result<Position, HeliocronError>,
) -> bool {
    match (r, expected) {
        (Ok(coordinates), Ok(position)) => coordinates@ == position,
        (Err(error), Err(other)) => error == other,
        _ => false,
    }
}

impl Coordinates {
    /// Whether the position lies on the globe.
    pub open spec fn wf(&self) -> bool {
        self@.valid()
    }

    /// Reads a latitude such as `51.4769N` and a longitude such as
    /// `0.0005W`.
    pub fn from_decimal_degrees(latitude: &str, longitude: &str) -> (r: Result<
        Coordinates,
        HeliocronError,
    >)
        ensures
            locates(r, position_of(latitude@, longitude@)),
            r is Ok ==> r.unwrap().wf(),
    {
        let north = match Angle::parse(latitude, Axis::Latitude) {
            Ok(angle) => angle,
            Err(fault) => {
                return Err(
                    HeliocronError::Config(
                        ConfigErrorKind::InvalidCoordinate(Axis::Latitude, fault),
                    ),
                );
            },
        };
        let east = match Angle::parse(longitude, Axis::Longitude) {
            Ok(angle) => angle,
            Err(fault) => {
                return Err(
                    HeliocronError::Config(
                        ConfigErrorKind::InvalidCoordinate(Axis::Longitude, fault),
                    ),
                );
            },
        };
        Ok(Coordinates { latitude: north, longitude: east })
    }
}

/// The digits `a` followed by the digits `b` write the number of `a`, moved
/// left by the length of `b`, plus the number of `b`.
pub proof fn lemma_value_concat(a: Seq<u8>, b: Seq<u8>)
    ensures
        value_of(a + b) == value_of(a) * pow10(b.len()) + value_of(b),
    decreases b.len(),
{
    if b.len() == 0 {
        assert(a + b =~= a);
        assert(value_of(a) * 1 == value_of(a)) by (nonlinear_arith);
    } else {
        let front = b.drop_last();
        lemma_value_concat(a, front);
        assert((a + b).drop_last() =~= a + front);
        let shifted = value_of(a) * pow10(front.len());
        assert(value_of(a) * pow10(b.len()) == shifted * 10) by (nonlinear_arith)
            requires
                pow10(b.len()) == 10 * pow10(front.len()),
                shifted == value_of(a) * pow10(front.len()),
        ;
    }
}

/// A string that ends in a direction letter of its axis, after an unsigned
/// decimal number that is in range, is accepted: the result is negative
/// exactly for south and west, and its magnitude is the number as written.
pub proof fn lemma_sign_and_magnitude(text: Seq<char>, axis: Axis, direction: Direction)
    requires
        text.len() > 0,
        Direction::of(text.last()) == Some(direction),
        direction.axis() == axis,
        is_magnitude(text.drop_last()),
        value_of(digits_of(whole_part(text.drop_last()) + fraction_part(text.drop_last())))
            <= axis.limit() * pow10(fraction_part(text.drop_last()).len()),
    ensures
        degrees_of(text, axis) is Ok,
        degrees_of(text, axis).unwrap().negative <==> (direction is South || direction is West),
        degrees_of(text, axis).unwrap().fraction.len() == fraction_part(text.drop_last()).len(),
        degrees_of(text, axis).unwrap().scaled() == value_of(
            digits_of(whole_part(text.drop_last()) + fraction_part(text.drop_last())),
        ),
{
    let m = text.drop_last();
    let whole = digits_of(whole_part(m));
    let fraction = digits_of(fraction_part(m));
    assert(digits_of(whole_part(m) + fraction_part(m)) =~= whole + fraction);
    lemma_value_concat(whole, fraction);
}

} // verus!
