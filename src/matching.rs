use vstd::prelude::*;
use vstd::string::StringExecFns;

verus! {

/// An age, as given.
pub fn age(r: u32) -> (a: u32)
    ensures
        a == r,
{
    r
}

/// The stage of life of a person of a given age.
#[derive(Clone, Copy, Debug, PartialEq, Eq, Structural)]
pub enum LifeStage {
    /// Age 0.
    Unborn,
    /// Ages 1 to 12.
    Child,
    /// Ages 13 to 19.
    Teen,
    /// Age 20 and over.
    Old,
}

/// The stage of life of a person aged `d`.
pub fn life_stage(d: u32) -> (s: LifeStage)
    ensures
        s == (if d == 0 {
            LifeStage::Unborn
        } else if d <= 12 {
            LifeStage::Child
        } else if d <= 19 {
            LifeStage::Teen
        } else {
            LifeStage::Old
        }),
{
    match age(d) {
        0 => LifeStage::Unborn,
        1..=12 => LifeStage::Child,
        13..=19 => LifeStage::Teen,
        _ => LifeStage::Old,
    }
}

/// What is special about a number.
#[derive(Clone, Copy, Debug, PartialEq, Eq, Structural)]
pub enum NumberKind {
    /// The number 1.
    One,
    /// One of the primes 2, 3, 5, 7 and 11.
    SmallPrime,
    /// One of 13 to 19.
    Teen,
    /// Anything else.
    Ordinary,
}

/// What is special about `number`.
pub fn number_kind(number: i32) -> (k: NumberKind)
    ensures
        k == (if number == 1 {
            NumberKind::One
        } else if number == 2 || number == 3 || number == 5 || number == 7 || number == 11 {
            NumberKind::SmallPrime
        } else if 13 <= number <= 19 {
            NumberKind::Teen
        } else {
            NumberKind::Ordinary
        }),
{
    match number {
        1 => NumberKind::One,
        2 | 3 | 5 | 7 | 11 => NumberKind::SmallPrime,
        13..=19 => NumberKind::Teen,
        _ => NumberKind::Ordinary,
    }
}

/// Where a pair has a zero, the first place looked at winning.
#[derive(Clone, Copy, Debug, PartialEq, Eq, Structural)]
pub enum ZeroPlace {
    /// The first is zero; the second is carried.
    First(i32),
    /// The first is not zero, the second is; the first is carried.
    Last(i32),
    /// Neither is zero.
    Neither,
}

/// Where `pair` has a zero.
pub fn zero_place(pair: (i32, i32)) -> (z: ZeroPlace)
    ensures
        z == (if pair.0 == 0 {
            ZeroPlace::First(pair.1)
        } else if pair.1 == 0 {
            ZeroPlace::Last(pair.0)
        } else {
            ZeroPlace::Neither
        }),
{
    match pair {
        (0, y) => ZeroPlace::First(y),
        (x, 0) => ZeroPlace::Last(x),
        _ => ZeroPlace::Neither,
    }
}

/// How the two numbers of a pair relate, the first rule that applies winning.
#[derive(Clone, Copy, Debug, PartialEq, Eq, Structural)]
pub enum PairRelation {
    /// The two are equal.
    Twins,
    /// They add up to zero.
    Antimatter,
    /// The first is a positive odd number.
    FirstOdd,
    /// None of these.
    Unrelated,
}

/// How the two numbers of `pair` relate. The sum is taken exactly, so that
/// no pair overflows.
pub fn pair_relation(pair: (i32, i32)) -> (r: PairRelation)
    ensures
        r == (if pair.0 == pair.1 {
            PairRelation::Twins
        } else if pair.0 + pair.1 == 0 {
            PairRelation::Antimatter
        } else if pair.0 >= 0 && pair.0 % 2 == 1 {
            PairRelation::FirstOdd
        } else {
            PairRelation::Unrelated
        }),
{
    let (x, y) = pair;
    if x == y {
        PairRelation::Twins
    } else if (x as i64) + (y as i64) == 0 {
        PairRelation::Antimatter
    } else if x >= 0 && (x as u32) % 2 == 1 {
        PairRelation::FirstOdd
    } else {
        PairRelation::Unrelated
    }
}

/// How someone takes a gift.
#[derive(Clone, Copy, Debug, PartialEq, Eq, Structural)]
pub enum Reaction {
    /// The gift is a snake.
    Disgusted,
    /// Any other gift.
    Pleased,
    /// There is no gift.
    Disappointed,
}

/// How a commoner takes `gift`.
pub fn commoner_reaction(gift: Option<&str>) -> (r: Reaction)
    ensures
        r == (match gift {
            Some(g) => if g@ == "snake"@ {
                Reaction::Disgusted
            } else {
                Reaction::Pleased
            },
            None => Reaction::Disappointed,
        }),
{
    match gift {
        Some(inner) => {
            if String::from_str(inner) == String::from_str("snake") {
                Reaction::Disgusted
            } else {
                Reaction::Pleased
            }
        },
        None => Reaction::Disappointed,
    }
}

} // verus!
