use vstd::prelude::*;

verus! {

/// The foods this kitchen knows.
#[derive(Clone, Copy, Debug, PartialEq, Eq, Structural)]
pub enum Food {
    Apple,
    Carrot,
    Potato,
    CordonBleu,
    Steak,
    Sushi,
}

/// The name of a food, as it is written.
pub open spec fn food_name(food: Food) -> Seq<char> {
    match food {
        Food::Apple => "Apple"@,
        Food::Carrot => "Carrot"@,
        Food::Potato => "Potato"@,
        Food::CordonBleu => "CordonBleu"@,
        Food::Steak => "Steak"@,
        Food::Sushi => "Sushi"@,
    }
}

impl Food {
    /// The name of this food.
    pub fn name(&self) -> (r: &'static str)
        ensures
            r@ == food_name(*self),
    {
        match self {
            Food::Apple => "Apple",
            Food::Carrot => "Carrot",
            Food::Potato => "Potato",
            Food::CordonBleu => "CordonBleu",
            Food::Steak => "Steak",
            Food::Sushi => "Sushi",
        }
    }
}

/// A food that has been peeled.
#[derive(Debug)]
pub struct Peeled(pub Food);

/// A food that has been peeled and chopped.
#[derive(Debug)]
pub struct Chopped(pub Food);

/// A food that has been peeled, chopped and cooked.
#[derive(Debug)]
pub struct Cooked(pub Food);

/// Whether the ingredients for `food` are at hand: all but sushi.
pub open spec fn has_ingredients_for(food: Food) -> bool {
    food != Food::Sushi
}

/// Whether the cook knows how to make `food`: all but cordon bleu.
pub open spec fn knows_how_to_cook(food: Food) -> bool {
    food != Food::CordonBleu
}

/// Peels a food, if there is one.
pub fn peel(food: Option<Food>) -> (r: Option<Peeled>)
    ensures
        r == (match food {
            Some(f) => Some(Peeled(f)),
            None => None,
        }),
{
    match food {
        Some(food) => Some(Peeled(food)),
        None => None,
    }
}

/// Chops a peeled food, if there is one.
pub fn chop(peeled: Option<Peeled>) -> (r: Option<Chopped>)
    ensures
        r == (match peeled {
            Some(p) => Some(Chopped(p.0)),
            None => None,
        }),
{
    match peeled {
        Some(Peeled(food)) => Some(Chopped(food)),
        None => None,
    }
}

/// Cooks a chopped food, if there is one.
pub fn cook(chopped: Option<Chopped>) -> (r: Option<Cooked>)
    ensures
        r == (match chopped {
            Some(c) => Some(Cooked(c.0)),
            None => None,
        }),
{
    chopped.map(|c: Chopped| -> (k: Cooked)
        ensures
            k == Cooked(c.0),
        { Cooked(c.0) })
}

/// Peels, chops and cooks a food in one chain, if there is one.
pub fn process(food: Option<Food>) -> (r: Option<Cooked>)
    ensures
        r == (match food {
            Some(f) => Some(Cooked(f)),
            None => None,
        }),
{
    food.map(|f: Food| -> (p: Peeled)
        ensures
            p == Peeled(f),
        { Peeled(f) }).map(|p: Peeled| -> (c: Chopped)
        ensures
            c == Chopped(p.0),
        { Chopped(p.0) }).map(|c: Chopped| -> (k: Cooked)
        ensures
            k == Cooked(c.0),
        { Cooked(c.0) })
}

/// Hands `food` back when its ingredients are at hand.
pub fn have_ingredients(food: Food) -> (r: Option<Food>)
    ensures
        r == (if has_ingredients_for(food) {
            Some(food)
        } else {
            None
        }),
{
    match food {
        Food::Sushi => None,
        _ => Some(food),
    }
}

/// Hands `food` back when the cook knows how to make it.
pub fn can_cook(food: Food) -> (r: Option<Food>)
    ensures
        r == (if knows_how_to_cook(food) {
            Some(food)
        } else {
            None
        }),
{
    match food {
        Food::CordonBleu => None,
        _ => Some(food),
    }
}

/// Hands `food` back when it can be made: its ingredients are at hand and
/// the cook knows how to make it. Written as nested matches.
pub fn cookable_v1(food: Food) -> (r: Option<Food>)
    ensures
        r == (if has_ingredients_for(food) && knows_how_to_cook(food) {
            Some(food)
        } else {
            None
        }),
{
    match have_ingredients(food) {
        None => None,
        Some(food) => match can_cook(food) {
            None => None,
            Some(food) => Some(food),
        },
    }
}

/// The same decision as `cookable_v1`, written as one chain.
pub fn cookable_v2(food: Food) -> (r: Option<Food>)
    ensures
        r == (if has_ingredients_for(food) && knows_how_to_cook(food) {
            Some(food)
        } else {
            None
        }),
{
    have_ingredients(food).and_then(can_cook)
}

} // verus!
