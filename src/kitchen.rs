use vstd::prelude::*;
use vstd::std_specs::convert::FromSpecImpl;
use vstd::string::StringExecFns;
use crate::food::{Food, food_name, has_ingredients_for, knows_how_to_cook};
use crate::pipeline::{Stage, FallibleStage};

verus! {

/// How far a dish has been prepared.
#[derive(Clone, Copy, Debug, PartialEq, Eq, Structural)]
pub enum Prep {
    Raw,
    Peeled,
    Chopped,
    Cooked,
}

/// A food and how far it has been prepared.
#[derive(Clone, Copy, Debug, PartialEq, Eq, Structural)]
pub struct Dish {
    pub food: Food,
    pub prep: Prep,
}

/// One step of the kitchen. Peeling, chopping and cooking each take the dish
/// one state further and apply only to a dish in the state before; the two
/// checks hand the dish back unchanged or turn it away.
#[derive(Clone, Copy, Debug, PartialEq, Eq, Structural)]
pub enum Step {
    Peel,
    Chop,
    Cook,
    CheckIngredients,
    CanCook,
}

/// Why a step turned a dish away.
#[derive(Clone, Copy, Debug, PartialEq, Eq, Structural)]
pub enum PrepError {
    /// The ingredients for this food are not at hand.
    MissingIngredients(Food),
    /// The cook does not know how to make this food.
    CannotCook(Food),
    /// The step does not apply to a dish in this state.
    OutOfOrder(Step, Prep),
}

/// No food was delivered to start from.
#[derive(Clone, Copy, Debug, PartialEq, Eq, Structural)]
pub struct NothingDelivered;

/// The one error a run through the kitchen reports.
#[derive(Clone, Copy, Debug, PartialEq, Eq, Structural)]
pub enum KitchenError {
    NothingDelivered,
    Prep(PrepError),
}

/// The text of a dish: the food's name, wrapped in the name of its state
/// once it has been prepared (`Cooked(Apple)`).
pub open spec fn dish_text(d: Dish) -> Seq<char> {
    match d.prep {
        Prep::Raw => food_name(d.food),
        Prep::Peeled => "Peeled("@ + food_name(d.food) + ")"@,
        Prep::Chopped => "Chopped("@ + food_name(d.food) + ")"@,
        Prep::Cooked => "Cooked("@ + food_name(d.food) + ")"@,
    }
}

impl Dish {
    /// A food as it comes, not yet prepared.
    pub fn raw(food: Food) -> (r: Dish)
        ensures
            r == (Dish { food, prep: Prep::Raw }),
    {
        Dish { food, prep: Prep::Raw }
    }

    /// The text of this dish.
    pub fn describe(&self) -> (r: String)
        ensures
            r@ == dish_text(*self),
    {
        let name = self.food.name();
        let state = match self.prep {
            Prep::Raw => {
                return String::from_str(name);
            },
            Prep::Peeled => "Peeled(",
            Prep::Chopped => "Chopped(",
            Prep::Cooked => "Cooked(",
        };
        String::from_str(state).concat(name).concat(")")
    }
}

/// The state that `step` takes a dish from, and the state it leaves it in,
/// for the three steps that prepare.
pub open spec fn advances(step: Step) -> Option<(Prep, Prep)> {
    match step {
        Step::Peel => Some((Prep::Raw, Prep::Peeled)),
        Step::Chop => Some((Prep::Peeled, Prep::Chopped)),
        Step::Cook => Some((Prep::Chopped, Prep::Cooked)),
        _ => None,
    }
}

/// What `step` does to `d`.
pub open spec fn step_result(step: Step, d: Dish) -> Result<Dish, PrepError> {
    match step {
        Step::CheckIngredients => if has_ingredients_for(d.food) {
            Ok(d)
        } else {
            Err(PrepError::MissingIngredients(d.food))
        },
        Step::CanCook => if knows_how_to_cook(d.food) {
            Ok(d)
        } else {
            Err(PrepError::CannotCook(d.food))
        },
        _ => {
            let (from, to) = advances(step)->Some_0;
            if d.prep == from {
                Ok(Dish { food: d.food, prep: to })
            } else {
                Err(PrepError::OutOfOrder(step, d.prep))
            }
        },
    }
}

impl Step {
    /// Applies this step to `d`, saying why when it turns `d` away.
    pub fn perform(&self, d: Dish) -> (r: Result<Dish, PrepError>)
        ensures
            r == step_result(*self, d),
    {
        match self {
            Step::CheckIngredients => match crate::food::have_ingredients(d.food) {
                Some(_) => Ok(d),
                None => Err(PrepError::MissingIngredients(d.food)),
            },
            Step::CanCook => match crate::food::can_cook(d.food) {
                Some(_) => Ok(d),
                None => Err(PrepError::CannotCook(d.food)),
            },
            Step::Peel => Self::advance(Step::Peel, d, Prep::Raw, Prep::Peeled),
            Step::Chop => Self::advance(Step::Chop, d, Prep::Peeled, Prep::Chopped),
            Step::Cook => Self::advance(Step::Cook, d, Prep::Chopped, Prep::Cooked),
        }
    }

    fn advance(step: Step, d: Dish, from: Prep, to: Prep) -> (r: Result<Dish, PrepError>)
        ensures
            r == (if d.prep == from {
                Ok(Dish { food: d.food, prep: to })
            } else {
                Err(PrepError::OutOfOrder(step, d.prep))
            }),
    {
        if d.prep == from {
            Ok(Dish { food: d.food, prep: to })
        } else {
            Err(PrepError::OutOfOrder(step, d.prep))
        }
    }
}

impl Stage<Dish> for Step {
    open spec fn outcome(&self, x: Dish) -> Option<Dish> {
        match step_result(*self, x) {
            Ok(d) => Some(d),
            Err(_) => None,
        }
    }

    fn apply(&self, x: Dish) -> (r: Option<Dish>) {
        match self.perform(x) {
            Ok(d) => Some(d),
            Err(_) => None,
        }
    }
}

impl FallibleStage<Dish, PrepError> for Step {
    open spec fn outcome(&self, x: Dish) -> Result<Dish, PrepError> {
        step_result(*self, x)
    }

    fn apply(&self, x: Dish) -> (r: Result<Dish, PrepError>) {
        self.perform(x)
    }
}

impl From<PrepError> for KitchenError {
    fn from(e: PrepError) -> (r: KitchenError) {
        KitchenError::Prep(e)
    }
}

impl FromSpecImpl<PrepError> for KitchenError {
    open spec fn obeys_from_spec() -> bool {
        true
    }

    open spec fn from_spec(e: PrepError) -> KitchenError {
        KitchenError::Prep(e)
    }
}

impl From<NothingDelivered> for KitchenError {
    fn from(e: NothingDelivered) -> (r: KitchenError) {
        KitchenError::NothingDelivered
    }
}

impl FromSpecImpl<NothingDelivered> for KitchenError {
    open spec fn obeys_from_spec() -> bool {
        true
    }

    open spec fn from_spec(e: NothingDelivered) -> KitchenError {
        KitchenError::NothingDelivered
    }
}

} // verus!
