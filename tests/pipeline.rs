use prep_pipeline::food::Food;
use prep_pipeline::kitchen::{Dish, KitchenError, NothingDelivered, Prep, PrepError, Step};
use prep_pipeline::pipeline::{run, run_counted, run_fallible};

#[test]
fn present_apple_is_cooked() {
    let stages = vec![Step::Peel, Step::Chop, Step::Cook];
    let r = run(Some(Dish::raw(Food::Apple)), &stages);
    let d = r.unwrap();
    assert_eq!(d, Dish { food: Food::Apple, prep: Prep::Cooked });
    assert_eq!(d.describe(), "Cooked(Apple)");
}

#[test]
fn all_stages_invoked_when_all_succeed() {
    let stages = vec![Step::Peel, Step::Chop, Step::Cook];
    let (r, calls) = run_counted(Some(Dish::raw(Food::Carrot)), &stages);
    assert_eq!(r, Some(Dish { food: Food::Carrot, prep: Prep::Cooked }));
    assert_eq!(calls, 3);
}

#[test]
fn sushi_is_rejected_and_later_stages_skipped() {
    let stages = vec![Step::CheckIngredients, Step::CanCook, Step::Cook];
    let (r, calls) = run_counted(Some(Dish::raw(Food::Sushi)), &stages);
    assert_eq!(r, None);
    assert_eq!(calls, 1);
    assert_eq!(run(Some(Dish::raw(Food::Sushi)), &stages), None);
}

#[test]
fn rejection_at_second_stage_stops_there() {
    let stages = vec![Step::CheckIngredients, Step::CanCook, Step::Peel, Step::Chop];
    let (r, calls) = run_counted(Some(Dish::raw(Food::CordonBleu)), &stages);
    assert_eq!(r, None);
    assert_eq!(calls, 2);
}

#[test]
fn absent_input_invokes_nothing() {
    let stages = vec![Step::Peel, Step::Chop, Step::Cook];
    let (r, calls) = run_counted(None, &stages);
    assert_eq!(r, None);
    assert_eq!(calls, 0);
    let none: Vec<Step> = Vec::new();
    assert_eq!(run(None, &none), None);
}

#[test]
fn no_stages_is_identity() {
    let none: Vec<Step> = Vec::new();
    let d = Dish::raw(Food::Potato);
    assert_eq!(run(Some(d), &none), Some(d));
    let (r, calls) = run_counted(Some(d), &none);
    assert_eq!(r, Some(d));
    assert_eq!(calls, 0);
}

#[test]
fn running_in_two_parts_is_running_the_whole() {
    let d = Dish::raw(Food::Steak);
    let whole = run(Some(d), &vec![Step::Peel, Step::Chop]);
    let halfway = run(Some(d), &vec![Step::Peel]);
    assert_eq!(run(halfway, &vec![Step::Chop]), whole);
    assert_eq!(whole, Some(Dish { food: Food::Steak, prep: Prep::Chopped }));
}

#[test]
fn stage_out_of_order_rejects() {
    let r = run(Some(Dish::raw(Food::Apple)), &vec![Step::Cook]);
    assert_eq!(r, None);
    let r = run(Some(Dish::raw(Food::Apple)), &vec![Step::Peel, Step::Peel]);
    assert_eq!(r, None);
}

#[test]
fn fallible_run_succeeds() {
    let stages = vec![Step::CheckIngredients, Step::CanCook, Step::Peel, Step::Chop, Step::Cook];
    let r: Result<Dish, KitchenError> =
        run_fallible(Ok::<Dish, NothingDelivered>(Dish::raw(Food::Steak)), &stages);
    assert_eq!(r, Ok(Dish { food: Food::Steak, prep: Prep::Cooked }));
}

#[test]
fn first_error_wins() {
    let stages = vec![Step::Chop, Step::Cook];
    let r: Result<Dish, KitchenError> =
        run_fallible(Ok::<Dish, NothingDelivered>(Dish::raw(Food::Apple)), &stages);
    assert_eq!(r, Err(KitchenError::Prep(PrepError::OutOfOrder(Step::Chop, Prep::Raw))));
}

#[test]
fn fallible_checks_report_their_reason() {
    let stages = vec![Step::CheckIngredients, Step::CanCook];
    let r: Result<Dish, KitchenError> =
        run_fallible(Ok::<Dish, NothingDelivered>(Dish::raw(Food::Sushi)), &stages);
    assert_eq!(r, Err(KitchenError::Prep(PrepError::MissingIngredients(Food::Sushi))));
    let r: Result<Dish, KitchenError> =
        run_fallible(Ok::<Dish, NothingDelivered>(Dish::raw(Food::CordonBleu)), &stages);
    assert_eq!(r, Err(KitchenError::Prep(PrepError::CannotCook(Food::CordonBleu))));
}

#[test]
fn fallible_input_error_is_converted() {
    let stages = vec![Step::Peel];
    let r: Result<Dish, KitchenError> = run_fallible(Err::<Dish, NothingDelivered>(NothingDelivered), &stages);
    assert_eq!(r, Err(KitchenError::NothingDelivered));
}

#[test]
fn step_perform_reports_state() {
    let d = Dish { food: Food::Potato, prep: Prep::Peeled };
    assert_eq!(Step::Chop.perform(d), Ok(Dish { food: Food::Potato, prep: Prep::Chopped }));
    assert_eq!(Step::Peel.perform(d), Err(PrepError::OutOfOrder(Step::Peel, Prep::Peeled)));
    assert_eq!(Step::CheckIngredients.perform(d), Ok(d));
}

#[test]
fn dish_text_for_each_state() {
    assert_eq!(Dish::raw(Food::Apple).describe(), "Apple");
    assert_eq!(Dish { food: Food::Carrot, prep: Prep::Peeled }.describe(), "Peeled(Carrot)");
    assert_eq!(Dish { food: Food::CordonBleu, prep: Prep::Chopped }.describe(), "Chopped(CordonBleu)");
    assert_eq!(Dish { food: Food::Sushi, prep: Prep::Cooked }.describe(), "Cooked(Sushi)");
}
