use vstd::prelude::*;
use vstd::std_specs::convert::FromSpec;

verus! {

/// A transform-or-reject step: it takes an item and hands back either the
/// transformed item or a rejection.
pub trait Stage<T>: Sized {
    /// What applying this stage to `x` yields: `Some` with the transformed
    /// item, or `None` when the stage rejects `x`.
    spec fn outcome(&self, x: T) -> Option<T>;

    fn apply(&self, x: T) -> (r: Option<T>)
        ensures
            r == self.outcome(x),
    ;
}

/// The outcome of feeding `input` through `stages` in order: absence is
/// passed on, a present item goes into the next stage.
pub open spec fn run_spec<T, S: Stage<T>>(input: Option<T>, stages: Seq<S>) -> Option<T>
    decreases stages.len(),
{
    if stages.len() == 0 {
        input
    } else {
        match run_spec(input, stages.drop_last()) {
            Some(x) => stages.last().outcome(x),
            None => None,
        }
    }
}

/// How many stages such a run invokes: a stage is invoked only on a present item.
pub open spec fn invoked<T, S: Stage<T>>(input: Option<T>, stages: Seq<S>) -> nat
    decreases stages.len(),
{
    if stages.len() == 0 {
        0
    } else {
        let before = invoked(input, stages.drop_last());
        if run_spec(input, stages.drop_last()) is Some {
            before + 1
        } else {
            before
        }
    }
}

/// Once a prefix of the stages has produced absence, the rest of the run
/// neither changes the outcome nor invokes another stage.
proof fn lemma_absent_prefix<T, S: Stage<T>>(input: Option<T>, stages: Seq<S>, i: int)
    requires
        0 <= i <= stages.len(),
        run_spec(input, stages.take(i)) is None,
    ensures
        run_spec(input, stages) is None,
        invoked(input, stages) == invoked(input, stages.take(i)),
    decreases stages.len() - i,
{
    if i < stages.len() {
        assert(stages.take(i + 1).drop_last() =~= stages.take(i));
        lemma_absent_prefix(input, stages, i + 1);
    } else {
        assert(stages.take(i) =~= stages);
    }
}

/// Runs `input` through `stages` in order and also reports how many stages
/// were invoked.
pub fn run_counted<T, S: Stage<T>>(input: Option<T>, stages: &Vec<S>) -> (r: (Option<T>, usize))
    ensures
        r.0 == run_spec(input, stages@),
        r.1 == invoked(input, stages@),
{
    let ghost start = input;
    if input.is_none() {
        proof {
            lemma_absent_prefix(start, stages@, 0);
        }
        return (None, 0);
    }
    let mut current = input;
    let mut calls: usize = 0;
    let mut i: usize = 0;
    loop
        invariant_except_break
            current is Some,
        invariant
            i <= stages.len(),
            calls <= i,
            current == run_spec(start, stages@.take(i as int)),
            calls == invoked(start, stages@.take(i as int)),
        ensures
            current is Some ==> i == stages.len(),
        decreases stages.len() - i,
    {
        if i >= stages.len() {
            break;
        }
        assert(stages@.take(i + 1).drop_last() =~= stages@.take(i as int));
        let x = current.unwrap();
        current = stages[i].apply(x);
        calls = calls + 1;
        i = i + 1;
        if current.is_none() {
            break;
        }
    }
    proof {
        if current is None {
            lemma_absent_prefix(start, stages@, i as int);
        } else {
            assert(stages@.take(i as int) =~= stages@);
        }
    }
    (current, calls)
}

/// Runs `input` through `stages` in order. Absence, given or produced by a
/// stage, ends the run: no later stage is invoked.
pub fn run<T, S: Stage<T>>(input: Option<T>, stages: &Vec<S>) -> (r: Option<T>)
    ensures
        r == run_spec(input, stages@),
{
    run_counted(input, stages).0
}

/// A transform-or-fail step: it takes an item and hands back either the
/// transformed item or an error of type `F` that says why it failed.
pub trait FallibleStage<T, F>: Sized {
    /// What applying this stage to `x` yields.
    spec fn outcome(&self, x: T) -> Result<T, F>;

    fn apply(&self, x: T) -> (r: Result<T, F>)
        ensures
            r == self.outcome(x),
    ;
}

/// The outcome of feeding `input` through fallible `stages` in order. An
/// error of the input or of a stage is converted into `E` where it arises,
/// and then passed on untouched.
pub open spec fn run_fallible_spec<T, E0, F, E: From<E0> + From<F>, S: FallibleStage<T, F>>(
    input: Result<T, E0>,
    stages: Seq<S>,
) -> Result<T, E>
    decreases stages.len(),
{
    if stages.len() == 0 {
        match input {
            Ok(x) => Ok(x),
            Err(e) => Err(<E as FromSpec<E0>>::from_spec(e)),
        }
    } else {
        match run_fallible_spec::<T, E0, F, E, S>(input, stages.drop_last()) {
            Ok(x) => match stages.last().outcome(x) {
                Ok(y) => Ok(y),
                Err(f) => Err(<E as FromSpec<F>>::from_spec(f)),
            },
            Err(e) => Err(e),
        }
    }
}

/// Runs `input` through fallible `stages` in order. The first error, of the
/// input or of a stage, ends the run and is reported converted into `E`; no
/// later stage is invoked.
pub fn run_fallible<T, E0, F, E: From<E0> + From<F>, S: FallibleStage<T, F>>(
    input: Result<T, E0>,
    stages: &Vec<S>,
) -> (r: Result<T, E>)
    requires
        <E as FromSpec<E0>>::obeys_from_spec(),
        <E as FromSpec<F>>::obeys_from_spec(),
    ensures
        r == run_fallible_spec::<T, E0, F, E, S>(input, stages@),
{
    let mut current: T = match input {
        Ok(x) => x,
        Err(e) => {
            proof {
                lemma_failed_prefix::<T, E0, F, E, S>(input, stages@, 0);
            }
            return Err(<E as From<E0>>::from(e));
        },
    };
    let mut i: usize = 0;
    while i < stages.len()
        invariant
            <E as FromSpec<F>>::obeys_from_spec(),
            i <= stages.len(),
            run_fallible_spec::<T, E0, F, E, S>(input, stages@.take(i as int)) == Ok::<T, E>(
                current,
            ),
        decreases stages.len() - i,
    {
        assert(stages@.take(i + 1).drop_last() =~= stages@.take(i as int));
        match stages[i].apply(current) {
            Ok(y) => {
                current = y;
            },
            Err(f) => {
                proof {
                    assert(run_fallible_spec::<T, E0, F, E, S>(input, stages@.take(i + 1))
                        == Err::<T, E>(<E as FromSpec<F>>::from_spec(f)));
                    lemma_failed_prefix::<T, E0, F, E, S>(input, stages@, i + 1);
                }
                let e = <E as From<F>>::from(f);
                return Err(e);
            },
        }
        i = i + 1;
    }
    assert(stages@.take(i as int) =~= stages@);
    Ok(current)
}

/// Once a prefix of the fallible stages has failed, the rest of the run
/// keeps that error.
proof fn lemma_failed_prefix<T, E0, F, E: From<E0> + From<F>, S: FallibleStage<T, F>>(
    input: Result<T, E0>,
    stages: Seq<S>,
    i: int,
)
    requires
        0 <= i <= stages.len(),
        run_fallible_spec::<T, E0, F, E, S>(input, stages.take(i)) is Err,
    ensures
        run_fallible_spec::<T, E0, F, E, S>(input, stages) == run_fallible_spec::<
            T,
            E0,
            F,
            E,
            S,
        >(input, stages.take(i)),
    decreases stages.len() - i,
{
    if i < stages.len() {
        assert(stages.take(i + 1).drop_last() =~= stages.take(i));
        lemma_failed_prefix::<T, E0, F, E, S>(input, stages, i + 1);
    } else {
        assert(stages.take(i) =~= stages);
    }
}

/// An absent input stays absent through any list of stages, and no stage is
/// invoked.
pub proof fn lemma_absent_input<T, S: Stage<T>>(stages: Seq<S>)
    ensures
        run_spec(None::<T>, stages) is None,
        invoked(None::<T>, stages) == 0,
{
    lemma_absent_prefix(None::<T>, stages, 0);
}

/// A run that comes out present has invoked every stage.
proof fn lemma_present_invokes_all<T, S: Stage<T>>(x: T, stages: Seq<S>)
    requires
        run_spec(Some(x), stages) is Some,
    ensures
        invoked(Some(x), stages) == stages.len(),
    decreases stages.len(),
{
    if stages.len() > 0 {
        lemma_present_invokes_all(x, stages.drop_last());
    }
}

/// When the stages before position `k` all succeed on `x` and the stage at
/// `k` rejects what they produced, the run is absent and exactly the first
/// `k + 1` stages were invoked: none after the rejecting one.
pub proof fn lemma_rejection_stops<T, S: Stage<T>>(x: T, stages: Seq<S>, k: int)
    requires
        0 <= k < stages.len(),
        run_spec(Some(x), stages.take(k)) is Some,
        stages[k].outcome(run_spec(Some(x), stages.take(k))->Some_0) is None,
    ensures
        run_spec(Some(x), stages) is None,
        invoked(Some(x), stages) == k + 1,
{
    assert(stages.take(k + 1).drop_last() =~= stages.take(k));
    lemma_present_invokes_all(x, stages.take(k));
    lemma_absent_prefix(Some(x), stages, k + 1);
}

/// With no stages, a present input comes out unchanged.
pub proof fn lemma_identity<T, S: Stage<T>>(x: T)
    ensures
        run_spec(Some(x), Seq::<S>::empty()) == Some(x),
{
}

/// Running `first` and then `second` is running their concatenation.
pub proof fn lemma_composition<T, S: Stage<T>>(input: Option<T>, first: Seq<S>, second: Seq<S>)
    ensures
        run_spec(input, first + second) == run_spec(run_spec(input, first), second),
    decreases second.len(),
{
    if second.len() == 0 {
        assert(first + second =~= first);
    } else {
        assert((first + second).drop_last() =~= first + second.drop_last());
        lemma_composition(input, first, second.drop_last());
    }
}

/// An input that is already an error comes out as that error converted,
/// whatever the stages would do.
pub proof fn lemma_input_error_passes<T, E0, F, E: From<E0> + From<F>, S: FallibleStage<T, F>>(
    e: E0,
    stages: Seq<S>,
)
    ensures
        run_fallible_spec::<T, E0, F, E, S>(Err(e), stages) == Err::<T, E>(
            <E as FromSpec<E0>>::from_spec(e),
        ),
{
    lemma_failed_prefix::<T, E0, F, E, S>(Err(e), stages, 0);
}

/// When the fallible stages before position `k` all succeed on `x` and the
/// stage at `k` fails with `f`, the run fails with `f` converted, whatever the
/// later stages would do.
pub proof fn lemma_first_error_wins<T, E0, F, E: From<E0> + From<F>, S: FallibleStage<T, F>>(
    x: T,
    stages: Seq<S>,
    k: int,
    f: F,
)
    requires
        0 <= k < stages.len(),
        run_fallible_spec::<T, E0, F, E, S>(Ok(x), stages.take(k)) is Ok,
        stages[k].outcome(run_fallible_spec::<T, E0, F, E, S>(Ok(x), stages.take(k))->Ok_0)
            == Err::<T, F>(f),
    ensures
        run_fallible_spec::<T, E0, F, E, S>(Ok(x), stages) == Err::<T, E>(
            <E as FromSpec<F>>::from_spec(f),
        ),
{
    assert(stages.take(k + 1).drop_last() =~= stages.take(k));
    lemma_failed_prefix::<T, E0, F, E, S>(Ok(x), stages, k + 1);
}

} // verus!
