//! Steps to take one after the other, until one fails.
use vstd::prelude::*;

verus! {

/// How a list of steps goes on.
pub enum Progress<T, E> {
    /// Take this step, and hand its outcome to `next` with the others.
    Next {
        /// The step.
        step: T,
        /// The steps after it, in order.
        rest: Vec<T>,
    },
    /// There is no step to take any more.
    Done(Result<(), E>),
}

/// What the progress of a list of steps is.
#[verifier::ext_equal]
pub enum ProgressView<V, E> {
    Next { step: V, rest: Seq<V> },
    Done(Result<(), E>),
}

/// What the steps of a list are.
pub open spec fn views<T: View>(list: Seq<T>) -> Seq<T::V> {
    list.map_values(|item: T| item@)
}

impl<T: View, E> View for Progress<T, E> {
    type V = ProgressView<T::V, E>;

    open spec fn view(&self) -> ProgressView<T::V, E> {
        match *self {
            Progress::Next { step, rest } => ProgressView::Next {
                step: step@,
                rest: views(rest@),
            },
            Progress::Done(r) => ProgressView::Done(r),
        }
    }
}

/// How the steps that are left go on, after one that ended like this: with the first of
/// them, unless it failed.
pub open spec fn after<V, E>(rest: Seq<V>, done: Result<(), E>) -> ProgressView<V, E> {
    match done {
        Err(error) => ProgressView::Done(Err(error)),
        Ok(_) => if rest.len() > 0 {
            ProgressView::Next { step: rest[0], rest: rest.skip(1) }
        } else {
            ProgressView::Done(Ok(()))
        },
    }
}

/// Goes on with the steps that are left, after one that ended like this. A list that was
/// not started yet goes on as after a success.
pub fn next<T: View, E>(rest: Vec<T>, done: Result<(), E>) -> (progress: Progress<T, E>)
    ensures
        progress@ == after(views(rest@), done),
{
    let mut rest = rest;
    match done {
        Err(error) => Progress::Done(Err(error)),
        Ok(()) => if rest.len() > 0 {
            let step = rest.remove(0);
            Progress::Next { step, rest }
        } else {
            Progress::Done(Ok(()))
        },
    }
}

/// What the steps end with, if each that is taken ends with the first outcome that is left.
pub open spec fn result<V, E>(
    progress: ProgressView<V, E>,
    outcomes: Seq<Result<(), E>>,
) -> Result<(), E>
    decreases
        match progress {
            ProgressView::Next { rest, .. } => rest.len() + 1,
            ProgressView::Done(_) => 0,
        },
{
    match progress {
        ProgressView::Next { rest, .. } => result(after(rest, outcomes[0]), outcomes.skip(1)),
        ProgressView::Done(r) => r,
    }
}

/// The steps that are then taken, in order.
pub open spec fn taken<V, E>(
    progress: ProgressView<V, E>,
    outcomes: Seq<Result<(), E>>,
) -> Seq<V>
    decreases
        match progress {
            ProgressView::Next { rest, .. } => rest.len() + 1,
            ProgressView::Done(_) => 0,
        },
{
    match progress {
        ProgressView::Next { step, rest } => seq![step] + taken(
            after(rest, outcomes[0]),
            outcomes.skip(1),
        ),
        ProgressView::Done(_) => seq![],
    }
}

/// Steps of which none fails are all taken, in order, and end well.
pub proof fn law_steps_end_well<V, E>(steps: Seq<V>, outcomes: Seq<Result<(), E>>)
    requires
        steps.len() <= outcomes.len(),
        forall|i: int| 0 <= i < steps.len() ==> outcomes[i] is Ok,
    ensures
        result(after(steps, Ok(())), outcomes) == Ok::<(), E>(()),
        taken(after(steps, Ok::<(), E>(())), outcomes) == steps,
    decreases steps.len(),
{
    if steps.len() > 0 {
        assert(outcomes[0] is Ok);
        law_steps_end_well(steps.skip(1), outcomes.skip(1));
        assert(steps =~= seq![steps[0]] + steps.skip(1));
    }
}

/// The first step that fails is the last that is taken, and its error is what the steps
/// end with.
pub proof fn law_steps_end_with_the_first_failure<V, E>(
    steps: Seq<V>,
    outcomes: Seq<Result<(), E>>,
    k: int,
)
    requires
        0 <= k < steps.len(),
        k < outcomes.len(),
        outcomes[k] is Err,
        forall|i: int| 0 <= i < k ==> outcomes[i] is Ok,
    ensures
        result(after(steps, Ok(())), outcomes) == outcomes[k],
        taken(after(steps, Ok::<(), E>(())), outcomes) == steps.take(k + 1),
    decreases k,
{
    if k == 0 {
        let end = after::<V, E>(steps.skip(1), outcomes[0]);
        assert(result(end, outcomes.skip(1)) == outcomes[0]);
        assert(taken(end, outcomes.skip(1)) =~= seq![]);
        assert(steps.take(1) =~= seq![steps[0]]);
    } else {
        assert(outcomes[0] is Ok);
        law_steps_end_with_the_first_failure(steps.skip(1), outcomes.skip(1), k - 1);
        assert(steps.take(k + 1) =~= seq![steps[0]] + steps.skip(1).take(k));
    }
}

/// A failure ends the steps with its error, whatever is left of them. A success goes on
/// with the next of them and leaves the others, in order, or ends them well if none is left.
pub proof fn law_outcome_decides_the_next_step<T: View, E>(
    rest: Vec<T>,
    done: Result<(), E>,
    progress: Progress<T, E>,
)
    requires
        call_ensures(next::<T, E>, (rest, done), progress),
    ensures
        progress is Done <==> done is Err || rest@.len() == 0,
        done matches Err(error) ==> progress->Done_0 == Err::<(), E>(error),
        done is Ok && rest@.len() == 0 ==> progress->Done_0 is Ok,
        progress matches Progress::Next { step, rest: others } ==> {
            &&& step@ == rest@[0]@
            &&& others@.len() + 1 == rest@.len()
            &&& forall|i: int| 0 <= i < others@.len() ==> (#[trigger] others@[i])@ == rest@[i + 1]@
        },
{
    if let Progress::Next { step, rest: others } = progress {
        let left = views(rest@).skip(1);
        assert(views(others@) == left);
        assert forall|i: int| 0 <= i < others@.len() implies (#[trigger] others@[i])@ == rest@[i
            + 1]@ by {
            assert(views(others@)[i] == left[i]);
        }
        assert(views(others@).len() == left.len());
    }
}

} // verus!
