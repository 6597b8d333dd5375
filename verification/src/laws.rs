//! What holds of the transition, proved over the model.

use vstd::prelude::*;
use crate::model::{
    run, screen, step, torn_down, EffectModel, EventModel, ReactionModel, StateModel,
    SubmissionModel,
};

verus! {

/// The event writes the image URL or the template.
pub open spec fn chooses_source(e: EventModel) -> bool {
    e is EditImageUrl || e is SelectTemplate
}

/// The event reports the end of a rendering request.
pub open spec fn ends_render(e: EventModel) -> bool {
    e is RenderSucceeded || e is RenderFailed
}

/// The reaction starts a rendering request.
pub open spec fn starts_render(r: ReactionModel) -> bool {
    r.effect matches Some(EffectModel::RenderMeme(_))
}

/// One for a state with a rendering request in flight, zero for any other.
pub open spec fn in_flight(s: StateModel) -> int {
    if s.submission is Loading {
        1
    } else {
        0
    }
}

/// The rendering requests that are outstanding after `events` arrived in
/// state `s`: those in flight at the start, plus those started, minus those
/// whose end was accepted.
pub open spec fn outstanding(s: StateModel, events: Seq<EventModel>) -> int
    decreases events.len(),
{
    if events.len() == 0 {
        in_flight(s)
    } else {
        let before = run(s, events.drop_last());
        let e = events.last();
        outstanding(s, events.drop_last()) + (if starts_render(step(before, e).1) {
            1int
        } else {
            0int
        }) - (if ends_render(e) && before.submission is Loading {
            1int
        } else {
            0int
        })
    }
}

/// No event breaks the exclusion of image URL and template.
pub proof fn lemma_step_keeps_exclusion(s: StateModel, e: EventModel)
    requires
        s.wf(),
    ensures
        step(s, e).0.wf(),
{
}

/// From a state in which image URL and template exclude each other, they do
/// so after each event of any run.
pub proof fn lemma_run_keeps_exclusion(s: StateModel, events: Seq<EventModel>)
    requires
        s.wf(),
    ensures
        forall|n: int| 0 <= n <= events.len() ==> (#[trigger] run(s, events.take(n))).wf(),
    decreases events.len(),
{
    assert forall|n: int| 0 <= n <= events.len() implies (#[trigger] run(
        s,
        events.take(n),
    )).wf() by {
        if n == 0 {
            assert(events.take(0).len() == 0);
        } else if n < events.len() {
            lemma_run_keeps_exclusion(s, events.drop_last());
            assert(events.drop_last().take(n) =~= events.take(n));
        } else {
            lemma_run_keeps_exclusion(s, events.drop_last());
            assert(events.take(n) =~= events);
            assert(events.drop_last().take(n - 1) =~= events.drop_last());
            lemma_step_keeps_exclusion(run(s, events.drop_last()), events.last());
        }
    }
}

/// In a run of image URL edits and template choices, at most one of image URL
/// and template is non-empty after each event, whatever the state at the
/// start.
pub proof fn lemma_source_choices_exclude(s: StateModel, events: Seq<EventModel>)
    requires
        forall|i: int| 0 <= i < events.len() ==> chooses_source(#[trigger] events[i]),
    ensures
        forall|n: int|
            0 < n <= events.len() ==> (#[trigger] run(s, events.take(n))).form.exclusive(),
{
    assert forall|n: int| 0 < n <= events.len() implies (#[trigger] run(
        s,
        events.take(n),
    )).form.exclusive() by {
        let prefix = events.take(n);
        assert(prefix.last() == events[n - 1]);
        assert(chooses_source(prefix.last()));
    }
}

/// A submission that arrives while a request is in flight changes nothing
/// and starts nothing.
pub proof fn lemma_submit_while_loading_ignored(s: StateModel)
    requires
        s.submission is Loading,
    ensures
        step(s, EventModel::SubmitRequested) == (s, ReactionModel::ignored()),
{
}

/// However often the user submits while a request is in flight, the state
/// stays as it is and no request is started.
pub proof fn lemma_repeated_submit_while_loading(s: StateModel, events: Seq<EventModel>)
    requires
        s.submission is Loading,
        forall|i: int| 0 <= i < events.len() ==> #[trigger] events[i] is SubmitRequested,
    ensures
        run(s, events) == s,
        outstanding(s, events) == 1,
    decreases events.len(),
{
    if events.len() > 0 {
        lemma_repeated_submit_while_loading(s, events.drop_last());
        assert(events.last() is SubmitRequested);
    }
}

/// A submission of a form that names neither an image URL nor a template
/// changes nothing and starts nothing.
pub proof fn lemma_submit_without_source_ignored(s: StateModel)
    requires
        s.form.image_url.len() == 0,
        s.form.selected_template.len() == 0,
    ensures
        step(s, EventModel::SubmitRequested) == (s, ReactionModel::ignored()),
{
}

/// A submission is accepted exactly when the generate action is offered. It
/// then puts the state into `Loading`, starts one request that carries the
/// form as it stands, and gives up the result handle held so far.
pub proof fn lemma_submit_accepted(s: StateModel)
    requires
        s.can_submit(),
    ensures
        step(s, EventModel::SubmitRequested).0 == (StateModel {
            submission: SubmissionModel::Loading,
            ..s
        }),
        step(s, EventModel::SubmitRequested).1.effect == Some(
            EffectModel::RenderMeme(s.form.snapshot()),
        ),
        step(s, EventModel::SubmitRequested).1.released == s.submission.handle(),
        !step(s, EventModel::SubmitRequested).0.can_submit(),
{
}

/// The end of a rendering request that arrives while none is in flight is
/// discarded: it changes nothing and starts nothing.
pub proof fn lemma_stale_render_end_ignored(s: StateModel, e: EventModel)
    requires
        ends_render(e),
        !(s.submission is Loading),
    ensures
        step(s, e) == (s, ReactionModel::ignored()),
{
}

/// Of two submissions in a row, the first starts a request and the second is
/// ignored: one request is outstanding.
pub proof fn lemma_double_submit_starts_one(s: StateModel)
    requires
        s.can_submit(),
    ensures
        starts_render(step(s, EventModel::SubmitRequested).1),
        step(step(s, EventModel::SubmitRequested).0, EventModel::SubmitRequested) == (
            step(s, EventModel::SubmitRequested).0,
            ReactionModel::ignored(),
        ),
        outstanding(s, seq![EventModel::SubmitRequested, EventModel::SubmitRequested]) == 1,
{
    let events = seq![EventModel::SubmitRequested, EventModel::SubmitRequested];
    let first = events.drop_last();
    assert(first =~= seq![EventModel::SubmitRequested]);
    assert(first.drop_last() =~= Seq::<EventModel>::empty());
    assert(run(s, first.drop_last()) == s);
    assert(run(s, first) == step(s, EventModel::SubmitRequested).0);
    assert(outstanding(s, first.drop_last()) == 0);
    assert(outstanding(s, first) == 1);
}

/// A request is started only by an event that finds none in flight, and it
/// leaves one in flight.
pub proof fn lemma_render_starts_from_rest(s: StateModel, e: EventModel)
    requires
        starts_render(step(s, e).1),
    ensures
        e is SubmitRequested,
        !(s.submission is Loading),
        step(s, e).0.submission is Loading,
{
}

/// After any run, the outstanding rendering requests are the one in flight,
/// if the state is `Loading`, and none otherwise: never more than one.
pub proof fn lemma_at_most_one_outstanding(s: StateModel, events: Seq<EventModel>)
    ensures
        outstanding(s, events) == in_flight(run(s, events)),
        0 <= outstanding(s, events) <= 1,
    decreases events.len(),
{
    if events.len() > 0 {
        lemma_at_most_one_outstanding(s, events.drop_last());
    }
}

/// A submission followed by the success of its request shows the result and
/// offers the generate action again, with the form untouched.
pub proof fn lemma_success_reenables_submit(s: StateModel, handle: Seq<char>)
    requires
        s.can_submit(),
    ensures
        ({
            let loading = step(s, EventModel::SubmitRequested).0;
            let done = step(loading, EventModel::RenderSucceeded(handle)).0;
            &&& loading.submission is Loading
            &&& done.submission == SubmissionModel::Succeeded(handle)
            &&& done.form == s.form
            &&& done.can_submit()
        }),
{
}

/// A submission followed by the failure of its request shows the message,
/// holds no result, and offers the generate action again.
pub proof fn lemma_failure_reenables_submit(s: StateModel, message: Seq<char>)
    requires
        s.can_submit(),
    ensures
        ({
            let loading = step(s, EventModel::SubmitRequested).0;
            let done = step(loading, EventModel::RenderFailed(message)).0;
            &&& done.submission == SubmissionModel::Failed(message)
            &&& done.submission.handle() is None
            &&& done.form == s.form
            &&& done.can_submit()
        }),
{
}

/// A failed catalog request leaves a notice and touches nothing else: the
/// catalog, the form and the submission stay, and so does whether the
/// generate action is offered.
pub proof fn lemma_catalog_failure_is_not_fatal(s: StateModel, message: Seq<char>)
    ensures
        step(s, EventModel::CatalogLoadFailed(message)).0 == (StateModel {
            notice: Some(message),
            ..s
        }),
        step(s, EventModel::CatalogLoadFailed(message)).0.can_submit() == s.can_submit(),
        step(s, EventModel::CatalogLoadFailed(message)).1.effect is None,
{
}

/// Only a submission or the end of a rendering request changes where the
/// submission stands.
pub proof fn lemma_submission_changes_in_workflow(s: StateModel, e: EventModel)
    requires
        !(e is SubmitRequested),
        !ends_render(e),
    ensures
        step(s, e).0.submission == s.submission,
        step(s, e).1.effect is None,
        step(s, e).1.released is None,
{
}

/// Only an input of the user changes the form.
pub proof fn lemma_form_changes_on_input(s: StateModel, e: EventModel)
    requires
        !(e is EditTopText),
        !(e is EditBottomText),
        !chooses_source(e),
    ensures
        step(s, e).0.form == s.form,
{
}

/// An ignored event leaves the state as it was and asks nothing of the host.
pub proof fn lemma_ignored_means_unchanged(s: StateModel, e: EventModel)
    requires
        !step(s, e).1.dirty,
    ensures
        step(s, e) == (s, ReactionModel::ignored()),
{
}

/// A result handle is given up only by an accepted submission, and it is the
/// handle that the state held; the state after it holds none.
pub proof fn lemma_released_handle_was_held(s: StateModel, e: EventModel)
    requires
        step(s, e).1.released is Some,
    ensures
        e is SubmitRequested,
        s.submission.handle() == step(s, e).1.released,
        step(s, e).0.submission.handle() is None,
{
}

/// The page never shows a failure and a result together, shows neither
/// while a request is in flight, and offers the generate action exactly when
/// none is in flight and the form names an image URL or a template.
pub proof fn lemma_screen_is_consistent(s: StateModel)
    ensures
        !(screen(s).error is Some && screen(s).result is Some),
        s.submission is Loading ==> screen(s).error is None && screen(s).result is None
            && !screen(s).submit_enabled,
        screen(s).submit_enabled <==> !(s.submission is Loading) && (s.form.image_url.len() > 0
            || s.form.selected_template.len() > 0),
{
}

/// A new submission clears what the last one left on the page: its result
/// and its failure.
pub proof fn lemma_submit_clears_outcome(s: StateModel)
    requires
        s.can_submit(),
    ensures
        screen(step(s, EventModel::SubmitRequested).0).error is None,
        screen(step(s, EventModel::SubmitRequested).0).result is None,
{
}

/// Tearing the controller down gives up the result handle and nothing else,
/// and a second teardown finds nothing to give up.
pub proof fn lemma_teardown_releases_once(s: StateModel)
    ensures
        torn_down(s).submission.handle() is None,
        torn_down(s).form == s.form,
        torn_down(s).catalog == s.catalog,
        torn_down(s).notice == s.notice,
        torn_down(torn_down(s)) == torn_down(s),
{
}

} // verus!
