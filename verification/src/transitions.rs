use vstd::prelude::*;
use crate::monitor::ActionView;

verus! {

/// The three notifications an entry can send.
#[derive(Clone, Copy, PartialEq, Eq, Structural, Debug)]
pub enum NoticeKind {
    /// A status message, sent whenever a monitor reports one.
    Status,
    /// The monitored condition went from healthy to unhealthy.
    Fire,
    /// The monitored condition went from unhealthy to healthy.
    Recover,
}

/// The alert state that follows an attempt to deliver a notice of `kind`.
/// Only a delivered notice moves the state.
pub open spec fn settle_spec(has_fired: bool, kind: NoticeKind, delivered: bool) -> bool {
    match kind {
        NoticeKind::Status => has_fired,
        NoticeKind::Fire => delivered || has_fired,
        NoticeKind::Recover => !delivered && has_fired,
    }
}

/// The kind of notice, and its diagnostic, that `action` calls for in the
/// given alert state; `None` where the action is suppressed.
pub open spec fn plan_spec(has_fired: bool, action: ActionView) -> Option<(NoticeKind, Option<Seq<char>>)> {
    match action {
        ActionView::Update { message } => Some((NoticeKind::Status, message)),
        ActionView::Notify { diagnostic } => if has_fired {
            None
        } else {
            Some((NoticeKind::Fire, diagnostic))
        },
        ActionView::Nothing => if has_fired {
            Some((NoticeKind::Recover, None))
        } else {
            None
        },
    }
}

/// The alert state after `action` was observed in state `has_fired` and the
/// notifier, if it was called, answered `delivered`.
pub open spec fn step_spec(has_fired: bool, action: ActionView, delivered: bool) -> bool {
    match plan_spec(has_fired, action) {
        Some((kind, _)) => settle_spec(has_fired, kind, delivered),
        None => has_fired,
    }
}

/// One observation: what the monitor reported, and what the notifier would
/// answer if it were called.
pub struct Observation {
    pub action: ActionView,
    pub delivered: bool,
}

/// The alert state after a run of observations, taken in order.
pub open spec fn replay(has_fired: bool, run: Seq<Observation>) -> bool
    decreases run.len(),
{
    if run.len() == 0 {
        has_fired
    } else {
        replay(step_spec(has_fired, run[0].action, run[0].delivered), run.drop_first())
    }
}

/// The notices that a run of observations hands to the notifier, in order,
/// each with its diagnostic.
pub open spec fn notices(has_fired: bool, run: Seq<Observation>) -> Seq<(NoticeKind, Option<Seq<char>>)>
    decreases run.len(),
{
    if run.len() == 0 {
        Seq::empty()
    } else {
        let rest = notices(
            step_spec(has_fired, run[0].action, run[0].delivered),
            run.drop_first(),
        );
        match plan_spec(has_fired, run[0].action) {
            Some(notice) => seq![notice] + rest,
            None => rest,
        }
    }
}

/// The last fire or recovery notice of a run that was delivered, if there
/// was one. Status messages are no part of the alert state and do not count.
pub open spec fn last_edge(has_fired: bool, run: Seq<Observation>) -> Option<NoticeKind>
    decreases run.len(),
{
    if run.len() == 0 {
        None
    } else {
        let later = last_edge(
            step_spec(has_fired, run[0].action, run[0].delivered),
            run.drop_first(),
        );
        if later is Some {
            later
        } else {
            match plan_spec(has_fired, run[0].action) {
                Some((kind, _)) => if run[0].delivered && kind != NoticeKind::Status {
                    Some(kind)
                } else {
                    None
                },
                None => None,
            }
        }
    }
}

/// After any run of observations an entry is alerting exactly when the last
/// fire or recovery notice that was delivered was a fire notice; where none
/// was delivered the entry is in the state in which the run began.
pub proof fn lemma_state_is_last_delivered_edge(has_fired: bool, run: Seq<Observation>)
    ensures
        replay(has_fired, run) == match last_edge(has_fired, run) {
            Some(kind) => kind == NoticeKind::Fire,
            None => has_fired,
        },
    decreases run.len(),
{
    if run.len() > 0 {
        lemma_state_is_last_delivered_edge(
            step_spec(has_fired, run[0].action, run[0].delivered),
            run.drop_first(),
        );
    }
}

/// From the recovered state, an unhealthy report whose notice is delivered
/// sends exactly one fire notice, with the report's diagnostic, and leaves
/// the entry alerting.
pub proof fn lemma_fire_on_first_signal(diagnostic: Option<Seq<char>>)
    ensures
        plan_spec(false, ActionView::Notify { diagnostic }) == Some((NoticeKind::Fire, diagnostic)),
        step_spec(false, ActionView::Notify { diagnostic }, true),
        notices(
            false,
            seq![Observation { action: ActionView::Notify { diagnostic }, delivered: true }],
        ) == seq![(NoticeKind::Fire, diagnostic)],
        replay(
            false,
            seq![Observation { action: ActionView::Notify { diagnostic }, delivered: true }],
        ),
{
    let run = seq![Observation { action: ActionView::Notify { diagnostic }, delivered: true }];
    assert(run.drop_first().len() == 0);
    assert(notices(true, run.drop_first()) == Seq::<(NoticeKind, Option<Seq<char>>)>::empty());
    assert(replay(true, run.drop_first()));
    assert(notices(false, run) =~= seq![(NoticeKind::Fire, diagnostic)]);
}

/// While an entry is alerting, any run of unhealthy reports sends nothing
/// and leaves it alerting, whatever the notifier would have answered.
pub proof fn lemma_repeated_signals_are_silent(run: Seq<Observation>)
    requires
        forall|i: int| 0 <= i < run.len() ==> run[i].action is Notify,
    ensures
        notices(true, run) == Seq::<(NoticeKind, Option<Seq<char>>)>::empty(),
        replay(true, run),
    decreases run.len(),
{
    if run.len() > 0 {
        let rest = run.drop_first();
        assert forall|i: int| 0 <= i < rest.len() implies rest[i].action is Notify by {
            assert(rest[i] == run[i + 1]);
        }
        lemma_repeated_signals_are_silent(rest);
        assert(run[0].action is Notify);
    }
}

/// While an entry is recovered, any run of healthy reports sends nothing
/// and leaves it recovered.
pub proof fn lemma_repeated_healthy_is_silent(run: Seq<Observation>)
    requires
        forall|i: int| 0 <= i < run.len() ==> run[i].action is Nothing,
    ensures
        notices(false, run) == Seq::<(NoticeKind, Option<Seq<char>>)>::empty(),
        !replay(false, run),
    decreases run.len(),
{
    if run.len() > 0 {
        let rest = run.drop_first();
        assert forall|i: int| 0 <= i < rest.len() implies rest[i].action is Nothing by {
            assert(rest[i] == run[i + 1]);
        }
        lemma_repeated_healthy_is_silent(rest);
        assert(run[0].action is Nothing);
    }
}

/// From the alerting state, a healthy report whose notice is delivered sends
/// exactly one recovery notice, without a diagnostic, and leaves the entry
/// recovered.
pub proof fn lemma_recover_on_first_healthy()
    ensures
        plan_spec(true, ActionView::Nothing) == Some((NoticeKind::Recover, None::<Seq<char>>)),
        !step_spec(true, ActionView::Nothing, true),
        notices(true, seq![Observation { action: ActionView::Nothing, delivered: true }]) == seq![
            (NoticeKind::Recover, None::<Seq<char>>),
        ],
        !replay(true, seq![Observation { action: ActionView::Nothing, delivered: true }]),
{
    let run = seq![Observation { action: ActionView::Nothing, delivered: true }];
    assert(run.drop_first().len() == 0);
    assert(notices(false, run.drop_first()) == Seq::<(NoticeKind, Option<Seq<char>>)>::empty());
    assert(!replay(false, run.drop_first()));
    assert(notices(true, run) =~= seq![(NoticeKind::Recover, None::<Seq<char>>)]);
}

/// A notice that the notifier refuses never moves the alert state, and the
/// same notice is called for again by the next report of the same kind: a
/// failed fire is retried on the next unhealthy report, a failed recovery on
/// the next healthy one.
pub proof fn lemma_failed_delivery_is_retried(
    has_fired: bool,
    action: ActionView,
    first: Option<Seq<char>>,
    second: Option<Seq<char>>,
)
    ensures
        step_spec(has_fired, action, false) == has_fired,
        !step_spec(false, ActionView::Notify { diagnostic: first }, false),
        plan_spec(
            step_spec(false, ActionView::Notify { diagnostic: first }, false),
            ActionView::Notify { diagnostic: second },
        ) == Some((NoticeKind::Fire, second)),
        plan_spec(step_spec(true, ActionView::Nothing, false), ActionView::Nothing) == Some(
            (NoticeKind::Recover, None::<Seq<char>>),
        ),
        notices(
            false,
            seq![
                Observation { action: ActionView::Notify { diagnostic: first }, delivered: false },
                Observation { action: ActionView::Notify { diagnostic: second }, delivered: true },
            ],
        ) == seq![(NoticeKind::Fire, first), (NoticeKind::Fire, second)],
        replay(
            false,
            seq![
                Observation { action: ActionView::Notify { diagnostic: first }, delivered: false },
                Observation { action: ActionView::Notify { diagnostic: second }, delivered: true },
            ],
        ),
{
    let failed = Observation { action: ActionView::Notify { diagnostic: first }, delivered: false };
    let passed = Observation { action: ActionView::Notify { diagnostic: second }, delivered: true };
    let run = seq![failed, passed];
    let rest = run.drop_first();
    assert(rest =~= seq![passed]);
    assert(rest.drop_first().len() == 0);
    assert(notices(true, rest.drop_first()) == Seq::<(NoticeKind, Option<Seq<char>>)>::empty());
    assert(replay(true, rest.drop_first()));
    assert(notices(false, rest) =~= seq![(NoticeKind::Fire, second)]);
    assert(replay(false, rest));
    assert(notices(false, run) =~= seq![(NoticeKind::Fire, first), (NoticeKind::Fire, second)]);
}

/// A status message always goes to the notifier, in either alert state, and
/// never moves the alert state, delivered or not.
pub proof fn lemma_update_passes_through(
    has_fired: bool,
    message: Option<Seq<char>>,
    delivered: bool,
)
    ensures
        plan_spec(has_fired, ActionView::Update { message }) == Some((NoticeKind::Status, message)),
        step_spec(has_fired, ActionView::Update { message }, delivered) == has_fired,
{
}

} // verus!
