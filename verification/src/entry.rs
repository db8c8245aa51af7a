use vstd::prelude::*;
use crate::monitor::{text_of, Action, ActionView, Monitor};
use crate::notify::Notify;
use crate::transitions::{plan_spec, settle_spec, step_spec, NoticeKind};

verus! {

/// A notification that is ready to be handed to a notifier.
#[derive(Debug, PartialEq, Eq)]
pub struct Notice {
    pub kind: NoticeKind,
    pub message: String,
    pub diagnostic: Option<String>,
}

/// A `Notice` with its texts taken as sequences of characters.
pub struct NoticeView {
    pub kind: NoticeKind,
    pub message: Seq<char>,
    pub diagnostic: Option<Seq<char>>,
}

impl View for Notice {
    type V = NoticeView;

    open spec fn view(&self) -> NoticeView {
        NoticeView { kind: self.kind, message: self.message@, diagnostic: text_of(self.diagnostic) }
    }
}

/// What one evaluation of an entry came to.
#[derive(Debug, PartialEq, Eq)]
pub enum Outcome {
    /// The interval had not elapsed: the monitor was not checked.
    Skipped,
    /// The monitor was checked and nothing had to be sent.
    Quiet,
    /// A notification of this kind was delivered.
    Delivered(NoticeKind),
    /// A notification of this kind was refused by the notifier, for the reason given.
    Failed(NoticeKind, String),
}

/// The timing and alert state of an entry, without its monitor and notifier.
/// Times are nanoseconds on the clock of whoever drives the entry.
pub struct EntryView {
    pub fire_message: Seq<char>,
    pub recover_message: Seq<char>,
    pub interval: nat,
    pub last_checked: Option<nat>,
    pub has_fired: bool,
}

impl EntryView {
    /// The time that has passed at `now` since the last check; zero where
    /// `now` lies before it.
    pub open spec fn elapsed(self, now: nat) -> nat
        recommends
            self.last_checked is Some,
    {
        let last = self.last_checked->0;
        if now >= last {
            (now - last) as nat
        } else {
            0
        }
    }

    /// An entry is due when it was never checked, or when at least its
    /// interval has passed since it was last checked.
    pub open spec fn due(self, now: nat) -> bool {
        self.last_checked is None || self.elapsed(now) >= self.interval
    }

    /// The text that a notice of `kind` carries.
    pub open spec fn text(self, kind: NoticeKind) -> Seq<char> {
        match kind {
            NoticeKind::Recover => self.recover_message,
            _ => self.fire_message,
        }
    }

    /// The notice that `action` calls for, if any.
    pub open spec fn notice(self, action: ActionView) -> Option<NoticeView> {
        match plan_spec(self.has_fired, action) {
            Some((kind, diagnostic)) => Some(
                NoticeView { kind, message: self.text(kind), diagnostic },
            ),
            None => None,
        }
    }

    /// Whether a notice of `kind` can be called for in this alert state.
    pub open spec fn admits(self, kind: NoticeKind) -> bool {
        match kind {
            NoticeKind::Status => true,
            NoticeKind::Fire => !self.has_fired,
            NoticeKind::Recover => self.has_fired,
        }
    }

    /// The entry once it has been stamped as checked at `now`.
    pub open spec fn checked_at(self, now: nat) -> EntryView {
        EntryView { last_checked: Some(now), ..self }
    }

    /// The entry after an evaluation at `now` that came to `outcome`.
    pub open spec fn resolved(self, now: nat, outcome: Outcome) -> EntryView {
        match outcome {
            Outcome::Skipped => self,
            Outcome::Quiet => self.checked_at(now),
            Outcome::Delivered(kind) => EntryView {
                has_fired: settle_spec(self.has_fired, kind, true),
                ..self.checked_at(now)
            },
            Outcome::Failed(kind, _) => EntryView {
                has_fired: settle_spec(self.has_fired, kind, false),
                ..self.checked_at(now)
            },
        }
    }

    /// The outcome of an evaluation at `now`, and the entry it leaves, where
    /// the monitor reports `action` and the notifier, if it is called,
    /// answers `answer`.
    pub open spec fn evaluate(
        self,
        now: nat,
        action: ActionView,
        answer: Result<(), String>,
    ) -> (Outcome, EntryView) {
        if !self.due(now) {
            (Outcome::Skipped, self)
        } else {
            let outcome = match (plan_spec(self.has_fired, action), answer) {
                (None, _) => Outcome::Quiet,
                (Some((kind, _)), Ok(_)) => Outcome::Delivered(kind),
                (Some((kind, _)), Err(reason)) => Outcome::Failed(kind, reason),
            };
            (
                outcome,
                EntryView {
                    has_fired: step_spec(self.has_fired, action, answer is Ok),
                    ..self.checked_at(now)
                },
            )
        }
    }

    /// Whether an evaluation at `now` can come to `outcome` and leave the
    /// entry as `after`. An entry is skipped exactly when it is not due; a
    /// notice is attempted only in an alert state that admits it; and the
    /// entry that is left is the one that `resolved` gives.
    pub open spec fn follows(self, now: nat, outcome: Outcome, after: EntryView) -> bool {
        &&& outcome is Skipped <==> !self.due(now)
        &&& match outcome {
            Outcome::Delivered(kind) => self.admits(kind),
            Outcome::Failed(kind, _) => self.admits(kind),
            _ => true,
        }
        &&& after == self.resolved(now, outcome)
    }
}

/// One monitor bound to one notifier, with the messages to send, the
/// interval between checks and the alert state.
pub struct Entry<'a> {
    fire_message: String,
    recover_message: String,
    last_checked: Option<u128>,
    wait_time: u128,
    monitor: Box<dyn Monitor + 'a>,
    notifier: &'a dyn Notify,
    has_fired: bool,
}

impl<'a> View for Entry<'a> {
    type V = EntryView;

    closed spec fn view(&self) -> EntryView {
        EntryView {
            fire_message: self.fire_message@,
            recover_message: self.recover_message@,
            interval: self.wait_time as nat,
            last_checked: match self.last_checked {
                Some(t) => Some(t as nat),
                None => None,
            },
            has_fired: self.has_fired,
        }
    }
}

/// The alert state after an attempt to deliver a notice of `kind`.
pub fn settle(has_fired: bool, kind: NoticeKind, delivered: bool) -> (next: bool)
    ensures
        next == settle_spec(has_fired, kind, delivered),
{
    match kind {
        NoticeKind::Status => has_fired,
        NoticeKind::Fire => delivered || has_fired,
        NoticeKind::Recover => !delivered && has_fired,
    }
}

/// What an attempt to deliver a notice of `kind` came to, given the
/// notifier's answer.
pub fn conclude(kind: NoticeKind, sent: Result<(), String>) -> (outcome: Outcome)
    ensures
        outcome == match sent {
            Ok(_) => Outcome::Delivered(kind),
            Err(reason) => Outcome::Failed(kind, reason),
        },
{
    match sent {
        Ok(_) => Outcome::Delivered(kind),
        Err(reason) => Outcome::Failed(kind, reason),
    }
}

impl<'a> Entry<'a> {
    /// A new entry: never checked, and not alerting.
    pub fn new<M: Monitor + 'a, N: Notify>(
        fire_message: &str,
        recover_message: &str,
        wait_time: u128,
        monitor: M,
        notifier: &'a N,
    ) -> (entry: Entry<'a>)
        ensures
            entry@ == (EntryView {
                fire_message: fire_message@,
                recover_message: recover_message@,
                interval: wait_time as nat,
                last_checked: None,
                has_fired: false,
            }),
    {
        Entry {
            fire_message: fire_message.to_owned(),
            recover_message: recover_message.to_owned(),
            last_checked: None,
            wait_time,
            monitor: Box::new(monitor),
            notifier,
            has_fired: false,
        }
    }

    /// Whether the entry is alerting: the last notice delivered for it was a
    /// fire notice.
    pub fn has_fired(&self) -> (alerting: bool)
        ensures
            alerting == self@.has_fired,
    {
        self.has_fired
    }

    /// When the entry was last checked, if ever.
    pub fn last_checked(&self) -> (last: Option<u128>)
        ensures
            match last {
                Some(t) => self@.last_checked == Some(t as nat),
                None => self@.last_checked is None,
            },
    {
        self.last_checked
    }

    /// The least time between two checks, in nanoseconds.
    pub fn interval(&self) -> (nanos: u128)
        ensures
            nanos as nat == self@.interval,
    {
        self.wait_time
    }

    /// The text sent when the condition turns unhealthy, and with every
    /// status message.
    pub fn fire_message(&self) -> (text: &str)
        ensures
            text@ == self@.fire_message,
    {
        self.fire_message.as_str()
    }

    /// The text sent when the condition turns healthy again.
    pub fn recover_message(&self) -> (text: &str)
        ensures
            text@ == self@.recover_message,
    {
        self.recover_message.as_str()
    }

    /// Whether the entry is to be checked at `now`.
    pub fn is_due(&self, now: u128) -> (due: bool)
        ensures
            due == self@.due(now as nat),
    {
        match self.last_checked {
            None => true,
            Some(last) => {
                let elapsed: u128 = if now >= last { now - last } else { 0 };
                elapsed >= self.wait_time
            },
        }
    }

    /// The notice that `action` calls for in the entry's present state, with
    /// the text and the diagnostic that go to the notifier.
    pub fn compose(&self, action: Action) -> (notice: Option<Notice>)
        ensures
            match notice {
                Some(n) => self@.notice(action@) == Some(n@),
                None => self@.notice(action@) is None,
            },
    {
        match action {
            Action::Update { message } => Some(
                Notice {
                    kind: NoticeKind::Status,
                    message: self.fire_message.clone(),
                    diagnostic: message,
                },
            ),
            Action::Notify { diagnostic } => if self.has_fired {
                None
            } else {
                Some(
                    Notice {
                        kind: NoticeKind::Fire,
                        message: self.fire_message.clone(),
                        diagnostic,
                    },
                )
            },
            Action::Nothing => if self.has_fired {
                Some(
                    Notice {
                        kind: NoticeKind::Recover,
                        message: self.recover_message.clone(),
                        diagnostic: None,
                    },
                )
            } else {
                None
            },
        }
    }
}

/// Evaluates one entry at `now`. An entry that is not due is left as it is,
/// and its monitor is not checked. A due entry is stamped with `now` before
/// its monitor is checked; what the monitor reports decides, with the alert
/// state, whether the notifier is called, and the alert state moves only
/// when the notifier has accepted the notice.
pub fn handle_entry(entry: &mut Entry, now: u128) -> (outcome: Outcome)
    ensures
        exists|action: ActionView, answer: Result<(), String>|
            (outcome, final(entry)@) == #[trigger] old(entry)@.evaluate(now as nat, action, answer),
        old(entry)@.follows(now as nat, outcome, final(entry)@),
        outcome is Skipped ==> *final(entry) == *old(entry),
{
    if !entry.is_due(now) {
        assert((Outcome::Skipped, entry@) == old(entry)@.evaluate(
            now as nat,
            ActionView::Nothing,
            Ok(()),
        ));
        return Outcome::Skipped;
    }
    entry.last_checked = Some(now);
    let action = entry.monitor.check();
    let ghost reported = action@;
    match entry.compose(action) {
        None => {
            assert((Outcome::Quiet, entry@) == old(entry)@.evaluate(now as nat, reported, Ok(())));
            Outcome::Quiet
        },
        Some(notice) => {
            let kind = notice.kind;
            let sent = entry.notifier.send(notice.message.as_str(), notice.diagnostic);
            let ghost answer = sent;
            entry.has_fired = settle(entry.has_fired, kind, sent.is_ok());
            let outcome = conclude(kind, sent);
            assert((outcome, entry@) == old(entry)@.evaluate(now as nat, reported, answer));
            outcome
        },
    }
}

/// A report that calls for a notice of `kind` in every alert state that
/// admits the kind.
pub open spec fn action_calling_for(kind: NoticeKind) -> ActionView {
    match kind {
        NoticeKind::Status => ActionView::Update { message: None },
        NoticeKind::Fire => ActionView::Notify { diagnostic: None },
        NoticeKind::Recover => ActionView::Nothing,
    }
}

/// `follows` admits exactly the evaluations: an outcome and an entry follow
/// from an entry at `now` if and only if some report of the monitor and some
/// answer of the notifier lead to them.
pub proof fn lemma_follows_is_some_evaluation(
    entry: EntryView,
    now: nat,
    outcome: Outcome,
    after: EntryView,
)
    ensures
        entry.follows(now, outcome, after) <==> exists|
            action: ActionView,
            answer: Result<(), String>,
        |
            (outcome, after) == #[trigger] entry.evaluate(now, action, answer),
{
    if entry.follows(now, outcome, after) {
        let silent = if entry.has_fired {
            ActionView::Notify { diagnostic: None }
        } else {
            ActionView::Nothing
        };
        match outcome {
            Outcome::Skipped => {
                assert((outcome, after) == entry.evaluate(now, silent, Ok(())));
            },
            Outcome::Quiet => {
                assert((outcome, after) == entry.evaluate(now, silent, Ok(())));
            },
            Outcome::Delivered(kind) => {
                assert((outcome, after) == entry.evaluate(now, action_calling_for(kind), Ok(())));
            },
            Outcome::Failed(kind, reason) => {
                assert((outcome, after) == entry.evaluate(
                    now,
                    action_calling_for(kind),
                    Err(reason),
                ));
            },
        }
    }
}

/// An entry whose interval has not elapsed is skipped and comes out of the
/// evaluation exactly as it went in.
pub proof fn lemma_not_due_is_untouched(
    entry: EntryView,
    now: nat,
    outcome: Outcome,
    after: EntryView,
)
    requires
        entry.follows(now, outcome, after),
        !entry.due(now),
    ensures
        outcome is Skipped,
        after == entry,
{
}

/// A due entry is stamped with the time of its evaluation, whatever came of
/// the check; its messages and its interval never change.
pub proof fn lemma_due_is_stamped(entry: EntryView, now: nat, outcome: Outcome, after: EntryView)
    requires
        entry.follows(now, outcome, after),
        entry.due(now),
    ensures
        after.last_checked == Some(now),
        after.fire_message == entry.fire_message,
        after.recover_message == entry.recover_message,
        after.interval == entry.interval,
        !after.due(now) || after.interval == 0,
{
}

/// Two checks of one entry lie at least its interval apart: where an entry
/// is checked at `first` and, with nothing in between, again at a time
/// `second` that is not earlier, the interval has passed.
pub proof fn lemma_checks_are_an_interval_apart(
    entry: EntryView,
    first: nat,
    first_outcome: Outcome,
    between: EntryView,
    second: nat,
    second_outcome: Outcome,
    after: EntryView,
)
    requires
        entry.follows(first, first_outcome, between),
        between.follows(second, second_outcome, after),
        !(first_outcome is Skipped),
        !(second_outcome is Skipped),
        first <= second,
    ensures
        second - first >= entry.interval,
{
}

/// The alert state moves if and only if a fire or a recovery notice was
/// delivered: a fire notice leaves the entry alerting, a recovery notice
/// leaves it recovered, and every other outcome leaves the state as it was.
pub proof fn lemma_state_moves_on_delivery_only(
    entry: EntryView,
    now: nat,
    outcome: Outcome,
    after: EntryView,
)
    requires
        entry.follows(now, outcome, after),
    ensures
        outcome == Outcome::Delivered(NoticeKind::Fire) ==> !entry.has_fired && after.has_fired,
        outcome == Outcome::Delivered(NoticeKind::Recover) ==> entry.has_fired && !after.has_fired,
        after.has_fired != entry.has_fired <==> outcome == Outcome::Delivered(NoticeKind::Fire)
            || outcome == Outcome::Delivered(NoticeKind::Recover),
{
}

} // verus!
