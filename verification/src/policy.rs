use vstd::prelude::*;

use crate::action::RecoveryAction;
use crate::error_class::ErrorClass;
use crate::table::ActionTable;

verus! {

/// A recovery record in the log.
#[derive(Debug, Clone)]
pub struct RecoveryEvent {
    pub tool_name: String,
    pub error_class: ErrorClass,
    pub action: RecoveryAction,
    pub attempt: usize,
}

/// What a [`RecoveryEvent`] records, with the tool's name as a sequence of
/// characters.
pub struct EventView {
    pub tool_name: Seq<char>,
    pub error_class: ErrorClass,
    pub action: RecoveryAction,
    pub attempt: usize,
}

impl View for RecoveryEvent {
    type V = EventView;

    open spec fn view(&self) -> EventView {
        EventView {
            tool_name: self.tool_name@,
            error_class: self.error_class,
            action: self.action,
            attempt: self.attempt,
        }
    }
}

/// The state of a [`RecoveryPolicy`]: the action stored for each class, the
/// attempt limit, and the log of recorded events, oldest first.
pub struct PolicyView {
    pub actions: Map<ErrorClass, RecoveryAction>,
    pub max_attempts: usize,
    pub events: Seq<EventView>,
}

/// The action a fresh policy stores for each class.
pub open spec fn default_action(class: ErrorClass) -> RecoveryAction {
    match class {
        ErrorClass::RateLimit => RecoveryAction::RetryWithBackoff,
        ErrorClass::NetworkTimeout => RecoveryAction::RetryWithBackoff,
        ErrorClass::AuthFailure => RecoveryAction::Escalate,
        ErrorClass::InvalidInput => RecoveryAction::Abort,
        ErrorClass::NotFound => RecoveryAction::Skip,
        ErrorClass::ServerError => RecoveryAction::RetryWithBackoff,
        ErrorClass::Unknown => RecoveryAction::Abort,
    }
}

/// The mapping of a fresh policy: every class to its default action.
pub open spec fn default_actions() -> Map<ErrorClass, RecoveryAction> {
    Map::total(|class: ErrorClass| default_action(class))
}

/// The action recommended for `class` under `actions`: the stored one, or
/// `Abort` for a class with no stored action.
pub open spec fn recommended(
    actions: Map<ErrorClass, RecoveryAction>,
    class: ErrorClass,
) -> RecoveryAction {
    if actions.contains_key(class) {
        actions[class]
    } else {
        RecoveryAction::Abort
    }
}

/// The action decided for an error of `class` at `attempt`: `Escalate` once
/// `attempt` reaches the limit, the recommended action before.
pub open spec fn decided_action(
    policy: PolicyView,
    class: ErrorClass,
    attempt: usize,
) -> RecoveryAction {
    if attempt >= policy.max_attempts {
        RecoveryAction::Escalate
    } else {
        recommended(policy.actions, class)
    }
}

/// The number of events in `events` recorded for the tool named `tool`.
pub open spec fn count_for_tool(events: Seq<EventView>, tool: Seq<char>) -> nat
    decreases events.len(),
{
    if events.len() == 0 {
        0
    } else {
        count_for_tool(events.drop_last(), tool) + if events.last().tool_name == tool {
            1nat
        } else {
            0nat
        }
    }
}

/// Policy that maps error classes to recovery actions, and keeps a log of the
/// recovery decisions it has made.
///
/// Construct one with `RecoveryPolicy::default` for sensible defaults, or
/// [`RecoveryPolicy::new`] to override the maximum number of attempts. Use
/// [`RecoveryPolicy::set`] to override the action for individual error classes.
pub struct RecoveryPolicy {
    /// Action per error class.
    defaults: ActionTable,
    /// Max attempts before escalating.
    max_attempts: usize,
    /// Event log.
    events: Vec<RecoveryEvent>,
}

impl View for RecoveryPolicy {
    type V = PolicyView;

    closed spec fn view(&self) -> PolicyView {
        PolicyView {
            actions: self.defaults@,
            max_attempts: self.max_attempts,
            events: self.events@.map_values(|e: RecoveryEvent| e@),
        }
    }
}

impl Default for RecoveryPolicy {
    /// A policy with the default action of every class and `max_attempts = 3`.
    fn default() -> (policy: Self)
        ensures
            policy@.actions == default_actions(),
            policy@.max_attempts == 3,
            policy@.events == Seq::<EventView>::empty(),
    {
        let mut defaults = ActionTable::new();
        defaults.insert(ErrorClass::RateLimit, RecoveryAction::RetryWithBackoff);
        defaults.insert(ErrorClass::NetworkTimeout, RecoveryAction::RetryWithBackoff);
        defaults.insert(ErrorClass::AuthFailure, RecoveryAction::Escalate);
        defaults.insert(ErrorClass::InvalidInput, RecoveryAction::Abort);
        defaults.insert(ErrorClass::NotFound, RecoveryAction::Skip);
        defaults.insert(ErrorClass::ServerError, RecoveryAction::RetryWithBackoff);
        defaults.insert(ErrorClass::Unknown, RecoveryAction::Abort);
        let policy = RecoveryPolicy { defaults, max_attempts: 3, events: Vec::new() };
        assert(policy@.actions =~= default_actions());
        assert(policy@.events =~= Seq::<EventView>::empty());
        policy
    }
}

impl RecoveryPolicy {
    /// Create a policy with default action mappings but a custom maximum number
    /// of attempts before [`record`](RecoveryPolicy::record) escalates.
    pub fn new(max_attempts: usize) -> (policy: Self)
        ensures
            policy@.actions == default_actions(),
            policy@.max_attempts == max_attempts,
            policy@.events == Seq::<EventView>::empty(),
    {
        let mut policy = Self::default();
        policy.max_attempts = max_attempts;
        policy
    }

    /// Override the action for a specific error class.
    pub fn set(&mut self, class: ErrorClass, action: RecoveryAction)
        ensures
            final(self)@.actions == old(self)@.actions.insert(class, action),
            final(self)@.max_attempts == old(self)@.max_attempts,
            final(self)@.events == old(self)@.events,
    {
        self.defaults.insert(class, action);
    }

    /// Recommend a recovery action for an error class.
    ///
    /// Classes without an explicit mapping fall back to
    /// [`RecoveryAction::Abort`].
    pub fn recommend(&self, class: ErrorClass) -> (action: RecoveryAction)
        ensures
            action == recommended(self@.actions, class),
    {
        match self.defaults.get(class) {
            Some(action) => action,
            None => RecoveryAction::Abort,
        }
    }

    /// Record an event and return the recommended action.
    ///
    /// `attempt` is the zero-based index of the retry being considered. Once
    /// `attempt` reaches [`max_attempts`](RecoveryPolicy::max_attempts) the
    /// recommendation is forced to [`RecoveryAction::Escalate`] regardless of
    /// the class mapping, so retries cannot loop forever.
    pub fn record(&mut self, tool: &str, class: ErrorClass, attempt: usize) -> (action:
        RecoveryAction)
        ensures
            action == decided_action(old(self)@, class, attempt),
            attempt < old(self)@.max_attempts ==> action == recommended(old(self)@.actions, class),
            attempt >= old(self)@.max_attempts ==> action == RecoveryAction::Escalate,
            final(self)@.actions == old(self)@.actions,
            final(self)@.max_attempts == old(self)@.max_attempts,
            final(self)@.events == old(self)@.events.push(
                EventView { tool_name: tool@, error_class: class, action, attempt },
            ),
    {
        let action = if attempt >= self.max_attempts {
            RecoveryAction::Escalate
        } else {
            self.recommend(class)
        };
        let event = RecoveryEvent { tool_name: tool.to_owned(), error_class: class, action, attempt };
        self.events.push(event);
        assert(self@.events =~= old(self)@.events.push(event@));
        action
    }

    /// All recorded recovery events, oldest first.
    pub fn events(&self) -> (events: &[RecoveryEvent])
        ensures
            events@.map_values(|e: RecoveryEvent| e@) == self@.events,
    {
        self.events.as_slice()
    }

    /// The maximum number of attempts before [`record`](RecoveryPolicy::record)
    /// escalates.
    pub fn max_attempts(&self) -> (n: usize)
        ensures
            n == self@.max_attempts,
    {
        self.max_attempts
    }

    /// Clear the recorded event log.
    pub fn clear_events(&mut self)
        ensures
            final(self)@.actions == old(self)@.actions,
            final(self)@.max_attempts == old(self)@.max_attempts,
            final(self)@.events == Seq::<EventView>::empty(),
    {
        self.events.clear();
        assert(self@.events =~= Seq::<EventView>::empty());
    }

    /// Count events recorded for a given tool.
    pub fn event_count_for(&self, tool: &str) -> (n: usize)
        ensures
            n == count_for_tool(self@.events, tool@),
    {
        let target = tool.to_owned();
        let ghost all = self@.events;
        let len = self.events.len();
        let mut count: usize = 0;
        let mut i: usize = 0;
        while i < len
            invariant
                len == self.events@.len(),
                all == self.events@.map_values(|e: RecoveryEvent| e@),
                target@ == tool@,
                i <= len,
                count <= i,
                count == count_for_tool(all.take(i as int), tool@),
            decreases len - i,
        {
            assert(all.take(i + 1).drop_last() =~= all.take(i as int));
            if self.events[i].tool_name == target {
                count += 1;
            }
            i += 1;
        }
        assert(all.take(len as int) =~= all);
        count
    }
}

/// Reading back a class after storing an action for it gives that action, and
/// storing an action for one class leaves the recommendation for every other
/// class unchanged.
pub proof fn lemma_set_then_recommend(
    actions: Map<ErrorClass, RecoveryAction>,
    class: ErrorClass,
    action: RecoveryAction,
    other: ErrorClass,
)
    ensures
        recommended(actions.insert(class, action), class) == action,
        actions.contains_key(other) ==> recommended(actions, other) == actions[other],
        !actions.contains_key(other) ==> recommended(actions, other) == RecoveryAction::Abort,
        other != class ==> recommended(actions.insert(class, action), other) == recommended(
            actions,
            other,
        ),
{
}

/// Below the limit, recording decides exactly the action that `recommend`
/// gives for the class on the same policy; from the limit on it decides
/// `Escalate`. So a below-limit decision is `Escalate` only where the class's
/// mapping itself says `Escalate`, and it asks for a retry, or for a backoff,
/// exactly where the mapping does.
pub proof fn lemma_record_follows_recommendation(
    policy: PolicyView,
    class: ErrorClass,
    attempt: usize,
)
    ensures
        attempt < policy.max_attempts ==> decided_action(policy, class, attempt) == recommended(
            policy.actions,
            class,
        ),
        attempt >= policy.max_attempts ==> decided_action(policy, class, attempt)
            == RecoveryAction::Escalate,
        decided_action(policy, class, attempt) == RecoveryAction::Escalate ==> attempt
            >= policy.max_attempts || recommended(policy.actions, class) == RecoveryAction::Escalate,
        attempt < policy.max_attempts ==> (decided_action(policy, class, attempt).retries()
            <==> recommended(policy.actions, class).retries()),
{
}

/// Once the attempt index reaches the limit the decision is `Escalate`, so a
/// retry is only ever decided below the limit: a loop that retries while told to
/// and counts its attempts up from zero stops by attempt `max_attempts`.
pub proof fn lemma_retries_stop_at_limit(policy: PolicyView, class: ErrorClass, attempt: usize)
    ensures
        attempt >= policy.max_attempts ==> decided_action(policy, class, attempt)
            == RecoveryAction::Escalate,
        decided_action(policy, class, attempt).retries() ==> attempt < policy.max_attempts,
{
}

/// A fresh policy maps every class; its default action asks for a retry, with
/// backoff, exactly for the transient classes, escalates an authorization
/// failure, skips a missing resource, and aborts on invalid input and unknown
/// errors.
pub proof fn lemma_defaults_cover_every_class(class: ErrorClass)
    ensures
        default_actions().contains_key(class),
        recommended(default_actions(), class) == default_action(class),
        default_action(class).retries() <==> class.transient(),
        class.transient() ==> default_action(class) == RecoveryAction::RetryWithBackoff,
        class == ErrorClass::AuthFailure ==> default_action(class) == RecoveryAction::Escalate,
        class == ErrorClass::NotFound ==> default_action(class) == RecoveryAction::Skip,
        class == ErrorClass::InvalidInput || class == ErrorClass::Unknown ==> default_action(class)
            == RecoveryAction::Abort,
{
}

/// Recording an event for a tool adds one to that tool's count and leaves the
/// count of every other tool unchanged.
pub proof fn lemma_count_after_record(events: Seq<EventView>, event: EventView, tool: Seq<char>)
    ensures
        count_for_tool(events.push(event), tool) == count_for_tool(events, tool) + if event.tool_name
            == tool {
            1nat
        } else {
            0nat
        },
{
    assert(events.push(event).drop_last() =~= events);
}

/// An empty log counts no event for any tool, and no tool is counted more often
/// than there are events.
pub proof fn lemma_count_bounds(events: Seq<EventView>, tool: Seq<char>)
    ensures
        count_for_tool(Seq::<EventView>::empty(), tool) == 0,
        count_for_tool(events, tool) <= events.len(),
    decreases events.len(),
{
    if events.len() > 0 {
        lemma_count_bounds(events.drop_last(), tool);
    }
}

} // verus!
