use vstd::prelude::*;

verus! {

/// Recommended action for a recovery.
#[derive(Debug, Clone, Copy, PartialEq, Eq, Hash, Structural)]
pub enum RecoveryAction {
    /// Retry immediately.
    RetryImmediate,
    /// Retry after exponential backoff.
    RetryWithBackoff,
    /// Abort and report error to the LLM.
    Abort,
    /// Skip this tool call and continue.
    Skip,
    /// Escalate to human / supervisor.
    Escalate,
}

/// The snake-case label under which an action is displayed.
pub open spec fn action_label(action: RecoveryAction) -> Seq<char> {
    match action {
        RecoveryAction::RetryImmediate => "retry_immediate"@,
        RecoveryAction::RetryWithBackoff => "retry_with_backoff"@,
        RecoveryAction::Abort => "abort"@,
        RecoveryAction::Skip => "skip"@,
        RecoveryAction::Escalate => "escalate"@,
    }
}

impl RecoveryAction {
    /// Whether this action asks the caller to retry the tool call.
    pub open spec fn retries(self) -> bool {
        self is RetryImmediate || self is RetryWithBackoff
    }

    /// Whether this action asks the caller to retry the tool call.
    pub fn is_retry(&self) -> (b: bool)
        ensures
            b == self.retries(),
    {
        matches!(self, RecoveryAction::RetryImmediate | RecoveryAction::RetryWithBackoff)
    }

    /// The snake-case label of this action (`"retry_with_backoff"`, `"abort"`, ...),
    /// as the action is displayed.
    pub fn to_string(&self) -> (s: String)
        ensures
            s@ == action_label(*self),
    {
        let label: &str = match self {
            RecoveryAction::RetryImmediate => "retry_immediate",
            RecoveryAction::RetryWithBackoff => "retry_with_backoff",
            RecoveryAction::Abort => "abort",
            RecoveryAction::Skip => "skip",
            RecoveryAction::Escalate => "escalate",
        };
        label.to_owned()
    }
}

} // verus!
