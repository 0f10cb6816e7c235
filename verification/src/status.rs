use vstd::prelude::*;

verus! {

/// Where a queued download stands.
#[derive(Debug, Clone)]
pub enum QueueStatus {
    Queued,
    Active,
    Paused,
    Seeding,
    Complete { success: bool },
    Error { message: String },
}

impl QueueStatus {
    /// A copy of this status.
    pub fn duplicate(&self) -> (s: QueueStatus)
        ensures
            s == *self,
    {
        match self {
            QueueStatus::Queued => QueueStatus::Queued,
            QueueStatus::Active => QueueStatus::Active,
            QueueStatus::Paused => QueueStatus::Paused,
            QueueStatus::Seeding => QueueStatus::Seeding,
            QueueStatus::Complete { success } => QueueStatus::Complete { success: *success },
            QueueStatus::Error { message } => QueueStatus::Error { message: message.clone() },
        }
    }

    /// The download is finished, one way or the other.
    pub open spec fn spec_is_finished(&self) -> bool {
        self is Complete || self is Error
    }

    /// The download still occupies the queue: waiting, running, paused or seeding.
    pub open spec fn spec_is_pending(&self) -> bool {
        self is Queued || self is Active || self is Paused || self is Seeding
    }

    /// Whether the download is finished, one way or the other.
    #[verifier::when_used_as_spec(spec_is_finished)]
    pub fn is_finished(&self) -> (b: bool)
        ensures
            b == self.spec_is_finished(),
    {
        matches!(self, QueueStatus::Complete { .. } | QueueStatus::Error { .. })
    }

    /// Whether the download still occupies the queue.
    #[verifier::when_used_as_spec(spec_is_pending)]
    pub fn is_pending(&self) -> (b: bool)
        ensures
            b == self.spec_is_pending(),
    {
        matches!(
            self,
            QueueStatus::Queued | QueueStatus::Active | QueueStatus::Paused | QueueStatus::Seeding
        )
    }
}

} // verus!
