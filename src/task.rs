use vstd::prelude::*;

verus! {

/// Whether a task is still to be done or has been done.
#[derive(Debug, Clone, Copy, PartialEq, Eq, Structural)]
pub enum TaskStatus {
    Pending,
    Completed,
}

/// The priority of a task: high, medium, low, or none assigned yet.
#[derive(Debug, Clone, Copy, PartialEq, Eq, Structural)]
pub enum TaskPreference {
    Alto,
    Medio,
    Baixo,
    Vazio,
}

/// A point in UTC time: whole seconds since the Unix epoch and the
/// nanoseconds past that second.
#[derive(Debug, Clone, Copy, PartialEq, Eq, Structural)]
pub struct Timestamp {
    pub secs: i64,
    pub nanos: u32,
}

impl Timestamp {
    /// `self` is not after `other`.
    pub open spec fn spec_le(self, other: Timestamp) -> bool {
        self.secs < other.secs || (self.secs == other.secs && self.nanos <= other.nanos)
    }

    pub fn le(&self, other: &Timestamp) -> (r: bool)
        ensures
            r == self.spec_le(*other),
    {
        self.secs < other.secs || (self.secs == other.secs && self.nanos <= other.nanos)
    }
}

/// The later of two timestamps.
pub open spec fn spec_later(a: Timestamp, b: Timestamp) -> Timestamp {
    if a.spec_le(b) {
        b
    } else {
        a
    }
}

/// Relies on chrono::Utc::now: the current UTC time, read from the system
/// clock as a duration since the Unix epoch, hence never before it and with
/// fewer than a billion nanoseconds past the second.
#[verifier::external_body]
fn now() -> (r: Timestamp)
    ensures
        r.secs >= 0,
        r.nanos < 1_000_000_000,
{
    let t = chrono::Utc::now();
    Timestamp { secs: t.timestamp(), nanos: t.timestamp_subsec_nanos() }
}

/// What `str::trim` leaves of a text: the text without its leading and
/// trailing whitespace.
pub uninterp spec fn trimmed(s: Seq<char>) -> Seq<char>;

/// Relies on str::trim: the text with leading and trailing Unicode whitespace
/// removed, a function of the text alone.
#[verifier::external_body]
pub(crate) fn trim_text(s: &str) -> (r: String)
    ensures
        r@ == trimmed(s@),
{
    s.trim().to_string()
}

/// One item of the list.
///
/// Completion is held once, in `status`; `completed_at` records when it
/// happened.
#[derive(Debug, Clone)]
pub struct Task {
    pub title: String,
    pub status: TaskStatus,
    pub preference: TaskPreference,
    pub created_at: Timestamp,
    pub completed_at: Option<Timestamp>,
    pub description: String,
}

impl Task {
    /// A completion time is recorded exactly for a completed task, and is
    /// never before the creation time.
    pub open spec fn wf(self) -> bool {
        &&& (self.completed_at is Some <==> self.status == TaskStatus::Completed)
        &&& (self.completed_at matches Some(c) ==> self.created_at.spec_le(c))
    }

    /// `self` marked completed at `when`, or at its creation time where `when`
    /// comes before it; every other field kept.
    pub open spec fn spec_completed_at(self, when: Timestamp) -> Task {
        Task {
            status: TaskStatus::Completed,
            completed_at: Some(spec_later(self.created_at, when)),
            ..self
        }
    }

    /// `self` with its priority replaced; every other field kept.
    pub open spec fn spec_with_preference(self, p: TaskPreference) -> Task {
        Task { preference: p, ..self }
    }

    /// A pending task without priority, created at `created_at`.
    pub fn new_at(title: String, description: String, created_at: Timestamp) -> (r: Task)
        ensures
            r.title == title,
            r.description == description,
            r.status == TaskStatus::Pending,
            r.preference == TaskPreference::Vazio,
            r.created_at == created_at,
            r.completed_at is None,
            r.wf(),
    {
        Task {
            title,
            status: TaskStatus::Pending,
            preference: TaskPreference::Vazio,
            created_at,
            completed_at: None,
            description,
        }
    }

    /// A pending task without priority, created now. The texts are kept as
    /// they are given.
    pub fn new(title: String, description: String) -> (r: Task)
        ensures
            r.title == title,
            r.description == description,
            r.status == TaskStatus::Pending,
            r.preference == TaskPreference::Vazio,
            r.completed_at is None,
            r.wf(),
    {
        Task::new_at(title, description, now())
    }

    /// Marks the task completed at `when`. Where `when` is before the
    /// creation time, the creation time is recorded instead, so that
    /// completion never precedes creation.
    pub fn complete_at(&mut self, when: Timestamp)
        ensures
            *final(self) == old(self).spec_completed_at(when),
            final(self).wf(),
    {
        let at = if self.created_at.le(&when) {
            when
        } else {
            self.created_at
        };
        self.status = TaskStatus::Completed;
        self.completed_at = Some(at);
    }

    /// Marks the task completed now. Completing again records the later time.
    pub fn complete(&mut self)
        ensures
            exists|when: Timestamp| *final(self) == old(self).spec_completed_at(when),
            final(self).status == TaskStatus::Completed,
            final(self).completed_at matches Some(c) && old(self).created_at.spec_le(c),
            final(self).wf(),
    {
        let when = now();
        self.complete_at(when);
    }

    /// Whether the task is done: the status read as a flag.
    pub fn completed(&self) -> (r: bool)
        ensures
            r == (self.status == TaskStatus::Completed),
    {
        self.status == TaskStatus::Completed
    }

    /// Replaces the priority.
    pub fn set_preference(&mut self, p: TaskPreference)
        ensures
            *final(self) == old(self).spec_with_preference(p),
    {
        self.preference = p;
    }

    /// Sets the priority to high.
    pub fn high(&mut self)
        ensures
            *final(self) == old(self).spec_with_preference(TaskPreference::Alto),
    {
        self.set_preference(TaskPreference::Alto);
    }

    /// Sets the priority to medium.
    pub fn average(&mut self)
        ensures
            *final(self) == old(self).spec_with_preference(TaskPreference::Medio),
    {
        self.set_preference(TaskPreference::Medio);
    }

    /// Sets the priority to low.
    pub fn low(&mut self)
        ensures
            *final(self) == old(self).spec_with_preference(TaskPreference::Baixo),
    {
        self.set_preference(TaskPreference::Baixo);
    }
}

} // verus!
