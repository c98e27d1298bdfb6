use vstd::prelude::*;

verus! {

/// An instant, as whole nanoseconds since the Unix epoch (UTC).
#[derive(Debug, Clone, Copy, Hash, PartialEq, Eq, Structural)]
pub struct Timestamp(i128);

impl View for Timestamp {
    type V = i128;

    closed spec fn view(&self) -> i128 {
        self.0
    }
}

impl Timestamp {
    pub fn new(unix_nanos: i128) -> (r: Timestamp)
        ensures
            r@ == unix_nanos,
    {
        Timestamp(unix_nanos)
    }

    /// Two instants are equal exactly when their values are.
    pub proof fn lemma_value_equal(a: Timestamp, b: Timestamp)
        ensures
            a == b <==> a@ == b@,
    {
    }

    pub fn unix_nanos(&self) -> (r: i128)
        ensures
            r == self@,
    {
        self.0
    }
}

/// Relies on `time::OffsetDateTime::now_utc` for the current instant, read as
/// nanoseconds since the Unix epoch by `unix_timestamp_nanos`. Nothing is
/// promised of the value: it is whatever the system clock says.
#[verifier::external_body]
pub(crate) fn current_time() -> (r: Timestamp) {
    Timestamp(time::OffsetDateTime::now_utc().unix_timestamp_nanos())
}

/// The instant at which a record was first stored.
#[derive(Debug, Clone, Copy, Hash, PartialEq, Eq, Structural)]
pub struct CreatedAt(Timestamp);

impl View for CreatedAt {
    type V = i128;

    closed spec fn view(&self) -> i128 {
        self.0@
    }
}

impl AsRef<Timestamp> for CreatedAt {
    fn as_ref(&self) -> (r: &Timestamp)
        ensures
            r@ == self@,
    {
        &self.0
    }
}

impl CreatedAt {
    pub fn new(time: Timestamp) -> (r: CreatedAt)
        ensures
            r@ == time@,
    {
        CreatedAt(time)
    }

    pub fn timestamp(&self) -> (r: Timestamp)
        ensures
            r@ == self@,
    {
        self.0
    }
}

/// The instant at which a record was last changed.
#[derive(Debug, Clone, Copy, Hash, PartialEq, Eq, Structural)]
pub struct UpdatedAt(Timestamp);

impl View for UpdatedAt {
    type V = i128;

    closed spec fn view(&self) -> i128 {
        self.0@
    }
}

impl AsRef<Timestamp> for UpdatedAt {
    fn as_ref(&self) -> (r: &Timestamp)
        ensures
            r@ == self@,
    {
        &self.0
    }
}

impl UpdatedAt {
    pub fn new(time: Timestamp) -> (r: UpdatedAt)
        ensures
            r@ == time@,
    {
        UpdatedAt(time)
    }

    pub fn timestamp(&self) -> (r: Timestamp)
        ensures
            r@ == self@,
    {
        self.0
    }
}

/// The creation and last-update instants of a record.
#[derive(Debug, Clone, Copy, Hash, PartialEq, Eq, Structural)]
pub struct UpdateTime {
    created_at: CreatedAt,
    updated_at: UpdatedAt,
}

/// The parts of an `UpdateTime`, open to change; `freeze` builds a new one.
#[derive(Debug, Clone, Copy, Hash, PartialEq, Eq, Structural)]
pub struct DestructUpdateTime {
    pub created_at: CreatedAt,
    pub updated_at: UpdatedAt,
}

impl View for UpdateTime {
    type V = (i128, i128);

    closed spec fn view(&self) -> (i128, i128) {
        (self.created_at@, self.updated_at@)
    }
}

impl View for DestructUpdateTime {
    type V = (i128, i128);

    open spec fn view(&self) -> (i128, i128) {
        (self.created_at@, self.updated_at@)
    }
}

impl UpdateTime {
    pub fn new(created_at: Timestamp, updated_at: Timestamp) -> (r: UpdateTime)
        ensures
            r@ == (created_at@, updated_at@),
    {
        UpdateTime {
            created_at: CreatedAt::new(created_at),
            updated_at: UpdatedAt::new(updated_at),
        }
    }

    pub fn created_at(&self) -> (r: &CreatedAt)
        ensures
            r@ == self@.0,
    {
        &self.created_at
    }

    pub fn updated_at(&self) -> (r: &UpdatedAt)
        ensures
            r@ == self@.1,
    {
        &self.updated_at
    }

    /// The parts of this value.
    pub closed spec fn parts(self) -> DestructUpdateTime {
        DestructUpdateTime { created_at: self.created_at, updated_at: self.updated_at }
    }

    pub fn into_destruct(self) -> (d: DestructUpdateTime)
        ensures
            d == self.parts(),
            d@ == self@,
    {
        DestructUpdateTime { created_at: self.created_at, updated_at: self.updated_at }
    }
}

impl DestructUpdateTime {
    /// The value that these parts make up.
    pub closed spec fn frozen(self) -> UpdateTime {
        UpdateTime { created_at: self.created_at, updated_at: self.updated_at }
    }

    pub fn freeze(self) -> (r: UpdateTime)
        ensures
            r == self.frozen(),
            r@ == self@,
    {
        UpdateTime { created_at: self.created_at, updated_at: self.updated_at }
    }
}

/// Taking an `UpdateTime` apart and freezing the parts unchanged gives back
/// the same value.
pub proof fn lemma_update_time_round_trip(t: UpdateTime)
    ensures
        t.parts().frozen() == t,
{
}

/// Freezing parts and taking the result apart gives back the same parts.
pub proof fn lemma_update_time_parts_round_trip(d: DestructUpdateTime)
    ensures
        d.frozen().parts() == d,
{
}

} // verus!
