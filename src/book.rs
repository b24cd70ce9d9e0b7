use vstd::prelude::*;

verus! {

/// A moment in time as the wall clock gave it: seconds and nanoseconds since the
/// Unix epoch, and the local offset from UTC in seconds.
#[derive(Clone, Copy, Debug, PartialEq, Eq, Structural)]
pub struct Timestamp {
    pub secs: i64,
    pub nanos: u32,
    pub offset_secs: i32,
}

impl Timestamp {
    /// The instant, in nanoseconds since the epoch; the offset does not move it.
    pub open spec fn instant(self) -> int {
        self.secs * 1_000_000_000 + self.nanos
    }

    /// `self` does not come before `other`.
    pub open spec fn not_earlier_than(self, other: Timestamp) -> bool {
        self.instant() >= other.instant()
    }
}

/// The one managed entity.
#[derive(Debug)]
pub struct Book {
    pub id: u128,
    pub title: String,
    pub author: String,
    pub pages: i64,
    pub created_at: Timestamp,
    pub updated_at: Timestamp,
}

impl Clone for Book {
    fn clone(&self) -> (r: Self)
        ensures
            r == *self,
    {
        Book {
            id: self.id,
            title: self.title.clone(),
            author: self.author.clone(),
            pages: self.pages,
            created_at: self.created_at,
            updated_at: self.updated_at,
        }
    }
}

/// Payload of a create request; every field may be missing on the wire.
#[derive(Clone, Debug)]
pub struct CreateBook {
    pub title: Option<String>,
    pub author: Option<String>,
    pub pages: Option<i64>,
}

impl CreateBook {
    /// All three fields are present.
    pub open spec fn is_complete(&self) -> bool {
        self.title.is_some() && self.author.is_some() && self.pages.is_some()
    }
}

/// Payload of an update request: a full replacement, with the same shape as a create.
#[derive(Clone, Debug)]
pub struct UpdateBook {
    pub title: Option<String>,
    pub author: Option<String>,
    pub pages: Option<i64>,
}

impl UpdateBook {
    /// All three fields are present.
    pub open spec fn is_complete(&self) -> bool {
        self.title.is_some() && self.author.is_some() && self.pages.is_some()
    }
}

} // verus!
