//! Value type for one crowd-sourced segment: a time range tagged with a
//! category and the action the player should take over it.
//!
//! Times are playback positions in milliseconds; the embedding layer converts
//! the host's floating-point seconds before any value enters the library.

use vstd::prelude::*;

verus! {

/// What the player should do while the playback position is inside a segment.
#[derive(Clone, Copy, Debug, PartialEq, Eq, Structural)]
pub enum Action {
    /// Seek over the range.
    Skip,
    /// Silence the audio over the range.
    Mute,
    /// The range marks a single highlight timestamp.
    Poi,
    /// The whole video belongs to the segment's category.
    Full,
}

/// The recognized segment categories.
#[derive(Clone, Copy, Debug, PartialEq, Eq, Structural)]
pub enum Category {
    Sponsor,
    SelfPromo,
    Interaction,
    PoiHighlight,
    Intro,
    Outro,
    Preview,
    MusicOfftopic,
    Filler,
    ExclusiveAccess,
}

/// One segment record, immutable once decoded from the fetch response.
#[derive(Clone, Copy, Debug, PartialEq, Eq, Structural)]
pub struct Segment {
    /// Start of the range, in milliseconds.
    pub start: u64,
    /// End of the range, in milliseconds; never before `start`.
    pub end: u64,
    pub category: Category,
    pub action: Action,
}

impl Segment {
    /// A well-formed range does not end before it starts.
    pub open spec fn wf(self) -> bool {
        self.start <= self.end
    }

    /// Record identity: two records are the same segment iff range and
    /// category match.  The action is derived data and takes no part in
    /// identity; this is the boundary used to detect "still inside the same
    /// mute segment".
    pub open spec fn same_record(self, other: Segment) -> bool {
        self.start == other.start && self.end == other.end && self.category == other.category
    }

    /// The range contains `t`, both boundaries inclusive: a skip targets the
    /// end boundary itself, so the end still counts as inside.
    pub open spec fn spec_contains_time(self, t: u64) -> bool {
        self.start <= t <= self.end
    }

    pub fn new(start: u64, end: u64, category: Category, action: Action) -> (r: Segment)
        requires
            start <= end,
        ensures
            r == (Segment { start, end, category, action }),
            r.wf(),
    {
        Segment { start, end, category, action }
    }

    /// Runtime check of `spec_contains_time`.
    pub fn is_in_segment(&self, t: u64) -> (r: bool)
        ensures
            r == self.spec_contains_time(t),
    {
        self.start <= t && t <= self.end
    }

    /// Runtime check of `same_record`.
    pub fn eq_record(&self, other: &Segment) -> (r: bool)
        ensures
            r == self.same_record(*other),
    {
        self.start == other.start && self.end == other.end && self.category == other.category
    }
}

} // verus!
