use vstd::prelude::*;

verus! {

/// The kind of a stored memory.
#[derive(Clone, Copy, Debug, PartialEq, Eq, Structural)]
pub enum MemoryType {
    Episodic,
    Semantic,
    Procedural,
    Emotional,
}

/// The kind of feedback given to the learning component.
#[derive(Clone, Copy, Debug, PartialEq, Eq, Structural)]
pub enum FeedbackType {
    Positive,
    Negative,
    Neutral,
}

/// The name under which a memory type travels on the wire.
pub open spec fn memory_type_name(t: MemoryType) -> Seq<char> {
    match t {
        MemoryType::Episodic => "episodic"@,
        MemoryType::Semantic => "semantic"@,
        MemoryType::Procedural => "procedural"@,
        MemoryType::Emotional => "emotional"@,
    }
}

/// The name under which a feedback type travels on the wire.
pub open spec fn feedback_type_name(t: FeedbackType) -> Seq<char> {
    match t {
        FeedbackType::Positive => "positive"@,
        FeedbackType::Negative => "negative"@,
        FeedbackType::Neutral => "neutral"@,
    }
}

impl MemoryType {
    /// The lower-case wire name of this memory type.
    pub fn wire_name(&self) -> (r: &'static str)
        ensures
            r@ == memory_type_name(*self),
    {
        match self {
            MemoryType::Episodic => "episodic",
            MemoryType::Semantic => "semantic",
            MemoryType::Procedural => "procedural",
            MemoryType::Emotional => "emotional",
        }
    }
}

impl FeedbackType {
    /// The lower-case wire name of this feedback type.
    pub fn wire_name(&self) -> (r: &'static str)
        ensures
            r@ == feedback_type_name(*self),
    {
        match self {
            FeedbackType::Positive => "positive",
            FeedbackType::Negative => "negative",
            FeedbackType::Neutral => "neutral",
        }
    }
}

} // verus!
