pub mod container;
pub mod eventbridge;
pub mod http;
pub mod sns;
pub mod sqs;

pub use eventbridge::EventBridgeHandler;
pub use sqs::SqsHandler;

use vstd::prelude::*;

verus! {

/// One event to process: its type and its raw data.
#[derive(Debug, Clone)]
pub struct EventInput {
    pub event_type: String,
    pub event_data: String,
}

impl View for EventInput {
    type V = (Seq<char>, Seq<char>);

    open spec fn view(&self) -> (Seq<char>, Seq<char>) {
        (self.event_type@, self.event_data@)
    }
}

/// What a handler does next while working through a batch of inputs.
#[derive(Debug, Clone, Copy, PartialEq, Eq, Structural)]
pub enum BatchStep {
    /// Prepare and store the input at this position.
    Process(usize),
    /// Every input was stored: the batch succeeded.
    Finished,
    /// The last input failed: the batch ends with that failure.
    Stop,
}

/// The step after `done` of `total` inputs have been handled, where
/// `last_failed` tells whether the last one failed: inputs are handled in
/// order, and the first failure ends the batch.
pub fn next_step(total: usize, done: usize, last_failed: bool) -> (res: BatchStep)
    ensures
        last_failed ==> res == BatchStep::Stop,
        !last_failed && done < total ==> res == BatchStep::Process(done),
        !last_failed && done >= total ==> res == BatchStep::Finished,
{
    if last_failed {
        BatchStep::Stop
    } else if done < total {
        BatchStep::Process(done)
    } else {
        BatchStep::Finished
    }
}

/// The text of an optional string, and the empty text where there is none.
pub open spec fn text_or_empty(s: Option<String>) -> Seq<char> {
    match s {
        Some(t) => t@,
        None => Seq::empty(),
    }
}

/// The text of a present string is that string's whole text, whatever its
/// length; an absent one gives the empty text.
pub proof fn law_text_or_empty(s: Option<String>)
    ensures
        s matches Some(t) ==> text_or_empty(s) == t@,
        s is None ==> text_or_empty(s) == Seq::<char>::empty(),
        forall|t: String| #[trigger] text_or_empty(Some(t)) == t@,
{
}

/// An optional string, or the empty string where there is none.
pub fn string_or_empty(s: &Option<String>) -> (res: String)
    ensures
        res@ == text_or_empty(*s),
{
    match s {
        Some(t) => t.clone(),
        None => String::new(),
    }
}

} // verus!
