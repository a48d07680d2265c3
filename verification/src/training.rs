//! Training: text that the user hands over, rewritten by the text service
//! and kept under the time at which it came in.

use crate::json::{Json, JsonView};
use crate::knowledge::{Knowledge, KnowledgeView};
use crate::provider::{reply_text, reply_text_of};
use vstd::prelude::*;

verus! {

impl KnowledgeView {
    /// This store once the text service has replied to a training at the
    /// time `timestamp`: an empty reply changes nothing.
    pub open spec fn trained(self, timestamp: int, reply: JsonView) -> KnowledgeView {
        if reply_text_of(reply).len() == 0 {
            self
        } else {
            self.with_training(timestamp, reply_text_of(reply))
        }
    }
}

impl Knowledge {
    /// Takes in what the text service made of a training text, as of the
    /// time `timestamp`, in seconds since the start of 1970. Says whether
    /// the store has changed, and so has to be saved.
    pub fn train_at(&mut self, timestamp: i64, reply: &Json) -> (changed: bool)
        ensures
            final(self)@ == old(self)@.trained(timestamp as int, reply@),
            changed == (reply_text_of(reply@).len() > 0),
    {
        let text = reply_text(reply);
        if text.as_str().is_empty() {
            false
        } else {
            self.record_training(timestamp, text);
            true
        }
    }
}

} // verus!
