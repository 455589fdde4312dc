//! The dispatcher's decision: which updates reach the handler. The loop
//! itself — pulling updates from the platform, awaiting, performing the
//! sends — lives outside this crate and consults `step` for each element.

use vstd::prelude::*;
use crate::handler::HandlerAction;
use crate::handler::IncomingMessage;
use crate::handler::action_view;
use crate::handler::handle;
use crate::handler::spec_handle;

verus! {

/// One event delivered by the platform: a new chat message, or any other
/// kind of update (an edit, a reaction), which the bot ignores.
pub enum Update {
    Message(IncomingMessage),
    Other,
}

/// The decision owed for one update: a message update is decided by the
/// handler, every other kind gets no reply.
pub open spec fn spec_step(u: Update) -> Option<(i64, Seq<char>)> {
    match u {
        Update::Message(m) => spec_handle(m),
        Update::Other => None,
    }
}

/// Routes one update: a message update goes to the handler, any other kind
/// is discarded with no observable effect.
pub fn step(update: Update) -> (action: HandlerAction)
    ensures
        action_view(action) == spec_step(update),
{
    match update {
        Update::Message(m) => handle(&m),
        Update::Other => HandlerAction::Ignore,
    }
}

} // verus!
