//! Decisions of the transport that need no connection to a broker.

use vstd::prelude::*;

use crate::status;
use crate::status::{invalid_argument, UStatus};

verus! {

/// The topic to which a listener is to be added, or from which it is to be removed, if its filters
/// could be turned into a topic. Otherwise the filters are refused for the reason that is given.
pub fn listener_topic(topic: Result<String, String>) -> (r: Result<String, UStatus>)
    ensures
        match topic {
            Ok(topic) => r == Ok::<String, UStatus>(topic),
            Err(reason) => r matches Err(e) && e@ == status::invalid(reason@),
        },
{
    match topic {
        Ok(topic) => Ok(topic),
        Err(reason) => Err(invalid_argument(reason)),
    }
}

} // verus!
