use vstd::prelude::*;

verus! {

/// The ping service's answer to the message it receives: always `"Pong!"`,
/// whatever the ping said.
pub fn ping_service(ping: &str) -> (reply: String)
    ensures
        reply@ == "Pong!"@,
{
    "Pong!".to_owned()
}

} // verus!
