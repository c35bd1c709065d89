use vstd::prelude::*;

verus! {

/// The argument of the plugin's `ping` command.
#[derive(Clone, Debug, PartialEq, Eq)]
pub struct PingRequest {
    pub value: Option<String>,
}

/// The answer of the plugin's `ping` command.
#[derive(Clone, Debug, PartialEq, Eq)]
pub struct PingResponse {
    pub value: Option<String>,
}

/// Answers a ping with the value it carried.
pub fn ping(payload: PingRequest) -> (response: PingResponse)
    ensures
        response.value == payload.value,
{
    PingResponse { value: payload.value }
}

} // verus!
