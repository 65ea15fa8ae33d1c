//! The kinds of failure that stop the poller.

use vstd::prelude::*;
use crate::sink::ConfigKey;

verus! {

/// Why the poller stopped. Every kind is fatal: nothing is retried.
#[derive(Clone, Copy, Debug, PartialEq, Eq, Structural)]
pub enum PollError {
    /// The sink's configuration holds no text under this key.
    Config { key: ConfigKey },
    /// A request could not be completed: network or transport failure.
    Fetch,
    /// A response body did not have the expected shape, or an amount in it
    /// was not a number.
    Parse,
    /// The sink answered with a status other than the one that means success.
    Submit { status: u16 },
    /// The first firing instant cannot be computed from the interval.
    Scheduler,
}

impl PollError {
    /// What the failure says of itself, in words.
    pub open spec fn message_spec(self) -> Seq<char> {
        match self {
            PollError::Config { key } => "no text in the settings under "@ + key.name(),
            PollError::Fetch => "request failed"@,
            PollError::Parse => "unexpected response"@,
            PollError::Submit { .. } => "incorrect status"@,
            PollError::Scheduler => "first tick cannot be scheduled"@,
        }
    }

    /// What is written to standard output before the process stops: the
    /// message of a failure of the sink, and nothing for any other failure.
    pub open spec fn diagnostic_spec(self) -> Option<Seq<char>> {
        match self {
            PollError::Submit { .. } => Some(self.message_spec()),
            _ => None,
        }
    }

    pub fn message(&self) -> (text: String)
        ensures
            text@ == self.message_spec(),
    {
        match self {
            PollError::Config { key } => {
                let mut text = String::from_str("no text in the settings under ");
                text.append(key.as_str());
                text
            },
            PollError::Fetch => String::from_str("request failed"),
            PollError::Parse => String::from_str("unexpected response"),
            PollError::Submit { .. } => String::from_str("incorrect status"),
            PollError::Scheduler => String::from_str("first tick cannot be scheduled"),
        }
    }

    pub fn diagnostic(&self) -> (text: Option<String>)
        ensures
            text is Some <==> self.diagnostic_spec() is Some,
            text is Some ==> text->Some_0@ == self.diagnostic_spec()->Some_0,
    {
        match self {
            PollError::Submit { .. } => Some(self.message()),
            _ => None,
        }
    }
}

} // verus!
