use price_poller::error::PollError;
use price_poller::sink::ConfigKey;

#[test]
fn message_of_each_failure() {
    assert_eq!(
        PollError::Config { key: ConfigKey::Bucket }.message(),
        "no text in the settings under bucket"
    );
    assert_eq!(PollError::Fetch.message(), "request failed");
    assert_eq!(PollError::Parse.message(), "unexpected response");
    assert_eq!(PollError::Submit { status: 500 }.message(), "incorrect status");
    assert_eq!(PollError::Scheduler.message(), "first tick cannot be scheduled");
}

#[test]
fn only_a_failure_of_the_sink_has_a_diagnostic() {
    assert_eq!(PollError::Submit { status: 500 }.diagnostic().as_deref(), Some("incorrect status"));
    assert_eq!(PollError::Submit { status: 200 }.diagnostic().as_deref(), Some("incorrect status"));
    assert_eq!(PollError::Config { key: ConfigKey::Host }.diagnostic(), None);
    assert_eq!(PollError::Fetch.diagnostic(), None);
    assert_eq!(PollError::Parse.diagnostic(), None);
    assert_eq!(PollError::Scheduler.diagnostic(), None);
}
