use price_poller::error::PollError;
use price_poller::record::PriceData;
use price_poller::request::{accept_json, authorization, plain_text, Method};
use price_poller::sink::{check_status, ConfigKey, InfluxConfig, SUCCESS_STATUS};

fn config() -> InfluxConfig {
    InfluxConfig {
        host: String::from("http://influx:8086"),
        org: String::from("home"),
        bucket: String::from("prices"),
        token: String::from("SECRET-REDACTED"),
    }
}

#[test]
fn url_of_the_write_endpoint() {
    assert_eq!(
        config().write_url(),
        "http://influx:8086/api/v2/write?bucket=prices&org=home&precision=s"
    );
}

#[test]
fn authorization_carries_the_token() {
    let header = authorization("SECRET-REDACTED");
    assert_eq!(header.name, "Authorization");
    assert_eq!(header.value, "Token SECRET-REDACTED");
    assert_eq!(authorization("").value, "Token ");
}

#[test]
fn body_is_announced_as_plain_text() {
    let header = plain_text();
    assert_eq!(header.name, "Content-Type");
    assert_eq!(header.value, "text/plain; charset=utf-8");
}

#[test]
fn headers_of_a_write() {
    let headers = config().headers();
    assert_eq!(headers.len(), 3);
    assert_eq!(headers[0].name, "Accept");
    assert_eq!(headers[0].value, "application/json");
    assert_eq!(headers[1].name, "Content-Type");
    assert_eq!(headers[1].value, "text/plain; charset=utf-8");
    assert_eq!(headers[2].name, "Authorization");
    assert_eq!(headers[2].value, "Token SECRET-REDACTED");
}

#[test]
fn header_of_a_quote_request() {
    let header = accept_json();
    assert_eq!(header.name, "Accept");
    assert_eq!(header.value, "application/json");
}

#[test]
fn write_carries_the_line() {
    let record = PriceData {
        source: String::from("Coinbase"),
        asset: String::from("BTC"),
        currency: String::from("GBP"),
        buy: 50000.5f32.to_string(),
        sell: 49950.25f32.to_string(),
        spot: 50010.0f32.to_string(),
        timestamp: 1700000000,
    };
    let request = config().write_request(&record);
    assert_eq!(request.method, Method::Post);
    assert_eq!(
        request.url,
        "http://influx:8086/api/v2/write?bucket=prices&org=home&precision=s"
    );
    let headers: Vec<(&str, &str)> =
        request.headers.iter().map(|h| (h.name.as_str(), h.value.as_str())).collect();
    assert_eq!(
        headers,
        vec![
            ("Accept", "application/json"),
            ("Content-Type", "text/plain; charset=utf-8"),
            ("Authorization", "Token SECRET-REDACTED"),
        ]
    );
    assert_eq!(
        request.body.as_deref(),
        Some("BTC,source=Coinbase,currency=GBP buy=50000.5,sell=49950.25,spot=50010 1700000000")
    );
}

#[test]
fn status_204_is_success() {
    assert_eq!(SUCCESS_STATUS, 204);
    assert_eq!(check_status(204), Ok(()));
}

#[test]
fn status_500_is_a_failure_of_the_sink() {
    assert_eq!(check_status(500), Err(PollError::Submit { status: 500 }));
}

#[test]
fn every_other_status_is_a_failure_of_the_sink() {
    for status in 0u16..1000 {
        if status != 204 {
            assert_eq!(check_status(status), Err(PollError::Submit { status }));
        }
    }
    assert_eq!(check_status(200), Err(PollError::Submit { status: 200 }));
}

#[test]
fn configuration_from_four_values() {
    let assembled = InfluxConfig::assemble(
        Some(String::from("h")),
        Some(String::from("b")),
        Some(String::from("o")),
        Some(String::from("t")),
    )
    .unwrap();
    assert_eq!(assembled.host, "h");
    assert_eq!(assembled.bucket, "b");
    assert_eq!(assembled.org, "o");
    assert_eq!(assembled.token, "t");
}

#[test]
fn configuration_with_a_missing_key() {
    let some = || Some(String::from("x"));
    assert_eq!(
        InfluxConfig::assemble(None, some(), some(), some()).unwrap_err(),
        PollError::Config { key: ConfigKey::Host }
    );
    assert_eq!(
        InfluxConfig::assemble(some(), None, some(), some()).unwrap_err(),
        PollError::Config { key: ConfigKey::Bucket }
    );
    assert_eq!(
        InfluxConfig::assemble(some(), some(), None, some()).unwrap_err(),
        PollError::Config { key: ConfigKey::Org }
    );
    assert_eq!(
        InfluxConfig::assemble(some(), some(), some(), None).unwrap_err(),
        PollError::Config { key: ConfigKey::Token }
    );
}

#[test]
fn first_missing_key_is_named() {
    let some = || Some(String::from("x"));
    assert_eq!(
        InfluxConfig::assemble(None, None, None, None).unwrap_err(),
        PollError::Config { key: ConfigKey::Host }
    );
    assert_eq!(
        InfluxConfig::assemble(some(), None, some(), None).unwrap_err(),
        PollError::Config { key: ConfigKey::Bucket }
    );
    assert_eq!(
        InfluxConfig::assemble(some(), some(), None, None).unwrap_err(),
        PollError::Config { key: ConfigKey::Org }
    );
}

#[test]
fn names_of_the_keys() {
    assert_eq!(ConfigKey::Host.as_str(), "host");
    assert_eq!(ConfigKey::Bucket.as_str(), "bucket");
    assert_eq!(ConfigKey::Org.as_str(), "org");
    assert_eq!(ConfigKey::Token.as_str(), "token");
}

fn settings(entries: &[(&str, &str)]) -> config::Config {
    let mut builder = config::Config::builder();
    for (key, value) in entries {
        builder = builder.set_override(*key, *value).unwrap();
    }
    builder.build().unwrap()
}

#[test]
fn configuration_from_settings() {
    let settings = settings(&[
        ("host", "http://influx:8086"),
        ("bucket", "prices"),
        ("org", "home"),
        ("token", "SECRET-REDACTED"),
        ("other", "ignored"),
    ]);
    let read = InfluxConfig::from_settings(&settings).unwrap();
    assert_eq!(read.host, "http://influx:8086");
    assert_eq!(read.bucket, "prices");
    assert_eq!(read.org, "home");
    assert_eq!(read.token, "SECRET-REDACTED");
}

#[test]
fn configuration_from_settings_with_a_number() {
    let settings = config::Config::builder()
        .set_override("host", "h")
        .unwrap()
        .set_override("bucket", 17)
        .unwrap()
        .set_override("org", true)
        .unwrap()
        .set_override("token", "t")
        .unwrap()
        .build()
        .unwrap();
    let read = InfluxConfig::from_settings(&settings).unwrap();
    assert_eq!(read.bucket, "17");
    assert_eq!(read.org, "true");
}

#[test]
fn configuration_from_settings_that_lack_a_key() {
    let all = [("host", "h"), ("bucket", "b"), ("org", "o"), ("token", "t")];
    let keys = [ConfigKey::Host, ConfigKey::Bucket, ConfigKey::Org, ConfigKey::Token];
    for missing in 0..4 {
        let mut entries = all.to_vec();
        entries.remove(missing);
        let settings = settings(&entries);
        assert_eq!(
            InfluxConfig::from_settings(&settings).unwrap_err(),
            PollError::Config { key: keys[missing] }
        );
    }
    assert_eq!(
        InfluxConfig::from_settings(&settings(&[])).unwrap_err(),
        PollError::Config { key: ConfigKey::Host }
    );
}

#[test]
fn configuration_from_settings_where_a_key_holds_a_table() {
    let settings = settings(&[("host", "h"), ("bucket.name", "b"), ("org", "o"), ("token", "t")]);
    assert_eq!(
        InfluxConfig::from_settings(&settings).unwrap_err(),
        PollError::Config { key: ConfigKey::Bucket }
    );
}
