//! The time-series sink: where a line is written to, under which headers,
//! and which answer means that it was taken.

use vstd::prelude::*;
use config::Config;
use crate::error::PollError;
use crate::record::{PriceData, PriceDataView};
use crate::request::{
    accept_json, accept_json_spec, authorization, authorization_spec, headers_view, plain_text,
    plain_text_spec, Header, HeaderView, Method, Request, RequestView,
};
use crate::settings::{lookup, lookup_view, plain_key, text_under};

verus! {

/// The one status with which the sink says that it took a line.
pub const SUCCESS_STATUS: u16 = 204;

/// The four keys of the sink's configuration, in the order in which they
/// are read.
#[derive(Clone, Copy, Debug, PartialEq, Eq, Structural)]
pub enum ConfigKey {
    Host,
    Bucket,
    Org,
    Token,
}

impl ConfigKey {
    /// The key as the settings spell it.
    pub open spec fn name(self) -> Seq<char> {
        match self {
            ConfigKey::Host => "host"@,
            ConfigKey::Bucket => "bucket"@,
            ConfigKey::Org => "org"@,
            ConfigKey::Token => "token"@,
        }
    }

    pub fn as_str(&self) -> (s: &'static str)
        ensures
            s@ == self.name(),
            plain_key(s@),
    {
        proof {
            reveal_strlit("host");
            reveal_strlit("bucket");
            reveal_strlit("org");
            reveal_strlit("token");
        }
        match self {
            ConfigKey::Host => "host",
            ConfigKey::Bucket => "bucket",
            ConfigKey::Org => "org",
            ConfigKey::Token => "token",
        }
    }
}

/// How to reach the sink. Read once at startup and not changed after.
#[derive(Clone, Debug)]
pub struct InfluxConfig {
    pub host: String,
    pub org: String,
    pub bucket: String,
    pub token: String,
}

/// What an `InfluxConfig` holds, as mathematical values.
pub struct InfluxConfigView {
    pub host: Seq<char>,
    pub org: Seq<char>,
    pub bucket: Seq<char>,
    pub token: Seq<char>,
}

impl View for InfluxConfig {
    type V = InfluxConfigView;

    open spec fn view(&self) -> InfluxConfigView {
        InfluxConfigView {
            host: self.host@,
            org: self.org@,
            bucket: self.bucket@,
            token: self.token@,
        }
    }
}

impl InfluxConfigView {
    /// The write endpoint: bucket and organisation as the query, timestamps
    /// in seconds.
    pub open spec fn write_url(self) -> Seq<char> {
        self.host + "/api/v2/write?bucket="@ + self.bucket + "&org="@ + self.org + "&precision=s"@
    }

    /// The headers of every write: JSON is accepted, the body is plain text
    /// in UTF-8, the token authorises.
    pub open spec fn headers(self) -> Seq<HeaderView> {
        seq![accept_json_spec(), plain_text_spec(), authorization_spec(self.token)]
    }

    /// The write that hands a record to the sink: its line, posted to the
    /// write endpoint.
    pub open spec fn write_request(self, record: PriceDataView) -> RequestView {
        RequestView {
            method: Method::Post,
            url: self.write_url(),
            headers: self.headers(),
            body: Some(record.line()),
        }
    }
}

/// The configuration that four looked-up values give: all four, or the
/// failure that names the first key, in reading order, that is missing.
pub open spec fn assemble_spec(
    host: Option<Seq<char>>,
    bucket: Option<Seq<char>>,
    org: Option<Seq<char>>,
    token: Option<Seq<char>>,
) -> Result<InfluxConfigView, PollError> {
    if host is None {
        Err(PollError::Config { key: ConfigKey::Host })
    } else if bucket is None {
        Err(PollError::Config { key: ConfigKey::Bucket })
    } else if org is None {
        Err(PollError::Config { key: ConfigKey::Org })
    } else if token is None {
        Err(PollError::Config { key: ConfigKey::Token })
    } else {
        Ok(
            InfluxConfigView {
                host: host->Some_0,
                org: org->Some_0,
                bucket: bucket->Some_0,
                token: token->Some_0,
            },
        )
    }
}

/// What an assembled configuration holds, as mathematical values.
pub open spec fn config_outcome_view(r: Result<InfluxConfig, PollError>) -> Result<
    InfluxConfigView,
    PollError,
> {
    match r {
        Ok(config) => Ok(config@),
        Err(kind) => Err(kind),
    }
}

impl InfluxConfig {
    /// Puts the configuration together from the values found under its four
    /// keys; a key that was not found gives `None`.
    pub fn assemble(
        host: Option<String>,
        bucket: Option<String>,
        org: Option<String>,
        token: Option<String>,
    ) -> (r: Result<InfluxConfig, PollError>)
        ensures
            config_outcome_view(r) == assemble_spec(
                lookup_view(host),
                lookup_view(bucket),
                lookup_view(org),
                lookup_view(token),
            ),
    {
        match (host, bucket, org, token) {
            (Some(host), Some(bucket), Some(org), Some(token)) => Ok(
                InfluxConfig { host, org, bucket, token },
            ),
            (None, _, _, _) => Err(PollError::Config { key: ConfigKey::Host }),
            (_, None, _, _) => Err(PollError::Config { key: ConfigKey::Bucket }),
            (_, _, None, _) => Err(PollError::Config { key: ConfigKey::Org }),
            _ => Err(PollError::Config { key: ConfigKey::Token }),
        }
    }

    /// Reads the configuration from the settings: the text under each of the
    /// four keys.
    pub fn from_settings(settings: &Config) -> (r: Result<InfluxConfig, PollError>)
        ensures
            config_outcome_view(r) == assemble_spec(
                text_under(*settings, ConfigKey::Host.name()),
                text_under(*settings, ConfigKey::Bucket.name()),
                text_under(*settings, ConfigKey::Org.name()),
                text_under(*settings, ConfigKey::Token.name()),
            ),
    {
        let host = lookup(settings, ConfigKey::Host.as_str());
        let bucket = lookup(settings, ConfigKey::Bucket.as_str());
        let org = lookup(settings, ConfigKey::Org.as_str());
        let token = lookup(settings, ConfigKey::Token.as_str());
        InfluxConfig::assemble(host, bucket, org, token)
    }

    /// Builds the URL of the write endpoint. Nothing is escaped.
    pub fn write_url(&self) -> (url: String)
        ensures
            url@ == self@.write_url(),
    {
        let mut url = self.host.clone();
        url.append("/api/v2/write?bucket=");
        url.append(self.bucket.as_str());
        url.append("&org=");
        url.append(self.org.as_str());
        url.append("&precision=s");
        url
    }

    /// Builds the headers of a write.
    pub fn headers(&self) -> (headers: Vec<Header>)
        ensures
            headers_view(headers@) == self@.headers(),
    {
        let mut headers: Vec<Header> = Vec::new();
        headers.push(accept_json());
        headers.push(plain_text());
        headers.push(authorization(self.token.as_str()));
        headers
    }

    /// Builds the write that hands `record` to the sink.
    pub fn write_request(&self, record: &PriceData) -> (request: Request)
        ensures
            request@ == self@.write_request(record@),
    {
        Request {
            method: Method::Post,
            url: self.write_url(),
            headers: self.headers(),
            body: Some(record.to_line()),
        }
    }
}

/// Judges the sink's answer to a write: success for the one status, a
/// failure that carries the status for any other.
pub fn check_status(status: u16) -> (r: Result<(), PollError>)
    ensures
        r is Ok <==> status == SUCCESS_STATUS,
        r is Err ==> r->Err_0 == (PollError::Submit { status }),
{
    if status == SUCCESS_STATUS {
        Ok(())
    } else {
        Err(PollError::Submit { status })
    }
}

} // verus!
