//! Where a channel lives: the broker endpoint and the stream on it.
use vstd::prelude::*;
use vstd::string::*;

verus! {

/// The port that a broker listens on unless told otherwise.
pub const DEFAULT_PORT: u16 = 5552;

/// A broker endpoint and the stream that a channel runs over.
#[derive(Debug, Clone, PartialEq, Eq)]
pub struct ChannelConfiguration {
    pub host: String,
    pub stream_name: String,
    pub port: u16,
}

/// What a [`ChannelConfiguration`] holds, as mathematical values.
pub struct ChannelConfigurationView {
    pub host: Seq<char>,
    pub stream_name: Seq<char>,
    pub port: u16,
}

impl View for ChannelConfiguration {
    type V = ChannelConfigurationView;

    open spec fn view(&self) -> ChannelConfigurationView {
        ChannelConfigurationView {
            host: self.host@,
            stream_name: self.stream_name@,
            port: self.port,
        }
    }
}

/// The ten decimal digits, in order.
pub open spec fn digits() -> Seq<char> {
    seq!['0', '1', '2', '3', '4', '5', '6', '7', '8', '9']
}

/// `n` written in base ten, without sign or leading zeros.
pub open spec fn decimal(n: nat) -> Seq<char>
    decreases n,
{
    if n < 10 {
        seq![digits()[n as int]]
    } else {
        decimal(n / 10).push(digits()[(n % 10) as int])
    }
}

/// The textual form of a channel: `mq://{host}:{port}/{stream_name}`.
pub open spec fn descriptor(host: Seq<char>, port: u16, stream_name: Seq<char>) -> Seq<char> {
    seq!['m', 'q', ':', '/', '/'] + host + seq![':'] + decimal(port as nat) + seq!['/']
        + stream_name
}

fn digit_text(d: u16) -> (text: &'static str)
    requires
        d < 10,
    ensures
        text@ == seq![digits()[d as int]],
{
    proof {
        reveal_strlit("0");
        reveal_strlit("1");
        reveal_strlit("2");
        reveal_strlit("3");
        reveal_strlit("4");
        reveal_strlit("5");
        reveal_strlit("6");
        reveal_strlit("7");
        reveal_strlit("8");
        reveal_strlit("9");
    }
    let text = match d {
        0 => "0",
        1 => "1",
        2 => "2",
        3 => "3",
        4 => "4",
        5 => "5",
        6 => "6",
        7 => "7",
        8 => "8",
        _ => "9",
    };
    assert(text@ =~= seq![digits()[d as int]]);
    text
}

fn append_decimal(out: &mut String, n: u16)
    ensures
        final(out)@ == old(out)@ + decimal(n as nat),
    decreases n,
{
    if n >= 10 {
        append_decimal(out, n / 10);
    }
    let ghost before = out@;
    out.append(digit_text(n % 10));
    proof {
        if n >= 10 {
            assert(before + seq![digits()[(n % 10) as int]] =~= old(out)@ + decimal(
                (n / 10) as nat,
            ).push(digits()[(n % 10) as int]));
        }
    }
}

impl ChannelConfiguration {
    /// Renders the channel as `mq://{host}:{port}/{stream_name}`.
    pub fn fmt(&self) -> (text: String)
        ensures
            text@ == descriptor(self.host@, self.port, self.stream_name@),
    {
        proof {
            reveal_strlit("mq://");
            reveal_strlit(":");
            reveal_strlit("/");
        }
        let mut text = String::from_str("mq://");
        assert(text@ =~= seq!['m', 'q', ':', '/', '/']);
        text.append(self.host.as_str());
        text.append(":");
        assert(":"@ =~= seq![':']);
        append_decimal(&mut text, self.port);
        text.append("/");
        assert("/"@ =~= seq!['/']);
        text.append(self.stream_name.as_str());
        text
    }
}

/// Why a configuration could not be built.
#[derive(Debug, Clone, PartialEq, Eq)]
pub enum ChannelConfigurationBuilderError {
    /// The named field has no default and was not set.
    UninitializedField(&'static str),
}

/// Collects the parts of a [`ChannelConfiguration`]. The host and the stream
/// name have to be set; the port falls back to [`DEFAULT_PORT`].
#[derive(Debug, Clone, PartialEq, Eq)]
pub struct ChannelConfigurationBuilder {
    host: Option<String>,
    stream_name: Option<String>,
    port: Option<u16>,
}

/// What a [`ChannelConfigurationBuilder`] has been given so far.
pub struct ChannelConfigurationBuilderView {
    pub host: Option<Seq<char>>,
    pub stream_name: Option<Seq<char>>,
    pub port: Option<u16>,
}

/// The configuration that the given parts make, or the name of the first
/// required part that is missing.
pub open spec fn built(parts: ChannelConfigurationBuilderView) -> Result<
    ChannelConfigurationView,
    Seq<char>,
> {
    match (parts.host, parts.stream_name) {
        (None, _) => Err("host"@),
        (Some(_), None) => Err("stream_name"@),
        (Some(host), Some(stream_name)) => Ok(
            ChannelConfigurationView {
                host,
                stream_name,
                port: match parts.port {
                    Some(port) => port,
                    None => DEFAULT_PORT,
                },
            },
        ),
    }
}

impl View for ChannelConfigurationBuilder {
    type V = ChannelConfigurationBuilderView;

    closed spec fn view(&self) -> ChannelConfigurationBuilderView {
        ChannelConfigurationBuilderView {
            host: match self.host {
                Some(host) => Some(host@),
                None => None,
            },
            stream_name: match self.stream_name {
                Some(stream_name) => Some(stream_name@),
                None => None,
            },
            port: self.port,
        }
    }
}

impl Default for ChannelConfigurationBuilder {
    /// The builder that has been given nothing yet.
    fn default() -> (builder: ChannelConfigurationBuilder)
        ensures
            builder@ == (ChannelConfigurationBuilderView {
                host: None,
                stream_name: None,
                port: None,
            }),
    {
        ChannelConfigurationBuilder { host: None, stream_name: None, port: None }
    }
}

impl ChannelConfigurationBuilder {
    /// Sets the host of the broker.
    pub fn host(self, value: &str) -> (builder: ChannelConfigurationBuilder)
        ensures
            builder@ == (ChannelConfigurationBuilderView { host: Some(value@), ..self@ }),
    {
        ChannelConfigurationBuilder {
            host: Some(String::from_str(value)),
            stream_name: self.stream_name,
            port: self.port,
        }
    }

    /// Sets the name of the stream.
    pub fn stream_name(self, value: &str) -> (builder: ChannelConfigurationBuilder)
        ensures
            builder@ == (ChannelConfigurationBuilderView { stream_name: Some(value@), ..self@ }),
    {
        ChannelConfigurationBuilder {
            host: self.host,
            stream_name: Some(String::from_str(value)),
            port: self.port,
        }
    }

    /// Sets the port of the broker.
    pub fn port(self, value: u16) -> (builder: ChannelConfigurationBuilder)
        ensures
            builder@ == (ChannelConfigurationBuilderView { port: Some(value), ..self@ }),
    {
        ChannelConfigurationBuilder {
            host: self.host,
            stream_name: self.stream_name,
            port: Some(value),
        }
    }

    /// Builds the configuration, or names the first required field that was
    /// not set.
    pub fn build(&self) -> (result: Result<ChannelConfiguration, ChannelConfigurationBuilderError>)
        ensures
            match built(self@) {
                Ok(config) => result matches Ok(built) && built@ == config,
                Err(field) => result matches Err(
                    ChannelConfigurationBuilderError::UninitializedField(name),
                ) && name@ == field,
            },
    {
        let host = match &self.host {
            Some(host) => host.clone(),
            None => {
                return Err(ChannelConfigurationBuilderError::UninitializedField("host"));
            },
        };
        let stream_name = match &self.stream_name {
            Some(stream_name) => stream_name.clone(),
            None => {
                return Err(ChannelConfigurationBuilderError::UninitializedField("stream_name"));
            },
        };
        let port = match self.port {
            Some(port) => port,
            None => DEFAULT_PORT,
        };
        Ok(ChannelConfiguration { host, stream_name, port })
    }
}

} // verus!
