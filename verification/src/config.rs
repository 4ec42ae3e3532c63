//! The configuration of the source.

use crate::endpoint::{describe_invalid_uri, is_uri, parse_uri};
use crate::framing::FramingConfig;
use http::uri::InvalidUri;
use http::Uri;
use vstd::prelude::*;
use vstd::string::StringExecFns;

verus! {

/// The endpoint of the queue service that is used where the configuration names none.
pub const PUBSUB_URL: &'static str = "https://pubsub.googleapis.com";

/// How the frames of an object are decoded into events.
#[derive(Clone, Debug, PartialEq, Eq)]
pub enum DeserializerConfig {
    /// Every frame is one event that holds the bytes of the frame.
    Bytes,
    /// A codec outside this library, chosen by its name, decodes the frames.
    Codec { name: String },
}

/// Where the credential of the source comes from.
#[derive(Clone, Debug, PartialEq, Eq)]
pub struct GcpAuthConfig {
    /// An API key to send with each request.
    pub api_key: Option<String>,
    /// The path of a file that holds the key of a service account.
    pub credentials_path: Option<String>,
    /// Send requests without a credential.
    pub skip_authentication: bool,
}

/// Configuration of the `gcp_gcs` source.
#[derive(Clone, Debug)]
pub struct GcpGcsConfig {
    /// The project name.
    pub project: String,
    /// The subscription within the project.
    pub subscription: String,
    /// The endpoint from which to pull data.
    pub endpoint: String,
    /// How the bytes of an object are cut into frames.
    pub framing: FramingConfig,
    /// How the frames are decoded into events.
    pub decoding: DeserializerConfig,
    /// Where the credential comes from.
    pub auth: GcpAuthConfig,
}

/// What is wrong with a configuration.
#[derive(Debug)]
pub enum GcpGcsError {
    /// The endpoint is no URI.
    Uri { source: InvalidUri },
}

/// The endpoint of a configuration that names none.
pub fn default_endpoint() -> (endpoint: String)
    ensures
        endpoint@ == PUBSUB_URL@,
{
    PUBSUB_URL.to_owned()
}

/// The framing of a configuration that names none: the whole object is one frame.
pub fn default_framing_message_based() -> (framing: FramingConfig)
    ensures
        framing == FramingConfig::Bytes,
{
    FramingConfig::Bytes
}

/// The decoding of a configuration that names none: every frame is one event of bytes.
pub fn default_decoding() -> (decoding: DeserializerConfig)
    ensures
        decoding == DeserializerConfig::Bytes,
{
    DeserializerConfig::Bytes
}

impl Default for GcpAuthConfig {
    fn default() -> (auth: Self)
        ensures
            auth.api_key is None,
            auth.credentials_path is None,
            !auth.skip_authentication,
    {
        GcpAuthConfig { api_key: None, credentials_path: None, skip_authentication: false }
    }
}

impl Default for GcpGcsConfig {
    fn default() -> (config: Self)
        ensures
            config.project@.len() == 0,
            config.subscription@.len() == 0,
            config.endpoint@.len() == 0,
            config.framing == FramingConfig::Bytes,
            config.decoding == DeserializerConfig::Bytes,
            config.auth.api_key is None,
            config.auth.credentials_path is None,
            !config.auth.skip_authentication,
    {
        GcpGcsConfig {
            project: String::new(),
            subscription: String::new(),
            endpoint: String::new(),
            framing: default_framing_message_based(),
            decoding: default_decoding(),
            auth: GcpAuthConfig::default(),
        }
    }
}

/// Turns the reading of an endpoint into the endpoint or the error of the configuration.
pub fn endpoint_from(parsed: Result<Uri, InvalidUri>) -> (endpoint: Result<Uri, GcpGcsError>)
    ensures
        match parsed {
            Ok(uri) => endpoint == Ok::<Uri, GcpGcsError>(uri),
            Err(source) => endpoint == Err::<Uri, GcpGcsError>(GcpGcsError::Uri { source }),
        },
{
    match parsed {
        Ok(uri) => Ok(uri),
        Err(source) => Err(GcpGcsError::Uri { source }),
    }
}

impl GcpGcsConfig {
    /// Checks the configuration and returns the endpoint to pull from. Fails with
    /// `GcpGcsError::Uri` exactly when the endpoint is no URI; the empty endpoint is none.
    pub fn build(&self) -> (endpoint: Result<Uri, GcpGcsError>)
        ensures
            endpoint is Ok <==> is_uri(self.endpoint@),
            endpoint is Err ==> endpoint->Err_0 is Uri,
            self.endpoint@.len() == 0 ==> endpoint is Err,
    {
        endpoint_from(parse_uri(self.endpoint.as_str()))
    }

    /// The source acknowledges its messages to the queue only when the events that came
    /// of them are delivered, so it can take part in end-to-end acknowledgment: always true.
    pub fn can_acknowledge(&self) -> (yes: bool)
        ensures
            yes,
    {
        true
    }
}

impl GcpGcsError {
    /// The error in words: "Invalid endpoint URI: " and the reason.
    pub fn message(&self) -> (text: String)
        ensures
            "Invalid endpoint URI: "@.is_prefix_of(text@),
    {
        match self {
            GcpGcsError::Uri { source } => {
                let reason = describe_invalid_uri(source);
                let text = String::from_str("Invalid endpoint URI: ").concat(reason.as_str());
                assert("Invalid endpoint URI: "@ =~= text@.subrange(
                    0,
                    "Invalid endpoint URI: "@.len() as int,
                ));
                text
            },
        }
    }
}

} // verus!
