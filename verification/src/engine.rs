use vstd::prelude::*;
use vstd::string::*;

verus! {

/// The answer to a request that the API cannot take.
pub open spec fn bad_request_text() -> Seq<char> {
    "
Your request is incorrect.
Possible reasons:
- Query body is missing or is not valid JSON
- X-Jjs-Auth header is not valid access token
    "@
}

/// The page served for a bad request.
pub fn catch_bad_request() -> (r: &'static str)
    ensures
        r@ == bad_request_text(),
{
    "
Your request is incorrect.
Possible reasons:
- Query body is missing or is not valid JSON
- X-Jjs-Auth header is not valid access token
    "
}

/// The answer to a ping.
pub fn route_ping() -> (r: &'static str)
    ensures
        r@ == "JJS frontend: pong"@,
{
    "JJS frontend: pong"
}

/// The message of a request whose context could not be made: in debug
/// builds `bad request: ` and the error's text, else the bad-request text.
pub fn bad_request_message(debug: bool, err: &str) -> (r: String)
    ensures
        r@ == (if debug {
            "bad request: "@ + err@
        } else {
            bad_request_text()
        }),
{
    if debug {
        let mut m = String::new();
        m.append("bad request: ");
        m.append(err);
        m
    } else {
        catch_bad_request().to_owned()
    }
}

/// The standard base64 text of `data`, with padding, as `base64::encode`
/// gives it.
pub uninterp spec fn base64_standard(data: Seq<u8>) -> Seq<char>;

/// Calls `base64::encode` (standard alphabet, with padding). The result is
/// named, not described.
#[verifier::external_body]
pub(crate) fn base64_encode(data: &[u8]) -> (r: String)
    ensures
        r@ == base64_standard(data@),
{
    base64::encode(data)
}

/// The environment the frontend runs in.
#[derive(Debug, PartialEq, Eq, Clone, Copy)]
pub enum Env {
    Prod,
    Dev,
}

/// The TLS files of the frontend.
#[derive(Debug, PartialEq, Eq)]
pub struct TlsConfig {
    pub cert_path: String,
    pub key_path: String,
}

/// The frontend's configuration.
#[derive(Debug, PartialEq, Eq)]
pub struct FrontendConfig {
    pub port: u16,
    pub addr: Option<String>,
    pub host: String,
    pub unix_socket_path: String,
    pub env: Env,
    pub tls: Option<TlsConfig>,
}

/// The environment of the web server.
#[derive(Debug, PartialEq, Eq, Clone, Copy)]
pub enum ServerEnvironment {
    Production,
    Development,
}

/// How much the web server logs.
#[derive(Debug, PartialEq, Eq, Clone, Copy)]
pub enum LoggingLevel {
    Normal,
    Critical,
}

/// The settings the web server is started with.
#[derive(Debug, PartialEq, Eq)]
pub struct ServerSettings {
    pub environment: ServerEnvironment,
    pub address: String,
    pub port: u16,
    pub log_level: LoggingLevel,
    pub secret_key: String,
    pub tls: Option<TlsConfig>,
}

/// The API server.
pub struct ApiServer {}

impl ApiServer {
    /// The web server settings for a frontend configuration and a secret
    /// key: production settings and critical-only logging in production,
    /// development settings and normal logging in development; the host as
    /// address, the port, the key in base64 and the TLS files where given.
    pub fn server_settings(cfg: &FrontendConfig, secret_key: &[u8]) -> (r: ServerSettings)
        ensures
            r.environment == (match cfg.env {
                Env::Prod => ServerEnvironment::Production,
                Env::Dev => ServerEnvironment::Development,
            }),
            r.log_level == (match cfg.env {
                Env::Dev => LoggingLevel::Normal,
                Env::Prod => LoggingLevel::Critical,
            }),
            r.address@ == cfg.host@,
            r.port == cfg.port,
            r.secret_key@ == base64_standard(secret_key@),
            match cfg.tls {
                Some(t) => r.tls matches Some(u) && u.cert_path@ == t.cert_path@ && u.key_path@ == t.key_path@,
                None => r.tls is None,
            },
    {
        let environment = match cfg.env {
            Env::Prod => ServerEnvironment::Production,
            Env::Dev => ServerEnvironment::Development,
        };
        let log_level = match cfg.env {
            Env::Dev => LoggingLevel::Normal,
            Env::Prod => LoggingLevel::Critical,
        };
        let tls = match &cfg.tls {
            Some(t) => Some(TlsConfig { cert_path: t.cert_path.clone(), key_path: t.key_path.clone() }),
            None => None,
        };
        ServerSettings {
            environment,
            address: cfg.host.clone(),
            port: cfg.port,
            log_level,
            secret_key: base64_encode(secret_key),
            tls,
        }
    }

    /// The configuration of the embedded instance: development mode on
    /// 127.0.0.1, port 0 (any free port), no unix socket, no TLS.
    pub fn embedded_config() -> (r: FrontendConfig)
        ensures
            r.port == 0,
            r.addr matches Some(a) && a@ == "127.0.0.1"@,
            r.host@ == "127.0.0.1"@,
            r.unix_socket_path@ == ""@,
            r.env == Env::Dev,
            r.tls is None,
    {
        FrontendConfig {
            port: 0,
            addr: Some("127.0.0.1".to_owned()),
            host: "127.0.0.1".to_owned(),
            unix_socket_path: "".to_owned(),
            env: Env::Dev,
            tls: None,
        }
    }

    /// The data directory of the embedded instance.
    pub fn embedded_data_dir() -> (r: &'static str)
        ensures
            r@ == "/tmp/jjs"@,
    {
        "/tmp/jjs"
    }
}

} // verus!
