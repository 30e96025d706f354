//! The options the proxy is started with.
//!
//! Reading the command line belongs to the binary around the library; the
//! record of the chosen values and what is derived from them — the broker
//! connection URI — live here.

use vstd::prelude::*;
use vstd::string::StringExecFns;

use crate::utils::{hex_digit_str, spec_hex_digit};

verus! {

/// A structure that holds the values of the available CLI arguments and
/// options.
#[derive(Debug)]
pub struct CliOptions {
    /// Enable connecting to the broker over TLS.
    pub rabbitmq_secured: bool,
    /// Validate a token that was specified with data.
    pub validate: bool,
    /// Path to a custom settings file.
    pub config: String,
    /// The IP the server listens on.
    pub ip: String,
    /// The port the server listens on.
    pub port: u16,
    /// Verbosity level filter of the logger.
    pub log_level: String,
    /// The IP of the broker.
    pub rabbitmq_ip: String,
    /// The port the broker listens on.
    pub rabbitmq_port: u16,
    /// The virtual host of the broker node.
    pub rabbitmq_virtual_host: String,
    /// The broker application username.
    pub rabbitmq_username: String,
    /// The broker application password.
    pub rabbitmq_password: String,
    /// The IP of the token store.
    pub redis_ip: String,
    /// The port of the token store.
    pub redis_port: u16,
    /// The password of the token store.
    pub redis_password: String,
    /// Secret key for a JWT validation.
    pub jwt_secret_key: String,
    /// Path to a SSL certificate.
    pub ssl_certificate: String,
    /// Path to a SSL public key.
    pub ssl_public_key: String,
}

impl Default for CliOptions {
    /// Returns the options with every argument at its documented default.
    fn default() -> (r: CliOptions)
        ensures
            !r.rabbitmq_secured && !r.validate,
            r.config@ == ""@ && r.ip@ == "127.0.0.1"@ && r.port == 8080,
            r.log_level@ == "info"@,
            r.rabbitmq_ip@ == "127.0.0.1"@ && r.rabbitmq_port == 5672,
            r.rabbitmq_virtual_host@ == "vhost"@,
            r.rabbitmq_username@ == "user"@ && r.rabbitmq_password@ == "password"@,
            r.redis_ip@ == "127.0.0.1"@ && r.redis_port == 6379 && r.redis_password@ == ""@,
            r.jwt_secret_key@ == "secret"@,
            r.ssl_certificate@ == ""@ && r.ssl_public_key@ == ""@,
    {
        CliOptions {
            rabbitmq_secured: false,
            validate: false,
            config: "".to_owned(),
            ip: "127.0.0.1".to_owned(),
            port: 8080,
            log_level: "info".to_owned(),
            rabbitmq_ip: "127.0.0.1".to_owned(),
            rabbitmq_port: 5672,
            rabbitmq_virtual_host: "vhost".to_owned(),
            rabbitmq_username: "user".to_owned(),
            rabbitmq_password: "password".to_owned(),
            redis_ip: "127.0.0.1".to_owned(),
            redis_port: 6379,
            redis_password: "".to_owned(),
            jwt_secret_key: "secret".to_owned(),
            ssl_certificate: "".to_owned(),
            ssl_public_key: "".to_owned(),
        }
    }
}

/// The decimal rendering of a number.
pub open spec fn spec_decimal(n: int) -> Seq<char>
    decreases n,
{
    if n < 10 {
        seq![spec_hex_digit(n)]
    } else {
        spec_decimal(n / 10) + seq![spec_hex_digit(n % 10)]
    }
}

/// Renders a port number in decimal.
pub fn u16_decimal(n: u16) -> (r: String)
    ensures
        r@ == spec_decimal(n as int),
    decreases n,
{
    if n < 10 {
        hex_digit_str(n as u8).to_owned()
    } else {
        let mut s = u16_decimal(n / 10);
        s.append(hex_digit_str((n % 10) as u8));
        s
    }
}

/// The AMQP connection URI the options describe.
pub open spec fn spec_uri(cli: &CliOptions) -> Seq<char> {
    (if cli.rabbitmq_secured {
        "amqps"@
    } else {
        "amqp"@
    }) + "://"@ + cli.rabbitmq_username@ + ":"@ + cli.rabbitmq_password@ + "@"@ + cli.rabbitmq_ip@
        + ":"@ + spec_decimal(cli.rabbitmq_port as int) + "/"@ + cli.rabbitmq_virtual_host@
}

/// Returns the connection URI to the message broker, based on the parsed
/// CLI options.
pub fn get_uri(cli: &CliOptions) -> (r: String)
    ensures
        r@ == spec_uri(cli),
{
    let mut out = if cli.rabbitmq_secured {
        "amqps".to_owned()
    } else {
        "amqp".to_owned()
    };
    out.append("://");
    out.append(cli.rabbitmq_username.as_str());
    out.append(":");
    out.append(cli.rabbitmq_password.as_str());
    out.append("@");
    out.append(cli.rabbitmq_ip.as_str());
    out.append(":");
    out.append(u16_decimal(cli.rabbitmq_port).as_str());
    out.append("/");
    out.append(cli.rabbitmq_virtual_host.as_str());
    out
}

} // verus!
