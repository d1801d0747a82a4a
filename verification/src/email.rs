//! Email configuration: validation and presets.
//!
//! Sending mail is the host's work; the library holds the configuration,
//! validates it, and knows the presets and content types the host uses.

use vstd::prelude::*;
use vstd::string::StrSliceExecFns;
use vstd::string::StringExecFns;

use crate::models::EmailConfig;
use crate::text::eq_ignore_ascii_case;
use crate::text::str_eq_ignore_ascii_case;

verus! {

/// Whether the mail library's address grammar accepts an email address.
pub uninterp spec fn email_address_ok(address: Seq<char>) -> bool;

/// Relies on `lettre::Address`'s `FromStr` impl: whether an address parses
/// is a function of the address text alone.
#[verifier::external_body]
fn email_address_accepted(address: &str) -> (r: bool)
    ensures
        r == email_address_ok(address@),
{
    address.parse::<lettre::Address>().is_ok()
}

/// Why an email configuration was rejected.
#[derive(Debug, Clone)]
pub enum EmailError {
    /// The given address does not parse.
    InvalidAddress(String),
    EmptyServer,
    InvalidPort,
    EmptyUsername,
    EmptyPassword,
}

impl EmailError {
    /// A human-readable description of the error.
    pub fn message(&self) -> (r: String)
        ensures
            self matches EmailError::InvalidAddress(a) ==> r@ == "Invalid email address: "@ + a@,
            self is EmptyServer ==> r@ == "SMTP server cannot be empty"@,
            self is InvalidPort ==> r@ == "Invalid SMTP port"@,
            self is EmptyUsername ==> r@ == "Username cannot be empty"@,
            self is EmptyPassword ==> r@ == "Password cannot be empty"@,
    {
        match self {
            EmailError::InvalidAddress(a) => {
                let mut out = String::from_str("Invalid email address: ");
                out.append(a.as_str());
                out
            },
            EmailError::EmptyServer => String::from_str("SMTP server cannot be empty"),
            EmailError::InvalidPort => String::from_str("Invalid SMTP port"),
            EmailError::EmptyUsername => String::from_str("Username cannot be empty"),
            EmailError::EmptyPassword => String::from_str("Password cannot be empty"),
        }
    }
}

/// A configuration is valid when both addresses parse, the server name,
/// username and password are non-empty, and the port is non-zero.
pub open spec fn spec_config_valid(config: EmailConfig) -> bool {
    &&& email_address_ok(config.sender_email@)
    &&& email_address_ok(config.receiver_email@)
    &&& config.smtp_server@.len() > 0
    &&& config.smtp_port != 0
    &&& config.username@.len() > 0
    &&& config.password@.len() > 0
}

/// Holds the mail configuration while the engine runs.
pub struct EmailService {
    config: Option<EmailConfig>,
}

impl EmailService {
    /// The configuration currently held, if any.
    pub closed spec fn spec_config(&self) -> Option<EmailConfig> {
        self.config
    }

    /// Creates a service without a configuration.
    pub fn new() -> (s: EmailService)
        ensures
            s.spec_config() is None,
    {
        EmailService { config: None }
    }

    /// Creates a service holding the given configuration.
    pub fn with_config(config: EmailConfig) -> (s: EmailService)
        ensures
            s.spec_config() == Some(config),
    {
        EmailService { config: Some(config) }
    }

    /// Replaces the held configuration.
    pub fn set_config(&mut self, config: EmailConfig)
        ensures
            final(self).spec_config() == Some(config),
    {
        self.config = Some(config);
    }

    /// The held configuration, if any.
    pub fn get_config(&self) -> (r: Option<&EmailConfig>)
        ensures
            match r {
                Some(c) => self.spec_config() == Some(*c),
                None => self.spec_config() is None,
            },
    {
        self.config.as_ref()
    }

    /// Checks an email address against the mail library's grammar.
    pub fn validate_email_address(email: &str) -> (r: Result<(), EmailError>)
        ensures
            r is Ok <==> email_address_ok(email@),
            r matches Err(e) ==> (e matches EmailError::InvalidAddress(a) && a@ == email@),
    {
        if email_address_accepted(email) {
            Ok(())
        } else {
            Err(EmailError::InvalidAddress(String::from_str(email)))
        }
    }

    /// Validates a configuration: both addresses must parse, the server
    /// name, username and password must be non-empty, and the port must be
    /// non-zero.  The first failed check, in that order, names the error.
    pub fn validate_config(config: &EmailConfig) -> (r: Result<(), EmailError>)
        ensures
            r is Ok <==> spec_config_valid(*config),
            match r {
                Ok(()) => true,
                Err(e) => match e {
                    EmailError::InvalidAddress(a) => (a@ == config.sender_email@
                        && !email_address_ok(config.sender_email@)) || (a@
                        == config.receiver_email@ && email_address_ok(config.sender_email@)
                        && !email_address_ok(config.receiver_email@)),
                    EmailError::EmptyServer => email_address_ok(config.sender_email@)
                        && email_address_ok(config.receiver_email@) && config.smtp_server@.len()
                        == 0,
                    EmailError::InvalidPort => email_address_ok(config.sender_email@)
                        && email_address_ok(config.receiver_email@) && config.smtp_server@.len()
                        > 0 && config.smtp_port == 0,
                    EmailError::EmptyUsername => email_address_ok(config.sender_email@)
                        && email_address_ok(config.receiver_email@) && config.smtp_server@.len()
                        > 0 && config.smtp_port != 0 && config.username@.len() == 0,
                    EmailError::EmptyPassword => email_address_ok(config.sender_email@)
                        && email_address_ok(config.receiver_email@) && config.smtp_server@.len()
                        > 0 && config.smtp_port != 0 && config.username@.len() > 0
                        && config.password@.len() == 0,
                },
            },
    {
        match Self::validate_email_address(config.sender_email.as_str()) {
            Ok(()) => (),
            Err(e) => {
                return Err(e);
            },
        }
        match Self::validate_email_address(config.receiver_email.as_str()) {
            Ok(()) => (),
            Err(e) => {
                return Err(e);
            },
        }
        if config.smtp_server.as_str().unicode_len() == 0 {
            return Err(EmailError::EmptyServer);
        }
        if config.smtp_port == 0 {
            return Err(EmailError::InvalidPort);
        }
        if config.username.as_str().unicode_len() == 0 {
            return Err(EmailError::EmptyUsername);
        }
        if config.password.as_str().unicode_len() == 0 {
            return Err(EmailError::EmptyPassword);
        }
        Ok(())
    }
}

impl Default for EmailService {
    /// A fresh service without a configuration.
    fn default() -> (s: EmailService)
        ensures
            s.spec_config() is None,
    {
        EmailService::new()
    }
}

/// The MIME content type an export attachment is sent with, by its format
/// name (ASCII case ignored).
pub open spec fn spec_content_type(format: Seq<char>) -> Seq<char> {
    if eq_ignore_ascii_case(format, "csv"@) {
        "text/csv"@
    } else if eq_ignore_ascii_case(format, "json"@) {
        "application/json"@
    } else if eq_ignore_ascii_case(format, "pdf"@) {
        "application/pdf"@
    } else {
        "application/octet-stream"@
    }
}

/// The MIME content type for an export attachment of the given format.
pub fn attachment_content_type(format: &str) -> (r: &'static str)
    ensures
        r@ == spec_content_type(format@),
{
    if str_eq_ignore_ascii_case(format, "csv") {
        "text/csv"
    } else if str_eq_ignore_ascii_case(format, "json") {
        "application/json"
    } else if str_eq_ignore_ascii_case(format, "pdf") {
        "application/pdf"
    } else {
        "application/octet-stream"
    }
}

/// Common SMTP configurations for popular email providers, as
/// `(server, port, TLS)` triples.
pub struct SmtpPresets;

impl SmtpPresets {
    pub fn gmail() -> (r: (String, u16, bool))
        ensures
            r.0@ == "smtp.gmail.com"@,
            r.1 == 587,
            r.2 == true,
    {
        ("smtp.gmail.com".to_owned(), 587, true)
    }

    pub fn outlook() -> (r: (String, u16, bool))
        ensures
            r.0@ == "smtp-mail.outlook.com"@,
            r.1 == 587,
            r.2 == true,
    {
        ("smtp-mail.outlook.com".to_owned(), 587, true)
    }

    pub fn yahoo() -> (r: (String, u16, bool))
        ensures
            r.0@ == "smtp.mail.yahoo.com"@,
            r.1 == 587,
            r.2 == true,
    {
        ("smtp.mail.yahoo.com".to_owned(), 587, true)
    }

    pub fn custom(server: &str, port: u16, use_tls: bool) -> (r: (String, u16, bool))
        ensures
            r.0@ == server@,
            r.1 == port,
            r.2 == use_tls,
    {
        (server.to_owned(), port, use_tls)
    }
}

} // verus!
