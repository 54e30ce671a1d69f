//! The contact form's mail: the SMTP settings it is sent with, what it says,
//! and the errors on the way.
//!
//! Nothing here reads a variable of the process or talks to a server. The settings are
//! handed in as the four values that were found, or not, under their names;
//! what comes out is plain data for the transport.

use std::string::String;
use vstd::prelude::*;
use vstd::string::StringExecFns;

verus! {

/// Why a contact mail was not sent.
#[derive(Debug, Clone, PartialEq, Eq)]
pub enum MailError {
    /// `SMTP_USERNAME` is missing.
    UsernameNotSet,
    /// `SMTP_PASSWORD` is missing.
    PasswordNotSet,
    /// `SMTP_SERVER` is missing.
    ServerNotSet,
    /// `SMTP_SERVER_PORT` is missing.
    PortNotSet,
    /// `SMTP_SERVER_PORT` is there but is no port number.
    PortInvalid,
    /// The visitor's address is no mail address.
    InvalidEmail,
    /// The message could not be put together; with the builder's words.
    Build(String),
    /// The transport could not be set up; with its words.
    Transport(String),
    /// The server did not take the message; with the transport's words.
    Send(String),
}

impl MailError {
    /// The error as one line of text.
    pub open spec fn text(self) -> Seq<char> {
        match self {
            MailError::UsernameNotSet => "SMTP_USERNAME not set"@,
            MailError::PasswordNotSet => "SMTP_PASSWORD not set"@,
            MailError::ServerNotSet => "SMTP_SERVER not set"@,
            MailError::PortNotSet => "SMTP_SERVER_PORT not set"@,
            MailError::PortInvalid => "SMTP_SERVER_PORT is not a valid number"@,
            MailError::InvalidEmail => "Invalid email address"@,
            MailError::Build(detail) => "Failed to build email: "@ + detail@,
            MailError::Transport(detail) => "Failed to create SMTP transport: "@ + detail@,
            MailError::Send(detail) => "Failed to send email: "@ + detail@,
        }
    }

    /// The error as one line of text, for the log.
    pub fn message(&self) -> (line: String)
        ensures
            line@ == self.text(),
    {
        match self {
            MailError::UsernameNotSet => String::from_str("SMTP_USERNAME not set"),
            MailError::PasswordNotSet => String::from_str("SMTP_PASSWORD not set"),
            MailError::ServerNotSet => String::from_str("SMTP_SERVER not set"),
            MailError::PortNotSet => String::from_str("SMTP_SERVER_PORT not set"),
            MailError::PortInvalid => String::from_str("SMTP_SERVER_PORT is not a valid number"),
            MailError::InvalidEmail => String::from_str("Invalid email address"),
            MailError::Build(detail) => String::from_str("Failed to build email: ").concat(
                detail.as_str(),
            ),
            MailError::Transport(detail) => String::from_str(
                "Failed to create SMTP transport: ",
            ).concat(detail.as_str()),
            MailError::Send(detail) => String::from_str("Failed to send email: ").concat(
                detail.as_str(),
            ),
        }
    }
}

/// What the port variable held: nothing, something that is no port, or a port.
#[derive(Debug, Clone, Copy, PartialEq, Eq)]
pub enum PortVar {
    /// The variable is not set.
    Missing,
    /// The variable is set to something that is not a number from 0 to 65535.
    Malformed,
    /// The variable holds this port.
    Port(u16),
}

/// The account and server that the contact mail goes out through.
#[derive(Debug, Clone, PartialEq, Eq)]
pub struct SmtpSettings {
    /// The account's name, which is also the site owner's mail address.
    pub username: String,
    /// The account's password.
    pub password: String,
    /// The relay's host name.
    pub server: String,
    /// The relay's port.
    pub port: u16,
}

/// The text of a variable that may be missing.
pub open spec fn text_of(var: Option<String>) -> Option<Seq<char>> {
    match var {
        Some(value) => Some(value@),
        None => None,
    }
}

/// Whether `c` is one of the ten decimal digits `0` to `9`.
pub open spec fn is_digit(c: char) -> bool {
    '0' <= c <= '9'
}

/// The number that a run of decimal digits stands for; 0 for the empty run.
pub open spec fn decimal_value(digits: Seq<char>) -> nat
    decreases digits.len(),
{
    if digits.len() == 0 {
        0
    } else {
        decimal_value(digits.drop_last()) * 10 + (digits.last() as u32 - '0' as u32) as nat
    }
}

/// Whether `digits` holds decimal digits only.
pub open spec fn all_digits(digits: Seq<char>) -> bool {
    forall|i: int| 0 <= i < digits.len() ==> is_digit(#[trigger] digits[i])
}

/// `text` without the `+` that may stand at its head.
pub open spec fn without_plus(text: Seq<char>) -> Seq<char> {
    if text.len() > 0 && text[0] == '+' {
        text.skip(1)
    } else {
        text
    }
}

/// The number that `text` stands for as a `u16`, if it stands for one: an
/// optional `+`, then one or more decimal digits and nothing else, whose
/// value is at most 65535. Leading zeros are taken; a `-`, a blank or an
/// underscore anywhere is not.
pub open spec fn parsed_u16(text: Seq<char>) -> Option<u16> {
    let digits = without_plus(text);
    if digits.len() > 0 && all_digits(digits) && decimal_value(digits) <= u16::MAX {
        Some(decimal_value(digits) as u16)
    } else {
        None
    }
}

/// What the port variable amounts to, given its text if it is set.
pub open spec fn port_var(port: Option<Seq<char>>) -> PortVar {
    match port {
        None => PortVar::Missing,
        Some(text) => match parsed_u16(text) {
            Some(number) => PortVar::Port(number),
            None => PortVar::Malformed,
        },
    }
}

/// The first thing that is wrong with the four variables, in the order
/// user name, password, server, port; `None` when the settings are complete.
pub open spec fn first_fault(
    username: Option<Seq<char>>,
    password: Option<Seq<char>>,
    server: Option<Seq<char>>,
    port: PortVar,
) -> Option<MailError> {
    if username is None {
        Some(MailError::UsernameNotSet)
    } else if password is None {
        Some(MailError::PasswordNotSet)
    } else if server is None {
        Some(MailError::ServerNotSet)
    } else {
        match port {
            PortVar::Missing => Some(MailError::PortNotSet),
            PortVar::Malformed => Some(MailError::PortInvalid),
            PortVar::Port(_) => None,
        }
    }
}

/// `str::parse::<u16>`: the number that the text stands for, as
/// [`parsed_u16`] states it, or `None` where the text is empty, holds
/// anything but an optional `+` and decimal digits, or stands for a number
/// above 65535.
#[verifier::external_body]
fn parse_u16(text: &str) -> (number: Option<u16>)
    ensures
        number == parsed_u16(text@),
{
    text.parse::<u16>().ok()
}

impl SmtpSettings {
    /// Puts the settings together from the variables, the port already read.
    ///
    /// Fails with the first fault in the order user name, password, server,
    /// port, whatever else is wrong.
    pub fn from_parts(
        username: Option<String>,
        password: Option<String>,
        server: Option<String>,
        port: PortVar,
    ) -> (settings: Result<SmtpSettings, MailError>)
        ensures
            match settings {
                Ok(found) => {
                    &&& first_fault(text_of(username), text_of(password), text_of(server), port)
                        is None
                    &&& Some(found.username@) == text_of(username)
                    &&& Some(found.password@) == text_of(password)
                    &&& Some(found.server@) == text_of(server)
                    &&& PortVar::Port(found.port) == port
                },
                Err(fault) => Some(fault) == first_fault(
                    text_of(username),
                    text_of(password),
                    text_of(server),
                    port,
                ),
            },
    {
        let username = match username {
            Some(value) => value,
            None => { return Err(MailError::UsernameNotSet); },
        };
        let password = match password {
            Some(value) => value,
            None => { return Err(MailError::PasswordNotSet); },
        };
        let server = match server {
            Some(value) => value,
            None => { return Err(MailError::ServerNotSet); },
        };
        match port {
            PortVar::Missing => Err(MailError::PortNotSet),
            PortVar::Malformed => Err(MailError::PortInvalid),
            PortVar::Port(port) => Ok(SmtpSettings { username, password, server, port }),
        }
    }

    /// Puts the settings together from the four variables as they were found.
    ///
    /// Fails with the first fault in the order user name, password, server,
    /// port; a port that is set but is no number from 0 to 65535 is a fault
    /// of its own.
    pub fn from_vars(
        username: Option<String>,
        password: Option<String>,
        server: Option<String>,
        port: Option<String>,
    ) -> (settings: Result<SmtpSettings, MailError>)
        ensures
            match settings {
                Ok(found) => {
                    &&& first_fault(
                        text_of(username),
                        text_of(password),
                        text_of(server),
                        port_var(text_of(port)),
                    ) is None
                    &&& Some(found.username@) == text_of(username)
                    &&& Some(found.password@) == text_of(password)
                    &&& Some(found.server@) == text_of(server)
                    &&& PortVar::Port(found.port) == port_var(text_of(port))
                },
                Err(fault) => Some(fault) == first_fault(
                    text_of(username),
                    text_of(password),
                    text_of(server),
                    port_var(text_of(port)),
                ),
            },
    {
        let port = match &port {
            None => PortVar::Missing,
            Some(text) => match parse_u16(text.as_str()) {
                Some(number) => PortVar::Port(number),
                None => PortVar::Malformed,
            },
        };
        SmtpSettings::from_parts(username, password, server, port)
    }
}

/// The subject line of every contact mail.
pub const CONTACT_SUBJECT: &'static str = "New Contact Form Submission";

/// The body of a contact mail: the visitor's name, address and message,
/// each under its heading.
pub open spec fn body_text(name: Seq<char>, email: Seq<char>, message: Seq<char>) -> Seq<char> {
    "Name: "@ + name + "\nEmail: "@ + email + "\n\nMessage:\n"@ + message
}

/// Writes the body of a contact mail; see [`body_text`].
pub fn contact_body(name: &str, email: &str, message: &str) -> (body: String)
    ensures
        body@ == body_text(name@, email@, message@),
{
    let mut body = String::from_str("Name: ");
    body.append(name);
    body.append("\nEmail: ");
    body.append(email);
    body.append("\n\nMessage:\n");
    body.append(message);
    body
}

/// A contact mail as plain data, ready for the transport: it goes from the
/// site owner to the site owner, and a reply goes to the visitor.
#[derive(Debug, Clone, PartialEq, Eq)]
pub struct ContactMail {
    /// The sender's address.
    pub from: String,
    /// The recipient's address.
    pub to: String,
    /// The visitor's name, for the reply.
    pub reply_to_name: String,
    /// The visitor's address, for the reply.
    pub reply_to: String,
    /// The subject line.
    pub subject: String,
    /// The text of the mail.
    pub body: String,
}

impl ContactMail {
    /// Whether this is the mail that carries `message` from the visitor
    /// `name`, `email` to the site owner `owner`.
    pub open spec fn carries(
        self,
        owner: Seq<char>,
        name: Seq<char>,
        email: Seq<char>,
        message: Seq<char>,
    ) -> bool {
        &&& self.from@ == owner
        &&& self.to@ == owner
        &&& self.reply_to_name@ == name
        &&& self.reply_to@ == email
        &&& self.subject@ == CONTACT_SUBJECT@
        &&& self.body@ == body_text(name, email, message)
    }
}

/// Whether `text` is a mail address: whether `lettre::Address` parses it.
pub uninterp spec fn is_address(text: Seq<char>) -> bool;

/// `<lettre::Address as FromStr>::from_str`, by way of `str::parse`: whether
/// the text is taken as a mail address.
#[verifier::external_body]
fn address_parses(text: &str) -> (taken: bool)
    ensures
        taken == is_address(text@),
{
    text.parse::<lettre::Address>().is_ok()
}

/// Puts the contact mail together, given whether the visitor's address was
/// found to be one: the mail if it was, [`MailError::InvalidEmail`] if not.
pub fn compose_checked(
    owner: &str,
    name: &str,
    email: &str,
    message: &str,
    email_is_address: bool,
) -> (mail: Result<ContactMail, MailError>)
    ensures
        match mail {
            Ok(composed) => email_is_address && composed.carries(owner@, name@, email@, message@),
            Err(fault) => !email_is_address && fault == MailError::InvalidEmail,
        },
{
    if !email_is_address {
        return Err(MailError::InvalidEmail);
    }
    Ok(
        ContactMail {
            from: String::from_str(owner),
            to: String::from_str(owner),
            reply_to_name: String::from_str(name),
            reply_to: String::from_str(email),
            subject: String::from_str(CONTACT_SUBJECT),
            body: contact_body(name, email, message),
        },
    )
}

/// Puts the contact mail together for an owner whose address is known to be
/// one. Fails with [`MailError::InvalidEmail`] exactly when the visitor's
/// address is none.
pub fn compose(owner: &str, name: &str, email: &str, message: &str) -> (mail: Result<
    ContactMail,
    MailError,
>)
    requires
        is_address(owner@),
    ensures
        match mail {
            Ok(composed) => is_address(email@) && composed.carries(
                owner@,
                name@,
                email@,
                message@,
            ),
            Err(fault) => !is_address(email@) && fault == MailError::InvalidEmail,
        },
{
    let email_is_address = address_parses(email);
    compose_checked(owner, name, email, message, email_is_address)
}

/// Puts the contact mail together if the owner's address is one; `None` if
/// it is not, whatever the visitor's address is.
pub fn try_compose(owner: &str, name: &str, email: &str, message: &str) -> (mail: Option<
    Result<ContactMail, MailError>,
>)
    ensures
        match mail {
            None => !is_address(owner@),
            Some(Ok(composed)) => is_address(owner@) && is_address(email@) && composed.carries(
                owner@,
                name@,
                email@,
                message@,
            ),
            Some(Err(fault)) => is_address(owner@) && !is_address(email@) && fault
                == MailError::InvalidEmail,
        },
{
    if address_parses(owner) {
        Some(compose(owner, name, email, message))
    } else {
        None
    }
}

} // verus!
