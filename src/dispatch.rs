use vstd::prelude::*;
use vstd::string::StringExecFns;
use crate::cli::CliArgs;
use crate::config::{config_child, config_safe, confindent_child};
use crate::escape::{unescape, unescaped};

verus! {

#[verifier::external_type_specification]
#[verifier::external_body]
pub struct ExMessage(lettre::Message);

/// Why a message could not be prepared.
#[derive(Debug, PartialEq, Eq)]
pub enum DispatchError {
    /// The mail builder refused the message; its message.
    Compose(String),
    /// The configuration has no value for this entry.
    MissingEntry(String),
}

/// The relay server and the credentials to log in with.
pub struct Settings {
    pub username: String,
    pub password: String,
    pub server: String,
}

/// A message ready for the transport, with what it needs to send it.
pub struct Outgoing {
    pub message: lettre::Message,
    /// The body text handed to the mail builder.
    pub body: String,
    pub settings: Settings,
}

/// Relies on lettre's `MessageBuilder` (`from`, `to`, `subject`, `body`):
/// a plain-text message; the builder's error is rendered by `Display`.
#[verifier::external_body]
fn lettre_message(
    from: &lettre::message::Mailbox,
    to: &lettre::message::Mailbox,
    subject: &str,
    body: String,
) -> (r: Result<lettre::Message, String>) {
    lettre::Message::builder().from(from.clone()).to(to.clone()).subject(subject).body(body).map_err(
        |e| e.to_string(),
    )
}

/// Whether the lookup failed on the entry `key`.
pub open spec fn fails_on(r: Result<Settings, DispatchError>, key: Seq<char>) -> bool {
    r matches Err(DispatchError::MissingEntry(k)) && k@ == key
}

/// Reads `Username`, `Password` and `MailServer` from the configuration
/// document, in that order, and fails on the first that has no value.
pub fn settings(config: &str) -> (r: Result<Settings, DispatchError>)
    requires
        config_safe(config@),
    ensures
        config_child(config@, "Username"@) is None ==> fails_on(r, "Username"@),
        config_child(config@, "Username"@) is Some && config_child(config@, "Password"@) is None
            ==> fails_on(r, "Password"@),
        config_child(config@, "Username"@) is Some && config_child(config@, "Password"@) is Some
            && config_child(config@, "MailServer"@) is None ==> fails_on(r, "MailServer"@),
        r is Ok <==> (config_child(config@, "Username"@) is Some && config_child(
            config@,
            "Password"@,
        ) is Some && config_child(config@, "MailServer"@) is Some),
        r matches Ok(s) ==> {
            &&& config_child(config@, "Username"@) == Some(s.username@)
            &&& config_child(config@, "Password"@) == Some(s.password@)
            &&& config_child(config@, "MailServer"@) == Some(s.server@)
        },
{
    let username = match confindent_child(config, "Username") {
        Some(v) => v,
        None => {
            return Err(DispatchError::MissingEntry("Username".to_string()));
        },
    };
    let password = match confindent_child(config, "Password") {
        Some(v) => v,
        None => {
            return Err(DispatchError::MissingEntry("Password".to_string()));
        },
    };
    let server = match confindent_child(config, "MailServer") {
        Some(v) => v,
        None => {
            return Err(DispatchError::MissingEntry("MailServer".to_string()));
        },
    };
    Ok(Settings { username, password, server })
}

/// Builds the message from the resolved inputs, with each literal `\n` of the
/// body turned into a newline, and reads the transport settings.
pub fn prepare(args: &CliArgs) -> (r: Result<Outgoing, DispatchError>)
    requires
        config_safe(args.config@),
    ensures
        r matches Ok(o) ==> {
            &&& o.body@ == unescaped(args.body@)
            &&& config_child(args.config@, "Username"@) == Some(o.settings.username@)
            &&& config_child(args.config@, "Password"@) == Some(o.settings.password@)
            &&& config_child(args.config@, "MailServer"@) == Some(o.settings.server@)
        },
        r matches Err(DispatchError::MissingEntry(_)) ==> config_child(args.config@, "Username"@) is None
            || config_child(args.config@, "Password"@) is None || config_child(
            args.config@,
            "MailServer"@,
        ) is None,
        r matches Err(DispatchError::Compose(_)) || (r is Ok <==> (config_child(
            args.config@,
            "Username"@,
        ) is Some && config_child(args.config@, "Password"@) is Some && config_child(
            args.config@,
            "MailServer"@,
        ) is Some)),
        (config_child(args.config@, "Username"@) is None || config_child(args.config@, "Password"@) is None
            || config_child(args.config@, "MailServer"@) is None) ==> r is Err,
{
    let body = unescape(args.body.as_str());
    let message = match lettre_message(
        args.from.envelope(),
        args.to.envelope(),
        args.subject.as_str(),
        body.clone(),
    ) {
        Ok(m) => m,
        Err(e) => {
            return Err(DispatchError::Compose(e));
        },
    };
    let settings = match settings(args.config.as_str()) {
        Ok(s) => s,
        Err(e) => {
            return Err(e);
        },
    };
    Ok(Outgoing { message, body, settings })
}

} // verus!
