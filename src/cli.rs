use vstd::prelude::*;
use vstd::string::StringExecFns;
use crate::config::{config_is_safe, config_parses, config_safe, confindent_parses};
use crate::mailbox::{mailbox_parts, opt_view, Contact};
use crate::options::{
    args_view, defines, getopts_accepts, getopts_given, getopts_value, table_ok, OptionTable,
};

verus! {

/// Why the command line could not be resolved.
#[derive(Debug, PartialEq, Eq)]
pub enum ResolveError {
    /// An unknown option or a missing option value, with the parser's message.
    Usage(String),
    /// Help was asked for.
    Help,
    MissingConfig,
    MissingFrom,
    /// The sender is not a mailbox; the parser's message.
    BadFrom(String),
    MissingTo,
    /// The recipient is not a mailbox; the parser's message.
    BadTo(String),
    MissingSubject,
    MissingBody,
    /// The configuration file could not be read.
    ConfigUnreadable,
    /// The configuration file is not a configuration document.
    ConfigInvalid,
    /// The body file could not be read.
    BodyUnreadable,
}

/// The options as given, before any check.
#[derive(Debug, PartialEq, Eq)]
pub struct RawOptions {
    pub help: bool,
    pub config: Option<String>,
    pub from: Option<String>,
    pub to: Option<String>,
    pub subject: Option<String>,
    pub body: Option<String>,
    pub body_file: Option<String>,
}

/// Where the message body comes from.
#[derive(Debug, PartialEq, Eq)]
pub enum BodySource {
    /// Text given on the command line.
    Inline(String),
    /// The path of a file whose contents are the body.
    File(String),
}

/// The checked options: what remains to be done is reading the files.
pub struct Plan {
    pub config_path: String,
    pub from: Contact,
    pub to: Contact,
    pub subject: String,
    pub body: BodySource,
}

/// The resolved inputs of one send.
pub struct CliArgs {
    /// The text of the configuration document.
    pub config: String,
    pub from: Contact,
    pub to: Contact,
    pub subject: String,
    pub body: String,
}

/// The command-line options: short name, long name, and whether a value follows.
pub open spec fn table_spec() -> Seq<(Seq<char>, Seq<char>, bool)> {
    seq![
        ("c"@, "config"@, true),
        ("f"@, "from"@, true),
        ("t"@, "to"@, true),
        ("s"@, "subject"@, true),
        ("b"@, "body"@, true),
        (""@, "body-file"@, true),
        ("h"@, "help"@, false),
    ]
}

/// The command-line options: `-c/--config`, `-f/--from`, `-t/--to`,
/// `-s/--subject`, `-b/--body` and `--body-file` take a value, `-h/--help`
/// takes none.
pub fn option_table() -> (r: OptionTable)
    ensures
        r.spec() == table_spec(),
        table_ok(r.spec()),
{
    let mut t = OptionTable::new();
    proof {
        reveal_strlit("c");
        reveal_strlit("config");
        reveal_strlit("f");
        reveal_strlit("from");
        reveal_strlit("t");
        reveal_strlit("to");
        reveal_strlit("s");
        reveal_strlit("subject");
        reveal_strlit("b");
        reveal_strlit("body");
        reveal_strlit("");
        reveal_strlit("body-file");
        reveal_strlit("h");
        reveal_strlit("help");
    }
    t.option("c", "config", "Path to read the config from", "PATH");
    t.option("f", "from", "The message sender.\nFrom Name <email@example.com>", "MAILBOX");
    t.option("t", "to", "The message receiver.\nTo Name <email@example.com>", "MAILBOX");
    t.option("s", "subject", "The message subject", "STRING");
    t.option("b", "body", "The message body\nOverrides the body-file option", "STRING");
    t.option(
        "",
        "body-file",
        "Path to read the message body from\nOverridden by the body option",
        "FILE",
    );
    t.flag("h", "help", "Print this help message");
    proof {
        assert(t.spec() =~= table_spec());
    }
    t
}

/// The first line of the usage text.
pub fn usage_brief(program: &str) -> (r: String)
    ensures
        r@ == "usage: "@ + program@ + " FILE [options]"@,
{
    "usage: ".to_string().concat(program).concat(" FILE [options]")
}

/// Reads the options out of `args` (the program name left out): each is
/// what getopts finds for it against `table_spec`; arguments that getopts
/// refuses (an unknown option, a missing value) are a usage error.
pub fn read_options(args: &Vec<String>) -> (r: Result<RawOptions, ResolveError>)
    ensures
        r is Ok <==> getopts_accepts(table_spec(), args_view(args@)),
        r matches Err(e) ==> e is Usage,
        r matches Ok(o) ==> {
            let av = args_view(args@);
            &&& o.help == getopts_given(table_spec(), av, "help"@)
            &&& opt_view(o.config) == getopts_value(table_spec(), av, "config"@)
            &&& opt_view(o.from) == getopts_value(table_spec(), av, "from"@)
            &&& opt_view(o.to) == getopts_value(table_spec(), av, "to"@)
            &&& opt_view(o.subject) == getopts_value(table_spec(), av, "subject"@)
            &&& opt_view(o.body) == getopts_value(table_spec(), av, "body"@)
            &&& opt_view(o.body_file) == getopts_value(table_spec(), av, "body-file"@)
        },
{
    let table = option_table();
    let m = match table.matches(args) {
        Ok(m) => m,
        Err(e) => {
            return Err(ResolveError::Usage(e));
        },
    };
    proof {
        reveal_strlit("config");
        reveal_strlit("from");
        reveal_strlit("to");
        reveal_strlit("subject");
        reveal_strlit("body");
        reveal_strlit("body-file");
        reveal_strlit("help");
        let t = table_spec();
        assert(defines(t, "help"@)) by {
            assert(t[6].1 == "help"@ && t[6].0 == t[6].0);
        }
        assert(defines(t, "config"@)) by {
            assert(t[0].1 == "config"@ && t[0].0 == t[0].0);
        }
        assert(defines(t, "from"@)) by {
            assert(t[1].1 == "from"@ && t[1].0 == t[1].0);
        }
        assert(defines(t, "to"@)) by {
            assert(t[2].1 == "to"@ && t[2].0 == t[2].0);
        }
        assert(defines(t, "subject"@)) by {
            assert(t[3].1 == "subject"@ && t[3].0 == t[3].0);
        }
        assert(defines(t, "body"@)) by {
            assert(t[4].1 == "body"@ && t[4].0 == t[4].0);
        }
        assert(defines(t, "body-file"@)) by {
            assert(t[5].1 == "body-file"@ && t[5].0 == t[5].0);
        }
    }
    let help = m.present("help");
    let config = m.value("config");
    let from = m.value("from");
    let to = m.value("to");
    let subject = m.value("subject");
    let body = m.value("body");
    let body_file = m.value("body-file");
    Ok(RawOptions { help, config, from, to, subject, body, body_file })
}

/// Whether the given text is present and parses as a mailbox.
pub open spec fn mailbox_given(o: Option<String>) -> bool {
    o matches Some(s) && mailbox_parts(s@) is Some
}

/// The body source as (inline, text).
pub open spec fn body_view(b: BodySource) -> (bool, Seq<char>) {
    match b {
        BodySource::Inline(s) => (true, s@),
        BodySource::File(p) => (false, p@),
    }
}

/// Whether a configuration text is present and usable.
pub open spec fn text_usable(o: Option<String>) -> bool {
    o matches Some(t) && config_usable(t@)
}

/// Whether the optional text is present and parses as a mailbox.
pub open spec fn mailbox_ok(o: Option<Seq<char>>) -> bool {
    o matches Some(s) && mailbox_parts(s) is Some
}

/// Whether the options name everything a send needs and both mailboxes parse.
pub open spec fn resolvable(raw: RawOptions) -> bool {
    &&& !raw.help
    &&& raw.config is Some
    &&& mailbox_given(raw.from)
    &&& mailbox_given(raw.to)
    &&& raw.subject is Some
    &&& (raw.body is Some || raw.body_file is Some)
}

/// Options that ask for no help, name a configuration file, give a sender
/// and a recipient that parse as mailboxes, a subject, and an inline body or a
/// body file, are resolvable.
pub proof fn complete_options_resolve(raw: RawOptions)
    requires
        !raw.help,
        raw.config is Some,
        mailbox_given(raw.from),
        mailbox_given(raw.to),
        raw.subject is Some,
        raw.body is Some || raw.body_file is Some,
    ensures
        resolvable(raw),
{
}

/// Options that lack the configuration path, the sender, the recipient, the
/// subject, or both the inline body and the body file, are not resolvable.
pub proof fn incomplete_options_fail(raw: RawOptions)
    requires
        raw.config is None || raw.from is None || raw.to is None || raw.subject is None || (
        raw.body is None && raw.body_file is None),
    ensures
        !resolvable(raw),
{
}

/// Checks the options in order (help, config, from, to, subject, body) and
/// stops at the first that fails; the inline body wins over the body file.
pub fn resolve_plan(raw: &RawOptions) -> (r: Result<Plan, ResolveError>)
    ensures
        raw.help ==> r matches Err(ResolveError::Help),
        !raw.help && raw.config is None ==> r matches Err(ResolveError::MissingConfig),
        !raw.help && raw.config is Some && raw.from is None ==> r matches Err(
            ResolveError::MissingFrom,
        ),
        !raw.help && raw.config is Some && raw.from is Some && !mailbox_given(raw.from) ==> r matches Err(
            ResolveError::BadFrom(_),
        ),
        !raw.help && raw.config is Some && mailbox_given(raw.from) && raw.to is None ==> r matches Err(
            ResolveError::MissingTo,
        ),
        !raw.help && raw.config is Some && mailbox_given(raw.from) && raw.to is Some
            && !mailbox_given(raw.to) ==> r matches Err(ResolveError::BadTo(_)),
        !raw.help && raw.config is Some && mailbox_given(raw.from) && mailbox_given(raw.to)
            && raw.subject is None ==> r matches Err(ResolveError::MissingSubject),
        !raw.help && raw.config is Some && mailbox_given(raw.from) && mailbox_given(raw.to)
            && raw.subject is Some && raw.body is None && raw.body_file is None ==> r matches Err(
            ResolveError::MissingBody,
        ),
        r is Ok <==> resolvable(*raw),
        r matches Ok(p) ==> {
            &&& Some(p.config_path@) == opt_view(raw.config)
            &&& mailbox_parts(raw.from->0@) == Some(p.from@)
            &&& mailbox_parts(raw.to->0@) == Some(p.to@)
            &&& Some(p.subject@) == opt_view(raw.subject)
            &&& body_view(p.body) == if raw.body is Some {
                (true, raw.body->0@)
            } else {
                (false, raw.body_file->0@)
            }
        },
{
    if raw.help {
        return Err(ResolveError::Help);
    }
    let config_path = match &raw.config {
        None => {
            return Err(ResolveError::MissingConfig);
        },
        Some(p) => p.clone(),
    };
    let from = match &raw.from {
        None => {
            return Err(ResolveError::MissingFrom);
        },
        Some(s) => match Contact::parse(s.as_str()) {
            Ok(c) => c,
            Err(e) => {
                return Err(ResolveError::BadFrom(e));
            },
        },
    };
    let to = match &raw.to {
        None => {
            return Err(ResolveError::MissingTo);
        },
        Some(s) => match Contact::parse(s.as_str()) {
            Ok(c) => c,
            Err(e) => {
                return Err(ResolveError::BadTo(e));
            },
        },
    };
    let subject = match &raw.subject {
        None => {
            return Err(ResolveError::MissingSubject);
        },
        Some(s) => s.clone(),
    };
    let body = match &raw.body {
        Some(b) => BodySource::Inline(b.clone()),
        None => match &raw.body_file {
            Some(p) => BodySource::File(p.clone()),
            None => {
                return Err(ResolveError::MissingBody);
            },
        },
    };
    Ok(Plan { config_path, from, to, subject, body })
}

/// A configuration text that confindent is known to answer on and accepts.
pub open spec fn config_usable(t: Seq<char>) -> bool {
    config_safe(t) && config_parses(t)
}

impl CliArgs {
    /// What getopts finds for the option `name` in `args` against `table_spec`.
    pub open spec fn given(args: Seq<String>, name: Seq<char>) -> Option<Seq<char>> {
        getopts_value(table_spec(), args_view(args), name)
    }

    /// Resolves the arguments (the program name left out) with the text of
    /// the configuration file they name and, where the body comes from a
    /// file, that file's text (`None`: it could not be read). The checks run
    /// in order: the arguments, help, config, from, to, subject, body, then
    /// the configuration text and the body file.
    pub fn parse(args: &Vec<String>, config_text: Option<String>, body_text: Option<String>) -> (r:
        Result<CliArgs, ResolveError>)
        ensures
            !getopts_accepts(table_spec(), args_view(args@)) ==> (r matches Err(ResolveError::Usage(_))),
            getopts_accepts(table_spec(), args_view(args@)) && getopts_given(
                table_spec(),
                args_view(args@),
                "help"@,
            ) ==> (r matches Err(ResolveError::Help)),
            r is Ok ==> getopts_accepts(table_spec(), args_view(args@)) && !getopts_given(
                table_spec(),
                args_view(args@),
                "help"@,
            ),
            Self::given(args@, "config"@) is None ==> r is Err,
            Self::given(args@, "from"@) is None ==> r is Err,
            Self::given(args@, "to"@) is None ==> r is Err,
            Self::given(args@, "subject"@) is None ==> r is Err,
            Self::given(args@, "body"@) is None && Self::given(args@, "body-file"@) is None ==> r is Err,
            getopts_accepts(table_spec(), args_view(args@)) && !getopts_given(
                table_spec(),
                args_view(args@),
                "help"@,
            ) ==> {
                &&& Self::given(args@, "config"@) is None ==> (r matches Err(ResolveError::MissingConfig))
                &&& Self::given(args@, "config"@) is Some && Self::given(args@, "from"@) is None
                    ==> (r matches Err(ResolveError::MissingFrom))
                &&& Self::given(args@, "config"@) is Some && mailbox_ok(Self::given(args@, "from"@))
                    && Self::given(args@, "to"@) is None ==> (r matches Err(ResolveError::MissingTo))
                &&& Self::given(args@, "config"@) is Some && mailbox_ok(Self::given(args@, "from"@))
                    && mailbox_ok(Self::given(args@, "to"@)) && Self::given(args@, "subject"@) is None
                    ==> (r matches Err(ResolveError::MissingSubject))
                &&& Self::given(args@, "config"@) is Some && mailbox_ok(Self::given(args@, "from"@))
                    && mailbox_ok(Self::given(args@, "to"@)) && Self::given(args@, "subject"@) is Some
                    && Self::given(args@, "body"@) is None && Self::given(args@, "body-file"@) is None
                    ==> (r matches Err(ResolveError::MissingBody))
                &&& (r is Ok <==> (Self::given(args@, "config"@) is Some && mailbox_ok(
                    Self::given(args@, "from"@),
                ) && mailbox_ok(Self::given(args@, "to"@)) && Self::given(args@, "subject"@) is Some
                    && (Self::given(args@, "body"@) is Some || (Self::given(args@, "body-file"@) is Some
                    && body_text is Some)) && text_usable(config_text)))
            },
            r matches Ok(a) ==> {
                &&& Some(a.config@) == opt_view(config_text)
                &&& config_safe(a.config@)
                &&& mailbox_parts(Self::given(args@, "from"@)->0) == Some(a.from@)
                &&& mailbox_parts(Self::given(args@, "to"@)->0) == Some(a.to@)
                &&& Some(a.subject@) == Self::given(args@, "subject"@)
                &&& Some(a.body@) == if Self::given(args@, "body"@) is Some {
                    Self::given(args@, "body"@)
                } else {
                    opt_view(body_text)
                }
            },
    {
        let raw = match read_options(args) {
            Ok(raw) => raw,
            Err(e) => {
                return Err(e);
            },
        };
        let plan = match resolve_plan(&raw) {
            Ok(p) => p,
            Err(e) => {
                return Err(e);
            },
        };
        CliArgs::complete(plan, config_text, body_text)
    }

    /// Completes a plan with the text of the configuration file and, where
    /// the body comes from a file, that file's text (`None`: it could not be
    /// read). A file body is taken verbatim.
    pub fn complete(plan: Plan, config_text: Option<String>, body_text: Option<String>) -> (r: Result<
        CliArgs,
        ResolveError,
    >)
        ensures
            config_text is None ==> r matches Err(ResolveError::ConfigUnreadable),
            config_text matches Some(t) && !config_usable(t@) ==> r matches Err(
                ResolveError::ConfigInvalid,
            ),
            config_text matches Some(t) && config_usable(t@) && plan.body is File && body_text is None
                ==> r matches Err(ResolveError::BodyUnreadable),
            r is Ok <==> (config_text matches Some(t) && config_usable(t@) && (plan.body is Inline
                || body_text is Some)),
            r matches Ok(a) ==> {
                &&& Some(a.config@) == opt_view(config_text)
                &&& config_safe(a.config@)
                &&& a.from@ == plan.from@
                &&& a.to@ == plan.to@
                &&& a.subject@ == plan.subject@
                &&& a.body@ == match plan.body {
                    BodySource::Inline(b) => b@,
                    BodySource::File(_) => body_text->0@,
                }
            },
    {
        let config = match config_text {
            None => {
                return Err(ResolveError::ConfigUnreadable);
            },
            Some(t) => t,
        };
        if !config_is_safe(config.as_str()) || !confindent_parses(config.as_str()) {
            return Err(ResolveError::ConfigInvalid);
        }
        let body = match plan.body {
            BodySource::Inline(b) => b,
            BodySource::File(_) => match body_text {
                Some(t) => t,
                None => {
                    return Err(ResolveError::BodyUnreadable);
                },
            },
        };
        Ok(CliArgs { config, from: plan.from, to: plan.to, subject: plan.subject, body })
    }
}

} // verus!
