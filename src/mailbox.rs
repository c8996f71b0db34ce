use vstd::prelude::*;

verus! {

#[verifier::external_type_specification]
#[verifier::external_body]
pub struct ExLettreMailbox(lettre::message::Mailbox);

/// An optional string seen as an optional character sequence.
pub open spec fn opt_view(o: Option<String>) -> Option<Seq<char>> {
    match o {
        Some(s) => Some(s@),
        None => None,
    }
}

/// What lettre's mailbox parser makes of a text: the display name, if any,
/// and the address, or nothing where the text is not a mailbox.
pub uninterp spec fn mailbox_parts(s: Seq<char>) -> Option<(Option<Seq<char>>, Seq<char>)>;

/// A sender or recipient: an optional display name and an email address,
/// kept beside the value that the mail builder takes.
pub struct Contact {
    name: Option<String>,
    address: String,
    envelope: lettre::message::Mailbox,
}

impl View for Contact {
    type V = (Option<Seq<char>>, Seq<char>);

    closed spec fn view(&self) -> (Option<Seq<char>>, Seq<char>) {
        (opt_view(self.name), self.address@)
    }
}

/// Relies on lettre's `FromStr for Mailbox` (`Name <user@domain>` or a bare
/// address); the name and address are read back from its `name` and `email`.
#[verifier::external_body]
fn parse_with_lettre(s: &str) -> (r: Result<Contact, String>)
    ensures
        r is Ok <==> mailbox_parts(s@) is Some,
        r matches Ok(m) ==> mailbox_parts(s@) == Some(m@),
{
    match s.parse::<lettre::message::Mailbox>() {
        Ok(m) => Ok(Contact { name: m.name.clone(), address: m.email.to_string(), envelope: m }),
        Err(e) => Err(e.to_string()),
    }
}

impl Contact {
    /// Parses `"Name <user@domain>"` or `"user@domain"`; the error is the
    /// parser's own message.
    pub fn parse(s: &str) -> (r: Result<Contact, String>)
        ensures
            r is Ok <==> mailbox_parts(s@) is Some,
            r matches Ok(m) ==> mailbox_parts(s@) == Some(m@),
    {
        parse_with_lettre(s)
    }

    /// The display name, if the mailbox has one.
    pub fn name(&self) -> (r: Option<String>)
        ensures
            opt_view(r) == self@.0,
    {
        match &self.name {
            Some(n) => Some(n.clone()),
            None => None,
        }
    }

    /// The email address.
    pub fn address(&self) -> (r: String)
        ensures
            r@ == self@.1,
    {
        self.address.clone()
    }

    /// The value that the mail builder takes.
    pub fn envelope(&self) -> &lettre::message::Mailbox {
        &self.envelope
    }
}

} // verus!
