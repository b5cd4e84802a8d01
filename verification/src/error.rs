//! What can go wrong, and how it is put into words.

use vstd::prelude::*;
use vstd::string::*;

verus! {

/// A failure that ends an operation before the ingress configuration has been
/// written.
#[derive(Debug, Clone, PartialEq, Eq)]
pub enum Error {
    /// The remote side answered and reported failure, with these messages.
    Api { messages: Vec<String> },
    /// The remote side reported success and sent no data.
    MissingPayload,
    /// The hostname to add is already in the rule list.
    DuplicateRoute,
    /// The hostname to remove is not in the rule list.
    RouteNotFound,
    /// The remote rule list is malformed: it holds no catch-all rule.
    InvariantViolation,
    /// The request did not get through, or the answer could not be read.
    Transport { message: String },
}

/// Something that went wrong after the ingress configuration was written. The
/// operation still counts as done; the DNS side needs a second look.
#[derive(Debug, Clone, PartialEq, Eq)]
pub enum Warning {
    /// The DNS step failed; `message` says how.
    DnsSyncFailed { message: String },
    /// There was no DNS record to clean up.
    DnsRecordNotFound,
}

/// The sequences of `parts`, one after the other, with `separator` between
/// each two. Nothing for no parts.
pub open spec fn joined(parts: Seq<Seq<char>>, separator: Seq<char>) -> Seq<char>
    decreases parts.len(),
{
    if parts.len() == 0 {
        Seq::empty()
    } else if parts.len() == 1 {
        parts[0]
    } else {
        joined(parts.drop_last(), separator) + separator + parts.last()
    }
}

/// The messages in one line, with a comma and a space between each two.
pub fn join_messages(messages: &Vec<String>) -> (line: String)
    ensures
        line@ == joined(messages@.map_values(|m: String| m@), ", "@),
{
    let ghost parts = messages@.map_values(|m: String| m@);
    let mut line = String::new();
    let mut i: usize = 0;
    while i < messages.len()
        invariant
            i <= messages.len(),
            parts == messages@.map_values(|m: String| m@),
            line@ == joined(parts.take(i as int), ", "@),
        decreases messages.len() - i,
    {
        if i > 0 {
            line.append(", ");
        }
        line.append(messages[i].as_str());
        proof {
            assert(parts.take(i + 1).drop_last() =~= parts.take(i as int));
        }
        i += 1;
    }
    assert(parts.take(parts.len() as int) =~= parts);
    line
}

impl Error {
    /// The error in words. Messages of the remote side are joined by a comma
    /// and a space; a transport failure speaks for itself.
    pub open spec fn text(self) -> Seq<char> {
        match self {
            Error::Api { messages } => joined(messages@.map_values(|m: String| m@), ", "@),
            Error::MissingPayload => "No config returned"@,
            Error::DuplicateRoute => "route already exists in tunnel config"@,
            Error::RouteNotFound => "route not found in tunnel config"@,
            Error::InvariantViolation => "No catch-all rule found"@,
            Error::Transport { message } => message@,
        }
    }

    /// The error in words.
    pub fn message(&self) -> (line: String)
        ensures
            line@ == self.text(),
    {
        match self {
            Error::Api { messages } => join_messages(messages),
            Error::MissingPayload => "No config returned".to_owned(),
            Error::DuplicateRoute => "route already exists in tunnel config".to_owned(),
            Error::RouteNotFound => "route not found in tunnel config".to_owned(),
            Error::InvariantViolation => "No catch-all rule found".to_owned(),
            Error::Transport { message } => message.clone(),
        }
    }
}

} // verus!
