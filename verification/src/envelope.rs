//! The uniform envelope of every remote answer, and what each kind of request
//! reads out of it.

use crate::error::Error;
use crate::ingress::TunnelConfig;
use vstd::prelude::*;

verus! {

/// A remote answer: whether the remote side counts the request as done, the
/// messages it gave if not, and the data it sent, if any.
#[derive(Debug, Clone, PartialEq, Eq)]
pub struct Envelope<T> {
    pub success: bool,
    pub errors: Vec<String>,
    pub result: Option<T>,
}

/// One DNS record of a lookup's answer: the identifier it is deleted by.
#[derive(Debug, Clone, PartialEq, Eq)]
pub struct DnsRecord {
    pub id: String,
}

/// What an answer amounts to. No answer at all is a transport failure with
/// the reason given; an answer that reports failure is an API error with the
/// envelope's messages, however many; any other answer yields its data.
pub open spec fn normalized<T>(reply: Result<Envelope<T>, String>) -> Result<Option<T>, Error> {
    match reply {
        Err(message) => Err(Error::Transport { message }),
        Ok(envelope) => if envelope.success {
            Ok(envelope.result)
        } else {
            Err(Error::Api { messages: envelope.errors })
        },
    }
}

/// Reads an answer through the envelope.
pub fn normalize<T>(reply: Result<Envelope<T>, String>) -> (r: Result<Option<T>, Error>)
    ensures
        r == normalized(reply),
{
    match reply {
        Err(message) => Err(Error::Transport { message }),
        Ok(envelope) => if envelope.success {
            Ok(envelope.result)
        } else {
            Err(Error::Api { messages: envelope.errors })
        },
    }
}

/// The answer to a request for the tunnel configuration. Success without
/// data is `MissingPayload`.
pub fn expect_config(reply: Result<Envelope<TunnelConfig>, String>) -> (r: Result<
    TunnelConfig,
    Error,
>)
    ensures
        r == match normalized(reply) {
            Err(error) => Err::<TunnelConfig, Error>(error),
            Ok(None) => Err(Error::MissingPayload),
            Ok(Some(config)) => Ok(config),
        },
{
    match normalize(reply) {
        Err(error) => Err(error),
        Ok(None) => Err(Error::MissingPayload),
        Ok(Some(config)) => Ok(config),
    }
}

/// The answer to a request that only has to be carried out: a write, a
/// creation, a deletion. Whatever data comes with success is ignored.
pub fn expect_done<T>(reply: Result<Envelope<T>, String>) -> (r: Result<(), Error>)
    ensures
        r == match normalized(reply) {
            Err(error) => Err::<(), Error>(error),
            Ok(_) => Ok(()),
        },
{
    match normalize(reply) {
        Err(error) => Err(error),
        Ok(_) => Ok(()),
    }
}

/// The answer to a lookup of DNS records: the identifier of the first record
/// returned. That there is none is a normal answer, not an error.
pub fn expect_record_id(reply: Result<Envelope<Vec<DnsRecord>>, String>) -> (r: Result<
    Option<String>,
    Error,
>)
    ensures
        r == match normalized(reply) {
            Err(error) => Err::<Option<String>, Error>(error),
            Ok(None) => Ok(None),
            Ok(Some(records)) => if records@.len() > 0 {
                Ok(Some(records@[0].id))
            } else {
                Ok(None)
            },
        },
{
    match normalize(reply) {
        Err(error) => Err(error),
        Ok(None) => Ok(None),
        Ok(Some(records)) => {
            let mut records = records;
            if records.len() > 0 {
                let first = records.swap_remove(0);
                Ok(Some(first.id))
            } else {
                Ok(None)
            }
        },
    }
}

/// The answer to the probe that checks the connection. Here a transport
/// failure counts as a failure of the remote side, with the reason as its
/// one message.
pub fn expect_reachable<T>(reply: Result<Envelope<T>, String>) -> (r: Result<(), Error>)
    ensures
        match reply {
            Err(message) => r matches Err(Error::Api { messages }) && messages@ == seq![message],
            Ok(envelope) => r == if envelope.success {
                Ok::<(), Error>(())
            } else {
                Err(Error::Api { messages: envelope.errors })
            },
        },
{
    match reply {
        Err(message) => {
            let mut messages: Vec<String> = Vec::new();
            messages.push(message);
            Err(Error::Api { messages })
        },
        Ok(envelope) => if envelope.success {
            Ok(())
        } else {
            Err(Error::Api { messages: envelope.errors })
        },
    }
}

} // verus!
