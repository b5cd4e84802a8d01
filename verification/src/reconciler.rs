//! The three operations on a tunnel's routes, as a machine that decides and
//! leaves the remote calls to its driver.
//!
//! An operation starts with a request for the configuration. The driver
//! carries each request out and hands the answer to `Reconciler::step`, which
//! names the next request or ends the operation with its outcome. Until the
//! configuration has been written, any failure ends the operation as failed.
//! Once it is written, the operation has happened: what goes wrong afterwards
//! on the DNS side is reported as a warning beside the success.

use crate::error::{Error, Warning};
use crate::ingress::{
    lemma_added_route_is_listed_last, lemma_removed_route_is_gone, Route, RouteListing,
    TunnelConfig,
};
use vstd::prelude::*;

verus! {

/// A remote call for the driver to make.
#[derive(Debug, PartialEq, Eq)]
pub enum Request {
    /// Read the tunnel's configuration.
    FetchConfig,
    /// Replace the tunnel's configuration by this one, whole.
    ReplaceConfig { config: TunnelConfig },
    /// Create the DNS record of this hostname.
    CreateRecord { hostname: String },
    /// Look up the DNS record of this hostname.
    FindRecord { hostname: String },
    /// Delete the DNS record with this identifier.
    DeleteRecord { id: String },
}

/// What a remote call that succeeded brought back.
#[derive(Debug, PartialEq, Eq)]
pub enum Payload {
    /// Nothing of use.
    Empty,
    /// The tunnel's configuration.
    Config { config: TunnelConfig },
    /// The identifier of a DNS record.
    RecordId { id: String },
}

/// What an operation that went through has done.
#[derive(Debug, Clone, PartialEq, Eq)]
pub enum Report {
    /// The route now stands in the configuration.
    Added { route: Route },
    /// No rule of the configuration names the hostname any more.
    Removed { hostname: String },
    /// The routes of the configuration.
    Listed { listing: RouteListing },
}

/// How an operation ended.
#[derive(Debug, Clone, PartialEq, Eq)]
pub enum Outcome {
    /// Everything was done.
    Success { report: Report },
    /// The configuration is as asked for; the DNS side is not.
    SuccessWithWarning { report: Report, warning: Warning },
    /// Nothing was changed.
    Failure { error: Error },
}

impl Outcome {
    /// Whether the operation counts as done, with or without a warning.
    pub fn succeeded(&self) -> (done: bool)
        ensures
            done == !(self is Failure),
    {
        match self {
            Outcome::Failure { .. } => false,
            _ => true,
        }
    }
}

/// An operation under way: what it is to do, and which answer it waits for.
#[derive(Debug, PartialEq, Eq)]
pub enum Reconciler {
    /// Adding a route; the configuration has been asked for.
    AddFetching { hostname: String, service: String },
    /// Adding a route; the new configuration has been sent.
    AddWriting { hostname: String, service: String },
    /// Adding a route; the configuration is written, the DNS record has been
    /// asked for.
    AddSyncing { hostname: String, service: String },
    /// Removing a route; the configuration has been asked for.
    RemoveFetching { hostname: String },
    /// Removing a route; the new configuration has been sent.
    RemoveWriting { hostname: String },
    /// Removing a route; the configuration is written, the DNS record is
    /// being looked up.
    RemoveFinding { hostname: String },
    /// Removing a route; the configuration is written, the DNS record is
    /// being deleted.
    RemoveDeleting { hostname: String },
    /// Listing the routes; the configuration has been asked for.
    ListFetching,
}

/// What follows an answer: the next request, or the end.
#[derive(Debug, PartialEq, Eq)]
pub enum Step {
    Continue { machine: Reconciler, request: Request },
    Finished { outcome: Outcome },
}

impl Step {
    /// The end of an operation that failed with `error`.
    pub open spec fn failed(error: Error) -> Step {
        Step::Finished { outcome: Outcome::Failure { error } }
    }

    /// The end of an operation that did all of `report`.
    pub open spec fn done(report: Report) -> Step {
        Step::Finished { outcome: Outcome::Success { report } }
    }

    /// Whether this step asks for the configuration to be written.
    pub open spec fn writes(self) -> bool {
        self matches Step::Continue { request: Request::ReplaceConfig { .. }, .. }
    }

    /// Whether this is the end of an operation that did `report` and then
    /// failed on the DNS side with `error`: a success with a warning that
    /// carries the error's words.
    pub open spec fn is_warned(self, report: Report, error: Error) -> bool {
        self matches Step::Finished {
            outcome: Outcome::SuccessWithWarning {
                report: reported,
                warning: Warning::DnsSyncFailed { message },
            },
        } && reported == report && message@ == error.text()
    }
}

impl Reconciler {
    /// Whether the configuration has been written: from here on the
    /// operation cannot fail any more.
    pub open spec fn committed(self) -> bool {
        self is AddSyncing || self is RemoveFinding || self is RemoveDeleting
    }

    /// How many answers the operation has taken so far.
    pub open spec fn progress(self) -> nat {
        match self {
            Reconciler::AddFetching { .. } => 0,
            Reconciler::RemoveFetching { .. } => 0,
            Reconciler::ListFetching => 0,
            Reconciler::AddWriting { .. } => 1,
            Reconciler::RemoveWriting { .. } => 1,
            Reconciler::AddSyncing { .. } => 2,
            Reconciler::RemoveFinding { .. } => 2,
            Reconciler::RemoveDeleting { .. } => 3,
        }
    }

    /// What the machine does with an answer.
    ///
    /// While the configuration is awaited: an error ends the operation with
    /// that error, and success without a configuration ends it with
    /// `MissingPayload`. With the configuration at hand, adding fails with
    /// `DuplicateRoute` if it names the hostname and with
    /// `InvariantViolation` if it is empty; removing fails with
    /// `RouteNotFound` if it does not name the hostname; both otherwise send
    /// the changed configuration back; listing ends with the listing.
    ///
    /// While the write is awaited: an error ends the operation with that
    /// error; success leads to the DNS side, the record's creation or its
    /// lookup.
    ///
    /// After that every answer ends in success. An error becomes a
    /// warning. A lookup that finds a record leads to its deletion, one that
    /// finds none ends with the warning that there was none.
    pub open spec fn steps_to(self, reply: Result<Payload, Error>, step: Step) -> bool {
        match self {
            Reconciler::AddFetching { hostname, service } => match reply {
                Err(error) => step == Step::failed(error),
                Ok(Payload::Config { config }) => match config@.add_route(hostname@, service@) {
                    Err(error) => step == Step::failed(error),
                    Ok(changed) => {
                        &&& step matches Step::Continue {
                            machine,
                            request: Request::ReplaceConfig { config: written },
                        }
                        &&& machine == (Reconciler::AddWriting { hostname, service })
                        &&& written@ == changed
                    },
                },
                Ok(_) => step == Step::failed(Error::MissingPayload),
            },
            Reconciler::AddWriting { hostname, service } => match reply {
                Err(error) => step == Step::failed(error),
                Ok(_) => step == (Step::Continue {
                    machine: Reconciler::AddSyncing { hostname, service },
                    request: Request::CreateRecord { hostname },
                }),
            },
            Reconciler::AddSyncing { hostname, service } => match reply {
                Err(error) => step.is_warned(
                    Report::Added { route: Route { hostname, service } },
                    error,
                ),
                Ok(_) => step == Step::done(Report::Added { route: Route { hostname, service } }),
            },
            Reconciler::RemoveFetching { hostname } => match reply {
                Err(error) => step == Step::failed(error),
                Ok(Payload::Config { config }) => match config@.remove_route(hostname@) {
                    Err(error) => step == Step::failed(error),
                    Ok(changed) => {
                        &&& step matches Step::Continue {
                            machine,
                            request: Request::ReplaceConfig { config: written },
                        }
                        &&& machine == (Reconciler::RemoveWriting { hostname })
                        &&& written@ == changed
                    },
                },
                Ok(_) => step == Step::failed(Error::MissingPayload),
            },
            Reconciler::RemoveWriting { hostname } => match reply {
                Err(error) => step == Step::failed(error),
                Ok(_) => step == (Step::Continue {
                    machine: Reconciler::RemoveFinding { hostname },
                    request: Request::FindRecord { hostname },
                }),
            },
            Reconciler::RemoveFinding { hostname } => match reply {
                Err(error) => step.is_warned(Report::Removed { hostname }, error),
                Ok(Payload::RecordId { id }) => step == (Step::Continue {
                    machine: Reconciler::RemoveDeleting { hostname },
                    request: Request::DeleteRecord { id },
                }),
                Ok(_) => step == (Step::Finished {
                    outcome: Outcome::SuccessWithWarning {
                        report: Report::Removed { hostname },
                        warning: Warning::DnsRecordNotFound,
                    },
                }),
            },
            Reconciler::RemoveDeleting { hostname } => match reply {
                Err(error) => step.is_warned(Report::Removed { hostname }, error),
                Ok(_) => step == Step::done(Report::Removed { hostname }),
            },
            Reconciler::ListFetching => match reply {
                Err(error) => step == Step::failed(error),
                Ok(Payload::Config { config }) => {
                    &&& step matches Step::Finished {
                        outcome: Outcome::Success { report: Report::Listed { listing } },
                    }
                    &&& listing@ == config@.listing()
                },
                Ok(_) => step == Step::failed(Error::MissingPayload),
            },
        }
    }

    /// Starts the addition of a route: the machine, and its first request.
    pub fn add_route(hostname: &str, service: &str) -> (start: (Reconciler, Request))
        ensures
            start.0 matches Reconciler::AddFetching { hostname: h, service: s } && h@ == hostname@
                && s@ == service@,
            start.1 == Request::FetchConfig,
    {
        (
            Reconciler::AddFetching { hostname: hostname.to_owned(), service: service.to_owned() },
            Request::FetchConfig,
        )
    }

    /// Starts the removal of a route: the machine, and its first request.
    pub fn remove_route(hostname: &str) -> (start: (Reconciler, Request))
        ensures
            start.0 matches Reconciler::RemoveFetching { hostname: h } && h@ == hostname@,
            start.1 == Request::FetchConfig,
    {
        (Reconciler::RemoveFetching { hostname: hostname.to_owned() }, Request::FetchConfig)
    }

    /// Starts the listing of the routes: the machine, and its first request.
    pub fn list_routes() -> (start: (Reconciler, Request))
        ensures
            start.0 == Reconciler::ListFetching,
            start.1 == Request::FetchConfig,
    {
        (Reconciler::ListFetching, Request::FetchConfig)
    }

    /// Whether the configuration has been written.
    pub fn is_committed(&self) -> (written: bool)
        ensures
            written == self.committed(),
    {
        match self {
            Reconciler::AddSyncing { .. } => true,
            Reconciler::RemoveFinding { .. } => true,
            Reconciler::RemoveDeleting { .. } => true,
            _ => false,
        }
    }

    /// Takes the answer to the request that is under way, and says what
    /// follows.
    pub fn step(self, reply: Result<Payload, Error>) -> (step: Step)
        ensures
            self.steps_to(reply, step),
    {
        match self {
            Reconciler::AddFetching { hostname, service } => match reply {
                Err(error) => Step::Finished { outcome: Outcome::Failure { error } },
                Ok(Payload::Config { config }) => {
                    let mut config = config;
                    match config.add_route(hostname.as_str(), service.as_str()) {
                        Err(error) => Step::Finished { outcome: Outcome::Failure { error } },
                        Ok(()) => Step::Continue {
                            machine: Reconciler::AddWriting { hostname, service },
                            request: Request::ReplaceConfig { config },
                        },
                    }
                },
                Ok(_) => Step::Finished { outcome: Outcome::Failure { error: Error::MissingPayload } },
            },
            Reconciler::AddWriting { hostname, service } => match reply {
                Err(error) => Step::Finished { outcome: Outcome::Failure { error } },
                Ok(_) => {
                    let record = hostname.clone();
                    Step::Continue {
                        machine: Reconciler::AddSyncing { hostname, service },
                        request: Request::CreateRecord { hostname: record },
                    }
                },
            },
            Reconciler::AddSyncing { hostname, service } => {
                let report = Report::Added { route: Route { hostname, service } };
                match reply {
                    Err(error) => Step::Finished {
                        outcome: Outcome::SuccessWithWarning {
                            report,
                            warning: Warning::DnsSyncFailed { message: error.message() },
                        },
                    },
                    Ok(_) => Step::Finished { outcome: Outcome::Success { report } },
                }
            },
            Reconciler::RemoveFetching { hostname } => match reply {
                Err(error) => Step::Finished { outcome: Outcome::Failure { error } },
                Ok(Payload::Config { config }) => {
                    let mut config = config;
                    match config.remove_route(hostname.as_str()) {
                        Err(error) => Step::Finished { outcome: Outcome::Failure { error } },
                        Ok(()) => Step::Continue {
                            machine: Reconciler::RemoveWriting { hostname },
                            request: Request::ReplaceConfig { config },
                        },
                    }
                },
                Ok(_) => Step::Finished { outcome: Outcome::Failure { error: Error::MissingPayload } },
            },
            Reconciler::RemoveWriting { hostname } => match reply {
                Err(error) => Step::Finished { outcome: Outcome::Failure { error } },
                Ok(_) => {
                    let record = hostname.clone();
                    Step::Continue {
                        machine: Reconciler::RemoveFinding { hostname },
                        request: Request::FindRecord { hostname: record },
                    }
                },
            },
            Reconciler::RemoveFinding { hostname } => match reply {
                Err(error) => Step::Finished {
                    outcome: Outcome::SuccessWithWarning {
                        report: Report::Removed { hostname },
                        warning: Warning::DnsSyncFailed { message: error.message() },
                    },
                },
                Ok(Payload::RecordId { id }) => Step::Continue {
                    machine: Reconciler::RemoveDeleting { hostname },
                    request: Request::DeleteRecord { id },
                },
                Ok(_) => Step::Finished {
                    outcome: Outcome::SuccessWithWarning {
                        report: Report::Removed { hostname },
                        warning: Warning::DnsRecordNotFound,
                    },
                },
            },
            Reconciler::RemoveDeleting { hostname } => match reply {
                Err(error) => Step::Finished {
                    outcome: Outcome::SuccessWithWarning {
                        report: Report::Removed { hostname },
                        warning: Warning::DnsSyncFailed { message: error.message() },
                    },
                },
                Ok(_) => Step::Finished {
                    outcome: Outcome::Success { report: Report::Removed { hostname } },
                },
            },
            Reconciler::ListFetching => match reply {
                Err(error) => Step::Finished { outcome: Outcome::Failure { error } },
                Ok(Payload::Config { config }) => Step::Finished {
                    outcome: Outcome::Success {
                        report: Report::Listed { listing: config.list_routes() },
                    },
                },
                Ok(_) => Step::Finished { outcome: Outcome::Failure { error: Error::MissingPayload } },
            },
        }
    }
}

/// Adding a hostname that the configuration already names fails with
/// `DuplicateRoute`, and the operation ends there: nothing is written.
pub proof fn lemma_duplicate_add_writes_nothing(
    hostname: String,
    service: String,
    config: TunnelConfig,
    step: Step,
)
    requires
        config@.has_route(hostname@),
        (Reconciler::AddFetching { hostname, service }).steps_to(
            Ok(Payload::Config { config }),
            step,
        ),
    ensures
        step == Step::failed(Error::DuplicateRoute),
        !step.writes(),
{
}

/// Removing a hostname that the configuration does not name fails with
/// `RouteNotFound`, and the operation ends there: nothing is written.
pub proof fn lemma_absent_remove_writes_nothing(hostname: String, config: TunnelConfig, step: Step)
    requires
        !config@.has_route(hostname@),
        (Reconciler::RemoveFetching { hostname }).steps_to(Ok(Payload::Config { config }), step),
    ensures
        step == Step::failed(Error::RouteNotFound),
        !step.writes(),
{
}

/// An operation moves forward only: each answer that does not end it takes it
/// one stage on, and the configuration is written at most once, in answer to
/// the configuration that was fetched. No request is made twice.
pub proof fn lemma_steps_advance(machine: Reconciler, reply: Result<Payload, Error>, step: Step)
    requires
        machine.steps_to(reply, step),
    ensures
        step matches Step::Continue { machine: next, .. } ==> next.progress() == machine.progress()
            + 1,
        step.writes() ==> machine.progress() == 0,
        step matches Step::Continue { request, .. } ==> !(request is FetchConfig),
{
}

/// Until the configuration is written, a call that fails ends the operation
/// with that very error, and no further request is made.
pub proof fn lemma_failure_before_the_write_ends_it(
    machine: Reconciler,
    error: Error,
    step: Step,
)
    requires
        !machine.committed(),
        machine.steps_to(Err(error), step),
    ensures
        step == Step::failed(error),
{
}

/// Once the configuration is written, nothing makes the operation fail.
/// Whatever the DNS side answers, the machine stays past the write and asks
/// for no second one, and when it ends it reports success. An answer that is
/// an error ends it at once, as a success with the warning `DnsSyncFailed`
/// that carries the error's words.
pub proof fn lemma_no_failure_once_written(
    machine: Reconciler,
    reply: Result<Payload, Error>,
    step: Step,
)
    requires
        machine.committed(),
        machine.steps_to(reply, step),
    ensures
        step matches Step::Finished { outcome } ==> !(outcome is Failure),
        step matches Step::Continue { machine: next, .. } ==> next.committed(),
        !step.writes(),
        reply matches Err(error) ==> (step matches Step::Finished {
            outcome: Outcome::SuccessWithWarning { warning: Warning::DnsSyncFailed { message }, .. },
        } && message@ == error.text()),
{
}

/// A change that was written shows in every later listing, whatever became
/// of the DNS side. If an addition or a removal got as far as sending
/// `written`, and a listing is later answered with a configuration that says
/// what `written` says, the listing succeeds with the routes of `written`.
/// After an addition to a list that ends in its catch-all rule, these are
/// the routes from before, then the new one, and the catch-all is the old
/// one. After a removal, no route is for the hostname.
pub proof fn lemma_written_change_is_listed(
    machine: Reconciler,
    fetched: TunnelConfig,
    written: TunnelConfig,
    next: Reconciler,
    stored: TunnelConfig,
    listed: Step,
)
    requires
        machine.steps_to(
            Ok(Payload::Config { config: fetched }),
            Step::Continue { machine: next, request: Request::ReplaceConfig { config: written } },
        ),
        stored@ == written@,
        Reconciler::ListFetching.steps_to(Ok(Payload::Config { config: stored }), listed),
    ensures
        listed matches Step::Finished {
            outcome: Outcome::Success { report: Report::Listed { listing } },
        } && listing@ == written@.listing(),
        machine matches Reconciler::AddFetching { hostname, service } ==> (
        fetched@.ingress.last().hostname is None ==> written@.listing().routes
            == fetched@.routes().push((hostname@, service@)) && written@.listing().catch_all
            == fetched@.catch_all()),
        machine matches Reconciler::RemoveFetching { hostname } ==> !written@.listing().names(
            hostname@,
        ),
{
    match machine {
        Reconciler::AddFetching { hostname, service } => {
            if fetched@.ingress.last().hostname is None {
                lemma_added_route_is_listed_last(fetched@, hostname@, service@);
            }
        },
        Reconciler::RemoveFetching { hostname } => {
            lemma_removed_route_is_gone(fetched@, hostname@);
        },
        _ => {},
    }
}

} // verus!
