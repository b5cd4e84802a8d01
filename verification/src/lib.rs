//! Route reconciliation for a single tunnel: the ordered ingress-rule list and
//! the DNS records that must follow it.
//!
//! A route maps a public hostname to a local service. It lives in two places
//! that no transaction links: a rule of the tunnel's configuration, which is
//! read and written whole, and a DNS record of the zone. This library holds
//! what is decided about them and leaves every remote call to its caller.
//!
//! - [`ingress`]: the rule list, and adding, removing and listing routes.
//! - [`reconciler`]: the three operations as a machine that is fed the answer
//!   to each remote call and names the next one.
//! - [`client`]: the requests, with their addresses and bodies.
//! - [`envelope`]: the envelope of every remote answer, and what is read out
//!   of it.
//! - [`credentials`]: the four secrets of a session.
//! - [`error`]: failures and warnings, and their words.
//! - [`json`]: the JSON types that are carried through unread.

pub mod client;
pub mod credentials;
pub mod envelope;
pub mod error;
pub mod ingress;
pub mod json;
pub mod reconciler;
