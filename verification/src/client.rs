//! The requests that reach the two remote resources: the tunnel's ingress
//! configuration and the zone's DNS records.

use crate::credentials::Credentials;
use crate::ingress::TunnelConfig;
use vstd::prelude::*;
use vstd::string::*;

verus! {

/// How a request acts on its resource.
#[derive(Debug, Clone, Copy, PartialEq, Eq, Structural)]
pub enum Method {
    Get,
    Put,
    Post,
    Delete,
}

/// The DNS record that makes a hostname resolve to the tunnel.
#[derive(Debug, Clone, PartialEq, Eq)]
pub struct CnameRecord {
    /// The record type, always `CNAME`.
    pub record_type: String,
    /// The hostname the record is for.
    pub name: String,
    /// The tunnel's own name in the routing domain.
    pub content: String,
    /// Whether the remote side proxies the traffic; always so.
    pub proxied: bool,
}

/// What a record says.
pub struct CnameView {
    pub record_type: Seq<char>,
    pub name: Seq<char>,
    pub content: Seq<char>,
    pub proxied: bool,
}

impl View for CnameRecord {
    type V = CnameView;

    open spec fn view(&self) -> CnameView {
        CnameView {
            record_type: self.record_type@,
            name: self.name@,
            content: self.content@,
            proxied: self.proxied,
        }
    }
}

/// What a request sends along.
#[derive(Debug, PartialEq, Eq)]
pub enum Body {
    /// Nothing.
    Empty,
    /// The whole configuration, which replaces the remote one.
    Config { config: TunnelConfig },
    /// A record to create.
    Record { record: CnameRecord },
}

/// One request, ready to be sent with the session's token.
#[derive(Debug, PartialEq, Eq)]
pub struct HttpRequest {
    pub method: Method,
    pub url: String,
    pub body: Body,
}

/// The session: the four secrets, from which every request is made.
#[derive(Debug, Clone, PartialEq, Eq)]
pub struct CfClient {
    pub account_id: String,
    pub zone_id: String,
    pub tunnel_id: String,
    pub api_token: String,
}

impl CfClient {
    /// A session with these credentials.
    pub fn new(creds: &Credentials) -> (client: CfClient)
        ensures
            client.account_id == creds.account_id,
            client.zone_id == creds.zone_id,
            client.tunnel_id == creds.tunnel_id,
            client.api_token == creds.api_token,
    {
        CfClient {
            account_id: creds.account_id.clone(),
            zone_id: creds.zone_id.clone(),
            tunnel_id: creds.tunnel_id.clone(),
            api_token: creds.api_token.clone(),
        }
    }

    /// The address of the zone.
    pub open spec fn zone_address(self) -> Seq<char> {
        "https://api.cloudflare.com/client/v4/zones/"@ + self.zone_id@
    }

    /// The address of the zone's DNS records.
    pub open spec fn dns_address(self) -> Seq<char> {
        self.zone_address() + "/dns_records"@
    }

    /// The address of the tunnel's configuration.
    pub open spec fn tunnel_config_address(self) -> Seq<char> {
        "https://api.cloudflare.com/client/v4/accounts/"@ + self.account_id@ + "/cfd_tunnel/"@
            + self.tunnel_id@ + "/configurations"@
    }

    /// The tunnel's own name in the routing domain, to which the records of
    /// its hostnames point.
    pub open spec fn tunnel_target(self) -> Seq<char> {
        self.tunnel_id@ + ".cfargotunnel.com"@
    }

    /// The address of the zone.
    pub fn zone_url(&self) -> (url: String)
        ensures
            url@ == self.zone_address(),
    {
        let mut url = "https://api.cloudflare.com/client/v4/zones/".to_owned();
        url.append(self.zone_id.as_str());
        url
    }

    /// The address of the zone's DNS records.
    pub fn dns_url(&self) -> (url: String)
        ensures
            url@ == self.dns_address(),
    {
        let mut url = self.zone_url();
        url.append("/dns_records");
        url
    }

    /// The address of the tunnel's configuration.
    pub fn tunnel_config_url(&self) -> (url: String)
        ensures
            url@ == self.tunnel_config_address(),
    {
        let mut url = "https://api.cloudflare.com/client/v4/accounts/".to_owned();
        url.append(self.account_id.as_str());
        url.append("/cfd_tunnel/");
        url.append(self.tunnel_id.as_str());
        url.append("/configurations");
        url
    }

    /// The probe that checks the connection: it reads the zone and changes
    /// nothing.
    pub fn probe_zone(&self) -> (request: HttpRequest)
        ensures
            request.method == Method::Get,
            request.url@ == self.zone_address(),
            request.body == Body::Empty,
    {
        HttpRequest { method: Method::Get, url: self.zone_url(), body: Body::Empty }
    }

    /// The request for the tunnel's configuration.
    pub fn fetch_config(&self) -> (request: HttpRequest)
        ensures
            request.method == Method::Get,
            request.url@ == self.tunnel_config_address(),
            request.body == Body::Empty,
    {
        HttpRequest { method: Method::Get, url: self.tunnel_config_url(), body: Body::Empty }
    }

    /// The request that replaces the tunnel's configuration by `config`,
    /// whole.
    pub fn replace_config(&self, config: TunnelConfig) -> (request: HttpRequest)
        ensures
            request.method == Method::Put,
            request.url@ == self.tunnel_config_address(),
            request.body == (Body::Config { config }),
    {
        HttpRequest {
            method: Method::Put,
            url: self.tunnel_config_url(),
            body: Body::Config { config },
        }
    }

    /// The request that creates the DNS record of `hostname`: a proxied
    /// `CNAME` that points at the tunnel.
    pub fn create_record(&self, hostname: &str) -> (request: HttpRequest)
        ensures
            request.method == Method::Post,
            request.url@ == self.dns_address(),
            request.body matches Body::Record { record } && record@ == (CnameView {
                record_type: "CNAME"@,
                name: hostname@,
                content: self.tunnel_target(),
                proxied: true,
            }),
    {
        let mut content = self.tunnel_id.clone();
        content.append(".cfargotunnel.com");
        let record = CnameRecord {
            record_type: "CNAME".to_owned(),
            name: hostname.to_owned(),
            content,
            proxied: true,
        };
        HttpRequest { method: Method::Post, url: self.dns_url(), body: Body::Record { record } }
    }

    /// The request that looks up the `CNAME` records named `hostname`,
    /// exactly.
    pub fn find_record(&self, hostname: &str) -> (request: HttpRequest)
        ensures
            request.method == Method::Get,
            request.url@ == self.dns_address() + "?type=CNAME&name="@ + hostname@,
            request.body == Body::Empty,
    {
        let mut url = self.dns_url();
        url.append("?type=CNAME&name=");
        url.append(hostname);
        HttpRequest { method: Method::Get, url, body: Body::Empty }
    }

    /// The request that deletes the DNS record with this identifier.
    pub fn delete_record(&self, record_id: &str) -> (request: HttpRequest)
        ensures
            request.method == Method::Delete,
            request.url@ == self.dns_address() + "/"@ + record_id@,
            request.body == Body::Empty,
    {
        let mut url = self.dns_url();
        url.append("/");
        url.append(record_id);
        HttpRequest { method: Method::Delete, url, body: Body::Empty }
    }
}

} // verus!
