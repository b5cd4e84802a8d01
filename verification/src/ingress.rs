//! The ordered ingress-rule list of one tunnel.

use crate::error::Error;
use vstd::prelude::*;

verus! {

/// One entry of the rule list: a public hostname and the local service that
/// answers for it. The catch-all rule has no hostname.
#[derive(Debug, Clone, PartialEq, Eq)]
pub struct IngressRule {
    /// The public hostname; absent exactly on the catch-all rule.
    pub hostname: Option<String>,
    /// The local target, such as a URL.
    pub service: String,
    /// Whatever else the remote side keeps on the rule. Never inspected.
    pub extra: Option<serde_json::Value>,
}

/// What a rule says: its strings as character sequences, its payload as is.
pub struct RuleView {
    pub hostname: Option<Seq<char>>,
    pub service: Seq<char>,
    pub extra: Option<serde_json::Value>,
}

impl View for IngressRule {
    type V = RuleView;

    open spec fn view(&self) -> RuleView {
        RuleView {
            hostname: match self.hostname {
                Some(h) => Some(h@),
                None => None,
            },
            service: self.service@,
            extra: self.extra,
        }
    }
}

/// The whole configuration of a tunnel: the rule list and the remaining
/// fields of the remote document.
#[derive(Debug, PartialEq, Eq)]
pub struct TunnelConfig {
    /// The rules, in the order in which the tunnel tries them.
    pub ingress: Vec<IngressRule>,
    /// The other fields of the remote document. Never inspected.
    pub extra: serde_json::Map<String, serde_json::Value>,
}

/// What a configuration says.
pub struct ConfigView {
    pub ingress: Seq<RuleView>,
    pub extra: serde_json::Map<String, serde_json::Value>,
}

impl View for TunnelConfig {
    type V = ConfigView;

    open spec fn view(&self) -> ConfigView {
        ConfigView { ingress: self.ingress@.map_values(|r: IngressRule| r@), extra: self.extra }
    }
}

/// A hostname and the service it is routed to.
#[derive(Debug, Clone, PartialEq, Eq)]
pub struct Route {
    pub hostname: String,
    pub service: String,
}

impl View for Route {
    type V = (Seq<char>, Seq<char>);

    open spec fn view(&self) -> (Seq<char>, Seq<char>) {
        (self.hostname@, self.service@)
    }
}

/// The routes of a configuration, as `list_routes` reports them.
#[derive(Debug, Clone, PartialEq, Eq)]
pub struct RouteListing {
    /// The host-specific rules, in the order of the rule list.
    pub routes: Vec<Route>,
    /// The service of the catch-all rule, if the list has one.
    pub catch_all: Option<String>,
}

/// What a listing says.
pub struct ListingView {
    pub routes: Seq<(Seq<char>, Seq<char>)>,
    pub catch_all: Option<Seq<char>>,
}

impl ListingView {
    /// Whether some listed route is for `hostname`.
    pub open spec fn names(self, hostname: Seq<char>) -> bool {
        exists|i: int| 0 <= i < self.routes.len() && (#[trigger] self.routes[i]).0 == hostname
    }
}

impl View for RouteListing {
    type V = ListingView;

    open spec fn view(&self) -> ListingView {
        ListingView {
            routes: self.routes@.map_values(|r: Route| r@),
            catch_all: match self.catch_all {
                Some(s) => Some(s@),
                None => None,
            },
        }
    }
}

impl RuleView {
    /// The rule that a new route starts as: no payload.
    pub open spec fn route(hostname: Seq<char>, service: Seq<char>) -> RuleView {
        RuleView { hostname: Some(hostname), service, extra: None }
    }
}

impl ConfigView {
    /// Whether some rule names `hostname`, exactly.
    pub open spec fn has_route(self, hostname: Seq<char>) -> bool {
        exists|i: int|
            0 <= i < self.ingress.len() && (#[trigger] self.ingress[i]).hostname == Some(hostname)
    }

    /// The list is not empty; its last rule, and no other, lacks a hostname;
    /// no hostname occurs twice.
    pub open spec fn well_formed(self) -> bool {
        &&& self.ingress.len() > 0
        &&& forall|i: int|
            0 <= i < self.ingress.len() ==> ((#[trigger] self.ingress[i]).hostname is None <==> i
                == self.ingress.len() - 1)
        &&& forall|i: int, j: int|
            0 <= i < j < self.ingress.len() ==> (#[trigger] self.ingress[i]).hostname != (
            #[trigger] self.ingress[j]).hostname
    }

    /// The configuration with a route for `hostname` put directly before the
    /// last rule. Meant for a list that is not empty.
    pub open spec fn with_route(self, hostname: Seq<char>, service: Seq<char>) -> ConfigView
        recommends
            self.ingress.len() > 0,
    {
        ConfigView {
            ingress: self.ingress.drop_last().push(RuleView::route(hostname, service)).push(
                self.ingress.last(),
            ),
            extra: self.extra,
        }
    }

    /// The configuration without the rules that name `hostname`; the others
    /// keep their order.
    pub open spec fn without_route(self, hostname: Seq<char>) -> ConfigView {
        ConfigView {
            ingress: self.ingress.filter(|r: RuleView| r.hostname != Some(hostname)),
            extra: self.extra,
        }
    }

    /// What adding a route for `hostname` comes to: `DuplicateRoute` if a
    /// rule names the hostname already, `InvariantViolation` if the list is
    /// empty, else the configuration with the route before its last rule.
    pub open spec fn add_route(self, hostname: Seq<char>, service: Seq<char>) -> Result<
        ConfigView,
        Error,
    > {
        if self.has_route(hostname) {
            Err(Error::DuplicateRoute)
        } else if self.ingress.len() == 0 {
            Err(Error::InvariantViolation)
        } else {
            Ok(self.with_route(hostname, service))
        }
    }

    /// What removing `hostname` comes to: `RouteNotFound` if no rule names
    /// it, else the configuration without the rules that do.
    pub open spec fn remove_route(self, hostname: Seq<char>) -> Result<ConfigView, Error> {
        if self.has_route(hostname) {
            Ok(self.without_route(hostname))
        } else {
            Err(Error::RouteNotFound)
        }
    }

    /// The host-specific rules as pairs of hostname and service, in the order
    /// of the rule list.
    pub open spec fn routes(self) -> Seq<(Seq<char>, Seq<char>)> {
        self.ingress.filter(|r: RuleView| r.hostname is Some).map_values(
            |r: RuleView| (r.hostname->0, r.service),
        )
    }

    /// The service of the catch-all rule: of the last rule without a
    /// hostname, if there is one.
    pub open spec fn catch_all(self) -> Option<Seq<char>> {
        let hostless = self.ingress.filter(|r: RuleView| r.hostname is None);
        if hostless.len() > 0 {
            Some(hostless.last().service)
        } else {
            None
        }
    }

    /// The rule list, parted into host-specific routes and the catch-all.
    pub open spec fn listing(self) -> ListingView {
        ListingView { routes: self.routes(), catch_all: self.catch_all() }
    }
}

impl TunnelConfig {
    /// Whether some rule names `hostname`, exactly.
    pub fn has_route(&self, hostname: &str) -> (found: bool)
        ensures
            found == self@.has_route(hostname@),
    {
        let target = hostname.to_owned();
        let mut i: usize = 0;
        while i < self.ingress.len()
            invariant
                i <= self.ingress.len(),
                target@ == hostname@,
                forall|j: int| 0 <= j < i ==> (#[trigger] self@.ingress[j]).hostname != Some(hostname@),
            decreases self.ingress.len() - i,
        {
            let hit = match &self.ingress[i].hostname {
                Some(h) => *h == target,
                None => false,
            };
            if hit {
                assert(self@.ingress[i as int].hostname == Some(hostname@));
                return true;
            }
            i += 1;
        }
        false
    }

    /// Puts a route for `hostname` directly before the catch-all rule.
    ///
    /// Fails with `DuplicateRoute` if a rule already names `hostname`, and
    /// with `InvariantViolation` if the list is empty, so that there is no
    /// catch-all rule to keep last. On failure nothing is changed.
    pub fn add_route(&mut self, hostname: &str, service: &str) -> (r: Result<(), Error>)
        ensures
            match old(self)@.add_route(hostname@, service@) {
                Ok(after) => r is Ok && final(self)@ == after,
                Err(error) => r == Err::<(), Error>(error) && *final(self) == *old(self),
            },
            r is Ok && old(self)@.well_formed() ==> final(self)@.well_formed(),
    {
        if self.has_route(hostname) {
            return Err(Error::DuplicateRoute);
        }
        if self.ingress.len() == 0 {
            return Err(Error::InvariantViolation);
        }
        let catch_all = self.ingress.pop().unwrap();
        self.ingress.push(
            IngressRule { hostname: Some(hostname.to_owned()), service: service.to_owned(), extra: None },
        );
        self.ingress.push(catch_all);
        proof {
            assert(self@.ingress =~= old(self)@.with_route(hostname@, service@).ingress);
            if old(self)@.well_formed() {
                lemma_with_route_keeps_well_formed(old(self)@, hostname@, service@);
            }
        }
        Ok(())
    }

    /// Takes out every rule that names `hostname`; the others keep their
    /// order.
    ///
    /// Fails with `RouteNotFound` if no rule names `hostname`. On failure
    /// nothing is changed.
    pub fn remove_route(&mut self, hostname: &str) -> (r: Result<(), Error>)
        ensures
            match old(self)@.remove_route(hostname@) {
                Ok(after) => r is Ok && final(self)@ == after,
                Err(error) => r == Err::<(), Error>(error) && *final(self) == *old(self),
            },
            r is Ok && old(self)@.well_formed() ==> final(self)@.well_formed(),
    {
        if !self.has_route(hostname) {
            return Err(Error::RouteNotFound);
        }
        let target = hostname.to_owned();
        let mut rules: Vec<IngressRule> = Vec::new();
        std::mem::swap(&mut self.ingress, &mut rules);
        let ghost before = old(self)@.ingress;
        let ghost keep = |r: RuleView| r.hostname != Some(hostname@);
        assert(self@.ingress =~= before.take(0).filter(keep)) by {
            reveal(Seq::filter);
        }
        for rule in it: rules
            invariant
                target@ == hostname@,
                self.extra == old(self).extra,
                keep == |r: RuleView| r.hostname != Some(hostname@),
                before == it.seq().map_values(|r: IngressRule| r@),
                self@.ingress == before.take(it.index() as int).filter(keep),
        {
            let ghost k = it.index() as int;
            let hit = match &rule.hostname {
                Some(h) => *h == target,
                None => false,
            };
            proof {
                assert(before.take(k + 1) =~= before.take(k).push(rule@));
                before.take(k).lemma_filter_push(rule@, keep);
            }
            if !hit {
                self.ingress.push(rule);
            }
        }
        proof {
            assert(before.take(before.len() as int) =~= before);
            if old(self)@.well_formed() {
                lemma_without_route_keeps_well_formed(old(self)@, hostname@);
            }
        }
        Ok(())
    }

    /// Parts the rule list into the host-specific routes, in order, and the
    /// service of the catch-all rule.
    pub fn list_routes(&self) -> (listing: RouteListing)
        ensures
            listing@ == self@.listing(),
    {
        let mut routes: Vec<Route> = Vec::new();
        let mut catch_all: Option<String> = None;
        let ghost rules = self@.ingress;
        let ghost hosted = |r: RuleView| r.hostname is Some;
        let ghost hostless = |r: RuleView| r.hostname is None;
        let ghost pair = |r: RuleView| (r.hostname->0, r.service);
        proof {
            reveal(Seq::filter);
        }
        let mut i: usize = 0;
        while i < self.ingress.len()
            invariant
                i <= self.ingress.len(),
                rules == self@.ingress,
                hosted == |r: RuleView| r.hostname is Some,
                hostless == |r: RuleView| r.hostname is None,
                pair == |r: RuleView| (r.hostname->0, r.service),
                routes@.map_values(|r: Route| r@) == rules.take(i as int).filter(hosted).map_values(
                    pair,
                ),
                match catch_all {
                    Some(s) => rules.take(i as int).filter(hostless).len() > 0 && rules.take(
                        i as int,
                    ).filter(hostless).last().service == s@,
                    None => rules.take(i as int).filter(hostless).len() == 0,
                },
            decreases self.ingress.len() - i,
        {
            let rule = &self.ingress[i];
            proof {
                assert(rules.take(i + 1) =~= rules.take(i as int).push(rule@));
                rules.take(i as int).lemma_filter_push(rule@, hosted);
                rules.take(i as int).lemma_filter_push(rule@, hostless);
            }
            match &rule.hostname {
                Some(hostname) => {
                    routes.push(Route { hostname: hostname.clone(), service: rule.service.clone() });
                    proof {
                        let kept = rules.take(i as int).filter(hosted);
                        assert(kept.push(rule@).map_values(pair) =~= kept.map_values(pair).push(
                            pair(rule@),
                        ));
                    }
                },
                None => {
                    catch_all = Some(rule.service.clone());
                },
            }
            i += 1;
        }
        assert(rules.take(rules.len() as int) =~= rules);
        RouteListing { routes, catch_all }
    }
}

/// A filter that every element passes changes nothing.
proof fn lemma_filter_keeps_all(rules: Seq<RuleView>, keep: spec_fn(RuleView) -> bool)
    requires
        forall|i: int| 0 <= i < rules.len() ==> keep(#[trigger] rules[i]),
    ensures
        rules.filter(keep) == rules,
    decreases rules.len(),
{
    reveal(Seq::filter);
    if rules.len() > 0 {
        lemma_filter_keeps_all(rules.drop_last(), keep);
    }
}

/// A filter that no element passes leaves nothing.
proof fn lemma_filter_drops_all(rules: Seq<RuleView>, keep: spec_fn(RuleView) -> bool)
    requires
        forall|i: int| 0 <= i < rules.len() ==> !keep(#[trigger] rules[i]),
    ensures
        rules.filter(keep).len() == 0,
    decreases rules.len(),
{
    reveal(Seq::filter);
    if rules.len() > 0 {
        lemma_filter_drops_all(rules.drop_last(), keep);
    }
}

/// A listing names a hostname exactly when a rule of the configuration does.
pub proof fn lemma_listing_names_routes(config: ConfigView, hostname: Seq<char>)
    ensures
        config.listing().names(hostname) <==> config.has_route(hostname),
{
    let hosted = |r: RuleView| r.hostname is Some;
    let pair = |r: RuleView| (r.hostname->0, r.service);
    let kept = config.ingress.filter(hosted);
    let routes = config.routes();
    if config.listing().names(hostname) {
        let i = choose|i: int| 0 <= i < routes.len() && (#[trigger] routes[i]).0 == hostname;
        config.ingress.lemma_filter_pred(hosted, i);
        config.ingress.lemma_filter_contains_rev(hosted, kept[i]);
    }
    if config.has_route(hostname) {
        let j = choose|j: int|
            0 <= j < config.ingress.len() && (#[trigger] config.ingress[j]).hostname == Some(
                hostname,
            );
        config.ingress.lemma_filter_contains(hosted, j);
        let i = choose|i: int| 0 <= i < kept.len() && kept[i] == config.ingress[j];
        assert(config.listing().routes[i].0 == hostname);
    }
}

/// An added route stands directly before the catch-all rule, and nothing
/// else moves. Where a route is added to a list that ends in a rule without
/// hostname, the new list is the old one with the route put before that last
/// rule; its listing shows the routes from before, then the new one, and the
/// same catch-all. The addition is refused only for a hostname that the list
/// names already.
pub proof fn lemma_added_route_is_listed_last(
    config: ConfigView,
    hostname: Seq<char>,
    service: Seq<char>,
)
    requires
        config.ingress.len() > 0,
        config.ingress.last().hostname is None,
    ensures
        match config.add_route(hostname, service) {
            Ok(after) => {
                &&& after.ingress == config.ingress.drop_last() + seq![
                    RuleView::route(hostname, service),
                    config.ingress.last(),
                ]
                &&& after.extra == config.extra
                &&& after.listing().routes == config.listing().routes.push((hostname, service))
                &&& after.listing().catch_all == config.listing().catch_all
                &&& after.listing().catch_all == Some(config.ingress.last().service)
            },
            Err(error) => error == Error::DuplicateRoute && config.has_route(hostname),
        },
{
    let hosted = |r: RuleView| r.hostname is Some;
    let hostless = |r: RuleView| r.hostname is None;
    let pair = |r: RuleView| (r.hostname->0, r.service);
    let front = config.ingress.drop_last();
    let last = config.ingress.last();
    let route = RuleView::route(hostname, service);
    assert(front.push(last) =~= config.ingress);

    front.lemma_filter_push(last, hosted);
    front.lemma_filter_push(route, hosted);
    front.push(route).lemma_filter_push(last, hosted);

    front.lemma_filter_push(last, hostless);
    front.lemma_filter_push(route, hostless);
    front.push(route).lemma_filter_push(last, hostless);
}

/// A removed route is gone: where a hostname is removed, no rule names it
/// afterwards, and so no listing does. The removal is refused exactly for a
/// hostname that no rule names, and then nothing is to change.
pub proof fn lemma_removed_route_is_gone(config: ConfigView, hostname: Seq<char>)
    ensures
        match config.remove_route(hostname) {
            Ok(after) => {
                &&& !after.has_route(hostname)
                &&& !after.listing().names(hostname)
                &&& after.extra == config.extra
                &&& after.ingress.len() < config.ingress.len()
            },
            Err(error) => error == Error::RouteNotFound && !config.has_route(hostname),
        },
{
    let keep = |r: RuleView| r.hostname != Some(hostname);
    let after = config.without_route(hostname);
    assert forall|i: int| 0 <= i < after.ingress.len() implies (#[trigger] after.ingress[i]).hostname
        != Some(hostname) by {
        config.ingress.lemma_filter_pred(keep, i);
    }
    lemma_listing_names_routes(after, hostname);
    if config.has_route(hostname) {
        let k = choose|k: int|
            0 <= k < config.ingress.len() && (#[trigger] config.ingress[k]).hostname == Some(
                hostname,
            );
        lemma_filter_shrinks(config.ingress, keep, k);
    }
}

/// A filter that some element does not pass makes the sequence shorter.
proof fn lemma_filter_shrinks(rules: Seq<RuleView>, keep: spec_fn(RuleView) -> bool, k: int)
    requires
        0 <= k < rules.len(),
        !keep(rules[k]),
    ensures
        rules.filter(keep).len() < rules.len(),
    decreases rules.len(),
{
    reveal(Seq::filter);
    rules.drop_last().lemma_filter_len(keep);
    if k < rules.len() - 1 {
        lemma_filter_shrinks(rules.drop_last(), keep, k);
    }
}

/// Removing a hostname that no rule names would change nothing.
pub proof fn lemma_remove_absent_changes_nothing(config: ConfigView, hostname: Seq<char>)
    requires
        !config.has_route(hostname),
    ensures
        config.without_route(hostname) == config,
{
    lemma_filter_keeps_all(config.ingress, |r: RuleView| r.hostname != Some(hostname));
}

/// Adding a route and then removing the same hostname gives back the
/// configuration as it was, in order and content.
pub proof fn lemma_add_then_remove_restores(
    config: ConfigView,
    hostname: Seq<char>,
    service: Seq<char>,
)
    ensures
        config.add_route(hostname, service) matches Ok(after) ==> after.remove_route(hostname)
            == Ok::<ConfigView, Error>(config),
{
    if config.add_route(hostname, service) is Ok {
        let keep = |r: RuleView| r.hostname != Some(hostname);
        let front = config.ingress.drop_last();
        let last = config.ingress.last();
        let route = RuleView::route(hostname, service);
        let after = config.with_route(hostname, service);
        assert(front.push(last) =~= config.ingress);
        lemma_filter_keeps_all(front, keep);
        front.lemma_filter_push(route, keep);
        front.push(route).lemma_filter_push(last, keep);
        assert(after.has_route(hostname)) by {
            assert(after.ingress[front.len() as int].hostname == Some(hostname));
        }
    }
}

/// A well-formed list that takes a new hostname stays well-formed.
pub proof fn lemma_with_route_keeps_well_formed(
    config: ConfigView,
    hostname: Seq<char>,
    service: Seq<char>,
)
    requires
        config.well_formed(),
        !config.has_route(hostname),
    ensures
        config.with_route(hostname, service).well_formed(),
        config.with_route(hostname, service).has_route(hostname),
{
    let after = config.with_route(hostname, service);
    let n = config.ingress.len() as int;
    assert(after.ingress[n - 1] == RuleView::route(hostname, service));
    assert forall|i: int| 0 <= i < n - 1 implies #[trigger] after.ingress[i] == config.ingress[i] by {}
}

/// In a well-formed list at most one rule names a hostname, so removing the
/// hostname takes out that one rule.
proof fn lemma_without_route_removes_one(config: ConfigView, hostname: Seq<char>, k: int)
    requires
        config.well_formed(),
        0 <= k < config.ingress.len(),
        config.ingress[k].hostname == Some(hostname),
    ensures
        config.without_route(hostname).ingress == config.ingress.remove(k),
{
    let keep = |r: RuleView| r.hostname != Some(hostname);
    let rules = config.ingress;
    let left = rules.take(k);
    let right = rules.skip(k + 1);
    let one = seq![rules[k]];
    assert(rules =~= left + one + right);
    lemma_filter_keeps_all(left, keep);
    lemma_filter_keeps_all(right, keep);
    lemma_filter_drops_all(one, keep);
    Seq::filter_distributes_over_add(left, one, keep);
    Seq::filter_distributes_over_add(left + one, right, keep);
}

/// A well-formed list stays well-formed when a hostname is removed.
pub proof fn lemma_without_route_keeps_well_formed(config: ConfigView, hostname: Seq<char>)
    requires
        config.well_formed(),
    ensures
        config.without_route(hostname).well_formed(),
{
    if config.has_route(hostname) {
        let k = choose|k: int|
            0 <= k < config.ingress.len() && (#[trigger] config.ingress[k]).hostname == Some(
                hostname,
            );
        lemma_without_route_removes_one(config, hostname, k);
        let after = config.without_route(hostname);
        let n = config.ingress.len() as int;
        assert forall|i: int| 0 <= i < n - 1 implies #[trigger] after.ingress[i] == config.ingress[if i
            < k {
            i
        } else {
            i + 1
        }] by {}
    } else {
        lemma_remove_absent_changes_nothing(config, hostname);
    }
}

} // verus!
