//! The resolution orchestrator: a transport, a retry budget and an ordered
//! server list, driving the per-server retry loop and dispatching every
//! attempt's outcome to the chosen output strategy.
//!
//! The contract of `resolve` pins the whole run down as a trace: the events
//! a strategy receives decompose into one contiguous segment per server, in
//! configuration order; within a segment every attempt but the last fails,
//! the segment ends at the first success or at the retry budget, and each
//! event is matched by exactly one transport query for the same request
//! URI.

use vstd::prelude::*;
use vstd::string::StringExecFns;
use crate::response::{DnsError, DnsResponse};
use crate::server::{server_url, DnsHttpsServer};

verus! {

/// The unit passed between transport and output strategy; no other type
/// crosses that boundary.
pub type Outcome = Result<DnsResponse, DnsError>;

/// One strategy invocation: the server attempted and what came back.
pub type AttemptEvent = (DnsHttpsServer, Outcome);

/// The abstract transport capability: given a fully formed request URI,
/// return a decoded response or a typed error. Implementations decide the
/// outcome; the model only records which queries were asked, in order.
pub trait DnsClient {
    /// The request URIs this transport has been asked, oldest first. A
    /// transport that keeps no record may leave the default model, an
    /// ever-empty history; only an impl that overrides it can be verified
    /// against the query contract.
    open spec fn calls(&self) -> Seq<Seq<char>> {
        Seq::empty()
    }

    fn query(&mut self, uri: String) -> (result: Outcome)
        ensures
            final(self).calls() == old(self).calls().push(uri@),
    ;
}

/// The abstract output strategy capability: consume one per-attempt
/// outcome. The model records every invocation, in order, with exactly the
/// server and outcome handed over.
pub trait PrintHandler {
    /// The invocations this strategy has received, oldest first. A
    /// strategy that keeps no record may leave the default model, an
    /// ever-empty history; only an impl that overrides it can be verified
    /// against the handle contract.
    open spec fn events(&self) -> Seq<AttemptEvent> {
        Seq::empty()
    }

    fn handle(&mut self, server: &DnsHttpsServer, result: &Outcome)
        ensures
            final(self).events() == old(self).events().push((*server, *result)),
    ;
}

/// The request URI for one attempt.
pub open spec fn uri_of(server: DnsHttpsServer, domain: Seq<char>, rtype: Seq<char>) -> Seq<
    char,
> {
    server_url(server) + "?name="@ + domain + "&type="@ + rtype
}

/// The events one server contributes to a run: at most `budget` attempts,
/// at least one when the budget is positive, every attempt but the last a
/// failure, and a final failure only once the budget is exhausted.
pub open spec fn segment_trace(
    server: DnsHttpsServer,
    budget: int,
    seg: Seq<AttemptEvent>,
) -> bool {
    &&& seg.len() <= budget
    &&& (budget > 0 ==> seg.len() >= 1)
    &&& (budget <= 0 ==> seg.len() == 0)
    &&& (forall|i: int| 0 <= i < seg.len() ==> (#[trigger] seg[i]).0 == server)
    &&& (forall|i: int| 0 <= i < seg.len() - 1 ==> (#[trigger] seg[i]).1 is Err)
    &&& (seg.len() > 0 && seg.last().1 is Err ==> seg.len() == budget)
}

/// The events of a whole run: one segment per server, in order.
pub open spec fn resolve_trace(
    servers: Seq<DnsHttpsServer>,
    budget: int,
    ev: Seq<AttemptEvent>,
) -> bool
    decreases servers.len(),
{
    if servers.len() == 0 {
        ev.len() == 0
    } else {
        exists|k: int|
            0 <= k <= ev.len() && segment_trace(servers[0], budget, #[trigger] ev.take(k))
                && resolve_trace(servers.drop_first(), budget, ev.skip(k))
    }
}

pub proof fn lemma_trace_append(
    prefix: Seq<DnsHttpsServer>,
    s: DnsHttpsServer,
    budget: int,
    ev: Seq<AttemptEvent>,
    seg: Seq<AttemptEvent>,
)
    requires
        resolve_trace(prefix, budget, ev),
        segment_trace(s, budget, seg),
    ensures
        resolve_trace(prefix.push(s), budget, ev + seg),
    decreases prefix.len(),
{
    if prefix.len() == 0 {
        let k = seg.len() as int;
        assert((ev + seg).take(k) =~= seg);
        assert((ev + seg).skip(k) =~= Seq::<AttemptEvent>::empty());
        assert(prefix.push(s)[0] == s);
        assert(prefix.push(s).drop_first() =~= Seq::<DnsHttpsServer>::empty());
        assert(resolve_trace(
            Seq::<DnsHttpsServer>::empty(),
            budget,
            Seq::<AttemptEvent>::empty(),
        ));
        assert(0 <= k <= (ev + seg).len() && segment_trace(
            prefix.push(s)[0],
            budget,
            (ev + seg).take(k),
        ) && resolve_trace(prefix.push(s).drop_first(), budget, (ev + seg).skip(k)));
    } else {
        let k = choose|k: int|
            0 <= k <= ev.len() && segment_trace(prefix[0], budget, #[trigger] ev.take(k))
                && resolve_trace(prefix.drop_first(), budget, ev.skip(k));
        lemma_trace_append(prefix.drop_first(), s, budget, ev.skip(k), seg);
        assert((ev + seg).take(k) =~= ev.take(k));
        assert((ev + seg).skip(k) =~= ev.skip(k) + seg);
        assert(prefix.push(s)[0] == prefix[0]);
        assert(prefix.push(s).drop_first() =~= prefix.drop_first().push(s));
        assert(0 <= k <= (ev + seg).len() && segment_trace(
            prefix.push(s)[0],
            budget,
            (ev + seg).take(k),
        ) && resolve_trace(prefix.push(s).drop_first(), budget, (ev + seg).skip(k)));
    }
}

/// Law: an empty server list yields no events — and, through the query
/// correspondence of `resolve`, no transport calls either.
pub proof fn lemma_trace_empty(budget: int, ev: Seq<AttemptEvent>)
    requires
        resolve_trace(Seq::<DnsHttpsServer>::empty(), budget, ev),
    ensures
        ev.len() == 0,
{
}

/// Law: a run makes at most `budget` attempts per server, and with a
/// positive budget every server is attempted at least once.
pub proof fn lemma_trace_bounds(
    servers: Seq<DnsHttpsServer>,
    budget: int,
    ev: Seq<AttemptEvent>,
)
    requires
        resolve_trace(servers, budget, ev),
        budget >= 0,
    ensures
        ev.len() <= servers.len() * budget,
        budget > 0 ==> ev.len() >= servers.len(),
    decreases servers.len(),
{
    if servers.len() == 0 {
        assert(servers.len() * budget == 0) by (nonlinear_arith)
            requires
                servers.len() == 0,
        ;
    } else {
        let k = choose|k: int|
            0 <= k <= ev.len() && segment_trace(servers[0], budget, #[trigger] ev.take(k))
                && resolve_trace(servers.drop_first(), budget, ev.skip(k));
        lemma_trace_bounds(servers.drop_first(), budget, ev.skip(k));
        assert(ev.take(k).len() == k);
        assert(ev.skip(k).len() == ev.len() - k);
        assert((servers.len() - 1) * budget + budget == servers.len() * budget)
            by (nonlinear_arith);
    }
}

/// Law: against a transport that always fails, a run of N servers with
/// retry budget R produces exactly N * R events, in (server order, attempt
/// order): the event at index si * R + ai belongs to server si.
pub proof fn lemma_trace_all_failures(
    servers: Seq<DnsHttpsServer>,
    budget: int,
    ev: Seq<AttemptEvent>,
)
    requires
        resolve_trace(servers, budget, ev),
        budget >= 0,
        forall|i: int| 0 <= i < ev.len() ==> (#[trigger] ev[i]).1 is Err,
    ensures
        ev.len() == servers.len() * budget,
        forall|si: int, ai: int|
            0 <= si < servers.len() && 0 <= ai < budget ==> (#[trigger] ev[si * budget + ai]).0
                == servers[si],
    decreases servers.len(),
{
    if servers.len() == 0 {
        assert(servers.len() * budget == 0) by (nonlinear_arith)
            requires
                servers.len() == 0,
        ;
    } else {
        let k = choose|k: int|
            0 <= k <= ev.len() && segment_trace(servers[0], budget, #[trigger] ev.take(k))
                && resolve_trace(servers.drop_first(), budget, ev.skip(k));
        let seg = ev.take(k);
        if budget == 0 {
            assert(k == 0);
        } else {
            assert(seg.len() >= 1);
            assert(seg.last() == ev[k - 1]);
            assert(seg.last().1 is Err);
            assert(seg.len() == budget);
        }
        assert(k == budget);
        assert(forall|i: int| 0 <= i < ev.skip(k).len() ==> (#[trigger] ev.skip(k)[i]).1 is Err);
        lemma_trace_all_failures(servers.drop_first(), budget, ev.skip(k));
        assert(ev.len() - budget == (servers.len() - 1) * budget);
        assert((servers.len() - 1) * budget + budget == servers.len() * budget)
            by (nonlinear_arith);
        assert forall|si: int, ai: int|
            0 <= si < servers.len() && 0 <= ai < budget implies (#[trigger] ev[si * budget
            + ai]).0 == servers[si] by {
            if si == 0 {
                assert(0 * budget + ai == ai) by (nonlinear_arith);
                assert(seg[ai] == ev[ai]);
                assert(seg[ai].0 == servers[0]);
            } else {
                assert(ev.skip(k).len() == servers.drop_first().len() * budget);
                assert(servers.drop_first().len() == servers.len() - 1);
                assert((si - 1) * budget + ai + budget == si * budget + ai) by (nonlinear_arith);
                assert(0 <= (si - 1) * budget + ai && (si - 1) * budget + ai < (servers.len() - 1)
                    * budget) by (nonlinear_arith)
                    requires
                        1 <= si <= servers.len() - 1,
                        0 <= ai < budget,
                ;
                assert(ev.skip(k)[(si - 1) * budget + ai] == ev[si * budget + ai]);
                assert(ev.skip(k)[(si - 1) * budget + ai].0 == servers.drop_first()[si - 1]);
                assert(servers.drop_first()[si - 1] == servers[si]);
            }
        }
    }
}

/// Law: for a single server, the first successful attempt ends the run:
/// an event with a success at index j means exactly j + 1 attempts were
/// made, the j failures before it and then the success, all against that
/// server and within the budget.
pub proof fn lemma_single_server_stops_at_success(
    server: DnsHttpsServer,
    budget: int,
    ev: Seq<AttemptEvent>,
    j: int,
)
    requires
        resolve_trace(seq![server], budget, ev),
        0 <= j < ev.len(),
        ev[j].1 is Ok,
    ensures
        ev.len() == j + 1,
        ev.len() <= budget,
        forall|i: int| 0 <= i < j ==> (#[trigger] ev[i]).1 is Err,
        forall|i: int| 0 <= i < ev.len() ==> (#[trigger] ev[i]).0 == server,
{
    let servers = seq![server];
    let k = choose|k: int|
        0 <= k <= ev.len() && segment_trace(servers[0], budget, #[trigger] ev.take(k))
            && resolve_trace(servers.drop_first(), budget, ev.skip(k));
    assert(servers.drop_first() =~= Seq::<DnsHttpsServer>::empty());
    assert(ev.skip(k).len() == 0);
    assert(k == ev.len());
    assert(ev.take(k) =~= ev);
    if j < ev.len() - 1 {
        assert(ev[j].1 is Err);
    }
}

/// The resolution orchestrator: an exclusively owned transport, an ordered
/// append-only server list, and the per-server retry budget.
pub struct Dns<C: DnsClient> {
    pub client: C,
    pub servers: Vec<DnsHttpsServer>,
    pub retries: u8,
}

/// Builds the request URI for one attempt.
fn build_uri(server: &DnsHttpsServer, domain: &String, rtype: &String) -> (r: String)
    ensures
        r@ == uri_of(*server, domain@, rtype@),
{
    let mut u = server.url();
    u.append("?name=");
    u.append(domain.as_str());
    u.append("&type=");
    u.append(rtype.as_str());
    proof {
        assert(u@ =~= uri_of(*server, domain@, rtype@));
    }
    u
}

impl<C: DnsClient> Dns<C> {
    /// A fresh orchestrator with no servers yet.
    pub fn from_client(client: C, retries: u8) -> (r: Dns<C>)
        ensures
            r.client == client,
            r.servers@ == Seq::<DnsHttpsServer>::empty(),
            r.retries == retries,
    {
        Dns { client, servers: Vec::new(), retries }
    }

    /// Appends one server; existing servers and everything else stay put.
    pub fn add_server(&mut self, server: DnsHttpsServer)
        ensures
            final(self).servers@ == old(self).servers@.push(server),
            final(self).client == old(self).client,
            final(self).retries == old(self).retries,
    {
        self.servers.push(server);
    }

    /// Resolves `domain` with record type `rtype` against every server in
    /// order, reporting each attempt's outcome to `strategy` exactly once,
    /// in attempt order, before the next server begins. The new strategy
    /// events form a run trace for the configured servers and budget, and
    /// each event is matched by one transport query for that event's
    /// server, in the same order.
    pub fn resolve<T: PrintHandler>(&mut self, domain: String, rtype: String, strategy: &mut T)
        ensures
            final(self).servers@ == old(self).servers@,
            final(self).retries == old(self).retries,
            final(strategy).events().len() >= old(strategy).events().len(),
            final(self).client.calls().len() >= old(self).client.calls().len(),
            final(strategy).events().take(old(strategy).events().len() as int) == old(
                strategy,
            ).events(),
            final(self).client.calls().take(old(self).client.calls().len() as int) == old(
                self,
            ).client.calls(),
            ({
                let ev = final(strategy).events().skip(old(strategy).events().len() as int);
                let qs = final(self).client.calls().skip(old(self).client.calls().len() as int);
                &&& resolve_trace(old(self).servers@, old(self).retries as int, ev)
                &&& qs.len() == ev.len()
                &&& forall|i: int|
                    0 <= i < ev.len() ==> qs[i] == uri_of(
                        (#[trigger] ev[i]).0,
                        domain@,
                        rtype@,
                    )
            }),
    {
        let ghost mut evs: Seq<AttemptEvent> = Seq::empty();
        let ghost mut qss: Seq<Seq<char>> = Seq::empty();
        let mut si: usize = 0;
        while si < self.servers.len()
            invariant
                si <= self.servers.len(),
                self.servers@ == old(self).servers@,
                self.retries == old(self).retries,
                strategy.events() == old(strategy).events() + evs,
                self.client.calls() == old(self).client.calls() + qss,
                resolve_trace(self.servers@.take(si as int), self.retries as int, evs),
                qss.len() == evs.len(),
                forall|i: int|
                    0 <= i < evs.len() ==> qss[i] == uri_of(
                        (#[trigger] evs[i]).0,
                        domain@,
                        rtype@,
                    ),
            decreases self.servers.len() - si,
        {
            let ghost mut seg: Seq<AttemptEvent> = Seq::empty();
            let ghost mut segq: Seq<Seq<char>> = Seq::empty();
            let mut attempt: u8 = 0;
            let mut succeeded: bool = false;
            while attempt < self.retries && !succeeded
                invariant
                    si < self.servers@.len(),
                    self.servers@ == old(self).servers@,
                    self.retries == old(self).retries,
                    attempt <= self.retries,
                    seg.len() == attempt as int,
                    segq.len() == seg.len(),
                    strategy.events() == old(strategy).events() + evs + seg,
                    self.client.calls() == old(self).client.calls() + qss + segq,
                    forall|i: int|
                        0 <= i < seg.len() ==> (#[trigger] seg[i]).0 == self.servers@[si as int],
                    forall|i: int|
                        0 <= i < segq.len() ==> (#[trigger] segq[i]) == uri_of(
                            self.servers@[si as int],
                            domain@,
                            rtype@,
                        ),
                    !succeeded ==> forall|i: int|
                        0 <= i < seg.len() ==> (#[trigger] seg[i]).1 is Err,
                    succeeded ==> seg.len() >= 1 && seg.last().1 is Ok,
                    succeeded ==> forall|i: int|
                        0 <= i < seg.len() - 1 ==> (#[trigger] seg[i]).1 is Err,
                decreases self.retries - attempt,
            {
                let uri = build_uri(&self.servers[si], &domain, &rtype);
                let ghost uri_view = uri@;
                let result = self.client.query(uri);
                succeeded = result.is_ok();
                strategy.handle(&self.servers[si], &result);
                proof {
                    seg = seg.push((self.servers@[si as int], result));
                    segq = segq.push(uri_view);
                    assert(old(strategy).events() + evs + seg =~= (old(strategy).events() + evs
                        + seg.drop_last()).push((self.servers@[si as int], result)));
                    assert(old(self).client.calls() + qss + segq =~= (old(self).client.calls()
                        + qss + segq.drop_last()).push(uri_view));
                }
                attempt = attempt + 1;
            }
            proof {
                assert(segment_trace(
                    self.servers@[si as int],
                    self.retries as int,
                    seg,
                ));
                lemma_trace_append(
                    self.servers@.take(si as int),
                    self.servers@[si as int],
                    self.retries as int,
                    evs,
                    seg,
                );
                assert(self.servers@.take(si as int).push(self.servers@[si as int])
                    =~= self.servers@.take(si as int + 1));
                let ghost old_evs = evs;
                let ghost old_qss = qss;
                evs = evs + seg;
                qss = qss + segq;
                assert(strategy.events() =~= old(strategy).events() + evs);
                assert(self.client.calls() =~= old(self).client.calls() + qss);
                assert forall|i: int| 0 <= i < evs.len() implies qss[i] == uri_of(
                    (#[trigger] evs[i]).0,
                    domain@,
                    rtype@,
                ) by {
                    if i < old_evs.len() {
                        assert(evs[i] == old_evs[i]);
                        assert(qss[i] == old_qss[i]);
                    } else {
                        assert(evs[i] == seg[i - old_evs.len()]);
                        assert(qss[i] == segq[i - old_evs.len()]);
                    }
                }
            }
            si = si + 1;
        }
        proof {
            assert(self.servers@.take(self.servers@.len() as int) =~= self.servers@);
            assert((old(strategy).events() + evs).take(old(strategy).events().len() as int)
                =~= old(strategy).events());
            assert((old(strategy).events() + evs).skip(old(strategy).events().len() as int)
                =~= evs);
            assert((old(self).client.calls() + qss).take(old(self).client.calls().len() as int)
                =~= old(self).client.calls());
            assert((old(self).client.calls() + qss).skip(old(self).client.calls().len() as int)
                =~= qss);
        }
    }
}

/// A transport double that serves a fixed script of outcomes, front first,
/// and a generic failure once the script is exhausted. It satisfies the
/// transport contract, so the orchestrator's guarantees hold of runs that
/// use it.
pub struct ScriptedClient {
    pub script: Vec<Outcome>,
    pub seen: Vec<String>,
    pub history: Ghost<Seq<Seq<char>>>,
}

impl ScriptedClient {
    /// A scripted transport with no queries recorded yet.
    pub fn new(script: Vec<Outcome>) -> (r: ScriptedClient)
        ensures
            r.script@ == script@,
            r.seen@ == Seq::<String>::empty(),
            r.calls() == Seq::<Seq<char>>::empty(),
    {
        ScriptedClient { script, seen: Vec::new(), history: Ghost(Seq::empty()) }
    }
}

impl DnsClient for ScriptedClient {
    open spec fn calls(&self) -> Seq<Seq<char>> {
        self.history@
    }

    fn query(&mut self, uri: String) -> (result: Outcome) {
        self.seen.push(uri.clone());
        proof {
            self.history@ = self.history@.push(uri@);
        }
        if self.script.len() > 0 {
            self.script.remove(0)
        } else {
            Result::Err(DnsError { code: 0, message: String::new() })
        }
    }
}

} // verus!
