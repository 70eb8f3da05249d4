//! The two concrete output strategies: the default renderer, and the
//! geolocation-enriching renderer that follows each A-type answer with a
//! best-effort region lookup.

use vstd::prelude::*;
use crate::query_type::QueryType;
use crate::render::{
    enriched_blocks, push_answer_block, push_comment, push_enrich_note, push_error_section,
    push_head, push_questions, push_authorities, push_status, region_view,
    render_default, render_default_spec, render_enriched_spec, regions_match,
};
use crate::resolver::{AttemptEvent, Outcome, PrintHandler};
use crate::server::DnsHttpsServer;

verus! {

/// The geolocation boundary: look a dotted-decimal IPv4 address up and
/// hand back a region string, or fail. The library promises nothing of the
/// outcome — an implementation may consult an offline database, and a test
/// double may script it; the enriching strategy is correct for every
/// answer it can give.
pub trait RegionLookup {
    fn lookup(&mut self, ip: &str) -> Result<String, String>;
}

/// The default strategy: collects, for every attempt handed to it, the
/// default rendering of that attempt's outcome.
pub struct DefaultPrintHandler {
    pub rendered: Vec<String>,
    pub history: Ghost<Seq<AttemptEvent>>,
}

impl DefaultPrintHandler {
    /// A fresh handler with nothing rendered and nothing recorded.
    pub fn new() -> (r: DefaultPrintHandler)
        ensures
            r.rendered@ == Seq::<String>::empty(),
            r.events() == Seq::<AttemptEvent>::empty(),
    {
        DefaultPrintHandler { rendered: Vec::new(), history: Ghost(Seq::empty()) }
    }
}

impl Default for DefaultPrintHandler {
    fn default() -> (r: DefaultPrintHandler)
        ensures
            r.rendered@ == Seq::<String>::empty(),
            r.events() == Seq::<AttemptEvent>::empty(),
    {
        DefaultPrintHandler::new()
    }
}

impl PrintHandler for DefaultPrintHandler {
    open spec fn events(&self) -> Seq<AttemptEvent> {
        self.history@
    }

    fn handle(&mut self, server: &DnsHttpsServer, result: &Outcome)
        ensures
            final(self).rendered@.len() == old(self).rendered@.len() + 1,
            final(self).rendered@ == old(self).rendered@.push(
                final(self).rendered@.last(),
            ),
            final(self).rendered@.last()@ == render_default_spec(*server, *result),
    {
        let s = render_default(server, result);
        self.rendered.push(s);
        proof {
            self.history@ = self.history@.push((*server, *result));
        }
    }
}

/// The enriching rendering of one outcome: the default rendering, except
/// that each A-type answer is followed by the note of one region lookup on
/// its data string. Whatever the lookups answer, the result is the
/// enriched rendering for some sequence of lookup outcomes, one per
/// answer; on a failed attempt no lookup happens at all.
pub fn render_with_lookup<L: RegionLookup>(
    server: &DnsHttpsServer,
    result: &Outcome,
    lookup: &mut L,
) -> (out: String)
    ensures
        exists|regions: Seq<Result<Seq<char>, Seq<char>>>|
            #[trigger] regions_match(*result, regions) && out@ == render_enriched_spec(
                *server,
                *result,
                regions,
            ),
        *result is Err ==> out@ == render_default_spec(*server, *result),
{
    let mut out = String::new();
    push_head(&mut out, server);
    match result {
        Result::Err(e) => {
            out.append("Error: ");
            out.append(e.message.as_str());
            out.append("\n");
            proof {
                let regions = Seq::<Result<Seq<char>, Seq<char>>>::empty();
                assert(out@ =~= render_enriched_spec(*server, *result, regions));
                assert(out@ =~= render_default_spec(*server, *result));
                assert(regions_match(*result, regions) && out@ == render_enriched_spec(
                    *server,
                    *result,
                    regions,
                ));
            }
        },
        Result::Ok(r) => {
            push_status(&mut out, r.status);
            push_error_section(&mut out, &r.error);
            push_questions(&mut out, &r.question);
            push_authorities(&mut out, &r.authority);
            let ghost mut regions: Seq<Result<Seq<char>, Seq<char>>> = Seq::empty();
            match &r.answer {
                Option::None => {},
                Option::Some(v) => {
                    out.append("Answer:\n");
                    let ghost base = out@;
                    let mut i: usize = 0;
                    while i < v.len()
                        invariant
                            i <= v.len(),
                            regions.len() == i as int,
                            out@ == base + enriched_blocks(v@.take(i as int), regions),
                        decreases v.len() - i,
                    {
                        push_answer_block(&mut out, &v[i]);
                        let ghost regions_before = regions;
                        let qtype = match QueryType::from_u16(v[i].rtype) {
                            Option::Some(q) => q,
                            Option::None => QueryType::Unknown(0),
                        };
                        if qtype == QueryType::A {
                            let region = lookup.lookup(v[i].data.as_str());
                            push_enrich_note(&mut out, &region);
                            proof {
                                regions = regions.push(region_view(region));
                            }
                        } else {
                            proof {
                                regions = regions.push(
                                    Result::<Seq<char>, Seq<char>>::Err(Seq::empty()),
                                );
                            }
                        }
                        proof {
                            crate::render::lemma_enriched_blocks_push(
                                v@.take(i as int),
                                regions_before,
                                v@[i as int],
                                regions.last(),
                            );
                            assert(v@.take(i as int + 1) =~= v@.take(i as int).push(
                                v@[i as int],
                            ));
                            assert(regions =~= regions_before.push(regions.last()));
                            assert(out@ =~= base + enriched_blocks(
                                v@.take(i as int + 1),
                                regions,
                            ));
                        }
                        i = i + 1;
                    }
                    proof {
                        assert(v@.take(v@.len() as int) =~= v@);
                    }
                },
            }
            push_comment(&mut out, &r.comment);
            proof {
                assert(out@ =~= render_enriched_spec(*server, *result, regions));
                assert(regions_match(*result, regions) && out@ == render_enriched_spec(
                    *server,
                    *result,
                    regions,
                ));
            }
        },
    }
    out
}

/// The enriching strategy: collects, for every attempt handed to it, an
/// enriched rendering of that attempt's outcome, asking its lookup for a
/// region note after each A-type answer.
pub struct Ip2RegionPrintHandler<L: RegionLookup> {
    pub lookup: L,
    pub rendered: Vec<String>,
    pub history: Ghost<Seq<AttemptEvent>>,
}

impl<L: RegionLookup> Ip2RegionPrintHandler<L> {
    /// A fresh handler around the given lookup.
    pub fn new(lookup: L) -> (r: Ip2RegionPrintHandler<L>)
        ensures
            r.lookup == lookup,
            r.rendered@ == Seq::<String>::empty(),
            r.events() == Seq::<AttemptEvent>::empty(),
    {
        Ip2RegionPrintHandler { lookup, rendered: Vec::new(), history: Ghost(Seq::empty()) }
    }
}

impl<L: RegionLookup> PrintHandler for Ip2RegionPrintHandler<L> {
    open spec fn events(&self) -> Seq<AttemptEvent> {
        self.history@
    }

    fn handle(&mut self, server: &DnsHttpsServer, result: &Outcome)
        ensures
            final(self).rendered@.len() == old(self).rendered@.len() + 1,
            final(self).rendered@ == old(self).rendered@.push(
                final(self).rendered@.last(),
            ),
            exists|regions: Seq<Result<Seq<char>, Seq<char>>>|
                #[trigger] regions_match(*result, regions) && final(self).rendered@.last()@
                    == render_enriched_spec(*server, *result, regions),
            *result is Err ==> final(self).rendered@.last()@ == render_default_spec(
                *server,
                *result,
            ),
    {
        let s = render_with_lookup(server, result, &mut self.lookup);
        self.rendered.push(s);
        proof {
            self.history@ = self.history@.push((*server, *result));
        }
    }
}

} // verus!
