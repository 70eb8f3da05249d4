//! Renderings of one per-attempt outcome.
//!
//! The default rendering shows the server name, then on failure the error
//! message alone, and on success each present section of the response in
//! order: status, embedded error, questions, authorities, answers, comment.
//! A section whose field is absent is skipped entirely. The enriching
//! rendering is identical except that each A-type answer may be followed by
//! a region note obtained from a lookup; a failed lookup leaves no trace.

use vstd::prelude::*;
use vstd::string::StringExecFns;
use crate::numeral::{dec_str, push_dec_u32};
use crate::query_type::{push_qtype_label, qtype_label, qtype_of_code, QueryType};
use crate::response::{DnsAnswer, DnsAuthority, DnsError, DnsQuestion, DnsResponse};
use crate::server::{server_name, DnsHttpsServer};

verus! {

/// The concatenation of `f` applied to each element of `s`, in order.
pub open spec fn concat_blocks<T>(s: Seq<T>, f: spec_fn(T) -> Seq<char>) -> Seq<char>
    decreases s.len(),
{
    if s.len() == 0 {
        Seq::empty()
    } else {
        f(s[0]) + concat_blocks(s.drop_first(), f)
    }
}

pub proof fn lemma_concat_blocks_push<T>(s: Seq<T>, f: spec_fn(T) -> Seq<char>, x: T)
    ensures
        concat_blocks(s.push(x), f) == concat_blocks(s, f) + f(x),
    decreases s.len(),
{
    if s.len() == 0 {
        assert(s.push(x)[0] == x);
        assert(s.push(x).drop_first() =~= Seq::<T>::empty());
        assert(concat_blocks(Seq::<T>::empty(), f) == Seq::<char>::empty());
        assert(concat_blocks(s, f) == Seq::<char>::empty());
        assert(concat_blocks(s.push(x), f) =~= concat_blocks(s, f) + f(x));
    } else {
        assert(s.push(x)[0] == s[0]);
        assert(s.push(x).drop_first() =~= s.drop_first().push(x));
        lemma_concat_blocks_push(s.drop_first(), f, x);
        assert(concat_blocks(s.push(x), f) =~= concat_blocks(s, f) + f(x));
    }
}

pub open spec fn render_head(server: DnsHttpsServer) -> Seq<char> {
    "---------------------------------\n"@ + "Dns Server: "@ + server_name(server) + "\n"@
}

pub open spec fn status_section(status: Option<u16>) -> Seq<char> {
    match status {
        Option::None => Seq::empty(),
        Option::Some(v) => "Status: "@ + dec_str(v as nat) + "\n"@,
    }
}

pub open spec fn error_section(error: Option<String>) -> Seq<char> {
    match error {
        Option::None => Seq::empty(),
        Option::Some(msg) => "Error: "@ + msg@ + "\n"@,
    }
}

pub open spec fn question_block(q: DnsQuestion) -> Seq<char> {
    "  ------------\n"@ + "  Name: "@ + q.name@ + "\n"@ + "  Type: "@ + qtype_label(
        qtype_of_code(q.rtype),
    ) + "\n"@
}

pub open spec fn question_block_fn() -> spec_fn(DnsQuestion) -> Seq<char> {
    |q: DnsQuestion| question_block(q)
}

pub open spec fn question_section(question: Option<Vec<DnsQuestion>>) -> Seq<char> {
    match question {
        Option::None => Seq::empty(),
        Option::Some(v) => "Question:\n"@ + concat_blocks(v@, question_block_fn()),
    }
}

pub open spec fn authority_block(a: DnsAuthority) -> Seq<char> {
    "  ------------\n"@ + "  Name: "@ + a.name@ + "\n"@ + "  Type: "@ + qtype_label(
        qtype_of_code(a.rtype),
    ) + "\n"@ + "  TTL: "@ + dec_str(a.ttl as nat) + "\n"@ + "  Data: "@ + a.data@ + "\n"@
}

pub open spec fn authority_block_fn() -> spec_fn(DnsAuthority) -> Seq<char> {
    |a: DnsAuthority| authority_block(a)
}

pub open spec fn authority_section(authority: Option<Vec<DnsAuthority>>) -> Seq<char> {
    match authority {
        Option::None => Seq::empty(),
        Option::Some(v) => "Authority:\n"@ + concat_blocks(v@, authority_block_fn()),
    }
}

pub open spec fn answer_block(a: DnsAnswer) -> Seq<char> {
    "  ------------\n"@ + "  Name: "@ + a.name@ + "\n"@ + "  Type: "@ + qtype_label(
        qtype_of_code(a.rtype),
    ) + "\n"@ + "  TTL: "@ + dec_str(a.ttl as nat) + "\n"@ + "  Data: "@ + a.data@ + "\n"@
}

pub open spec fn answer_block_fn() -> spec_fn(DnsAnswer) -> Seq<char> {
    |a: DnsAnswer| answer_block(a)
}

pub open spec fn answers_section(answer: Option<Vec<DnsAnswer>>) -> Seq<char> {
    match answer {
        Option::None => Seq::empty(),
        Option::Some(v) => "Answer:\n"@ + concat_blocks(v@, answer_block_fn()),
    }
}

pub open spec fn comment_section(comment: Option<String>) -> Seq<char> {
    match comment {
        Option::None => Seq::empty(),
        Option::Some(c) => "Comment: "@ + c@ + "\n"@,
    }
}

/// The sections of a successful response that precede the answer list.
pub open spec fn pre_sections(r: DnsResponse) -> Seq<char> {
    status_section(r.status) + error_section(r.error) + question_section(r.question)
        + authority_section(r.authority)
}

/// The default rendering of one outcome, exactly as the default strategy
/// emits it.
pub open spec fn render_default_spec(
    server: DnsHttpsServer,
    result: Result<DnsResponse, DnsError>,
) -> Seq<char> {
    render_head(server) + match result {
        Result::Err(e) => "Error: "@ + e.message@ + "\n"@,
        Result::Ok(r) => pre_sections(r) + answers_section(r.answer) + comment_section(r.comment),
    }
}

/// The region note one lookup outcome contributes: its result string on
/// success, nothing at all on failure.
pub open spec fn enrich_note(region: Result<Seq<char>, Seq<char>>) -> Seq<char> {
    match region {
        Result::Ok(s) => "  IPRG: "@ + s + "\n"@,
        Result::Err(_) => Seq::empty(),
    }
}

/// The note that follows one answer block: only A-type answers are looked
/// up, so only they can carry one.
pub open spec fn enrich_note_for(a: DnsAnswer, region: Result<Seq<char>, Seq<char>>) -> Seq<
    char,
> {
    if qtype_of_code(a.rtype) is A {
        enrich_note(region)
    } else {
        Seq::empty()
    }
}

/// Answer blocks interleaved with their region notes, one region outcome
/// per answer.
pub open spec fn enriched_blocks(
    s: Seq<DnsAnswer>,
    regions: Seq<Result<Seq<char>, Seq<char>>>,
) -> Seq<char>
    decreases s.len(),
{
    if s.len() == 0 {
        Seq::empty()
    } else {
        answer_block(s[0]) + enrich_note_for(s[0], regions[0]) + enriched_blocks(
            s.drop_first(),
            regions.drop_first(),
        )
    }
}

pub open spec fn answers_section_enriched(
    answer: Option<Vec<DnsAnswer>>,
    regions: Seq<Result<Seq<char>, Seq<char>>>,
) -> Seq<char> {
    match answer {
        Option::None => Seq::empty(),
        Option::Some(v) => "Answer:\n"@ + enriched_blocks(v@, regions),
    }
}

/// The enriching rendering of one outcome, given the region lookup
/// outcomes, one per answer.
pub open spec fn render_enriched_spec(
    server: DnsHttpsServer,
    result: Result<DnsResponse, DnsError>,
    regions: Seq<Result<Seq<char>, Seq<char>>>,
) -> Seq<char> {
    render_head(server) + match result {
        Result::Err(e) => "Error: "@ + e.message@ + "\n"@,
        Result::Ok(r) => pre_sections(r) + answers_section_enriched(r.answer, regions)
            + comment_section(r.comment),
    }
}

/// One region outcome per answer of the response; no answers, no outcomes.
pub open spec fn regions_match(
    result: Result<DnsResponse, DnsError>,
    regions: Seq<Result<Seq<char>, Seq<char>>>,
) -> bool {
    match result {
        Result::Err(_) => regions.len() == 0,
        Result::Ok(r) => match r.answer {
            Option::None => regions.len() == 0,
            Option::Some(v) => regions.len() == v@.len(),
        },
    }
}

pub proof fn lemma_enriched_blocks_push(
    s: Seq<DnsAnswer>,
    regions: Seq<Result<Seq<char>, Seq<char>>>,
    x: DnsAnswer,
    region: Result<Seq<char>, Seq<char>>,
)
    requires
        s.len() == regions.len(),
    ensures
        enriched_blocks(s.push(x), regions.push(region)) == enriched_blocks(s, regions)
            + answer_block(x) + enrich_note_for(x, region),
    decreases s.len(),
{
    if s.len() == 0 {
        assert(s.push(x)[0] == x);
        assert(regions.push(region)[0] == region);
        assert(s.push(x).drop_first() =~= Seq::<DnsAnswer>::empty());
        assert(regions.push(region).drop_first() =~= Seq::<Result<Seq<char>, Seq<char>>>::empty());
        assert(enriched_blocks(
            Seq::<DnsAnswer>::empty(),
            Seq::<Result<Seq<char>, Seq<char>>>::empty(),
        ) == Seq::<char>::empty());
        assert(enriched_blocks(s, regions) == Seq::<char>::empty());
        assert(enriched_blocks(s.push(x), regions.push(region)) =~= enriched_blocks(s, regions)
            + answer_block(x) + enrich_note_for(x, region));
    } else {
        assert(s.push(x)[0] == s[0]);
        assert(regions.push(region)[0] == regions[0]);
        assert(s.push(x).drop_first() =~= s.drop_first().push(x));
        assert(regions.push(region).drop_first() =~= regions.drop_first().push(region));
        lemma_enriched_blocks_push(s.drop_first(), regions.drop_first(), x, region);
        assert(enriched_blocks(s.push(x), regions.push(region)) =~= enriched_blocks(s, regions)
            + answer_block(x) + enrich_note_for(x, region));
    }
}

/// Law: when every region lookup fails, the enriched answer blocks are
/// exactly the plain ones — a failed lookup leaves no trace.
pub proof fn lemma_enriched_blocks_all_failures(
    s: Seq<DnsAnswer>,
    regions: Seq<Result<Seq<char>, Seq<char>>>,
)
    requires
        s.len() == regions.len(),
        forall|i: int| 0 <= i < regions.len() ==> (#[trigger] regions[i]) is Err,
    ensures
        enriched_blocks(s, regions) == concat_blocks(s, answer_block_fn()),
    decreases s.len(),
{
    if s.len() == 0 {
    } else {
        lemma_enriched_blocks_all_failures(s.drop_first(), regions.drop_first());
        assert(regions[0] is Err);
        assert(enriched_blocks(s, regions) =~= concat_blocks(s, answer_block_fn()));
    }
}

/// Law: when every region lookup fails, the enriching rendering is exactly
/// the default one — the base rendering is neither altered nor suppressed.
pub proof fn lemma_render_enriched_all_failures(
    server: DnsHttpsServer,
    result: Result<DnsResponse, DnsError>,
    regions: Seq<Result<Seq<char>, Seq<char>>>,
)
    requires
        regions_match(result, regions),
        forall|i: int| 0 <= i < regions.len() ==> (#[trigger] regions[i]) is Err,
    ensures
        render_enriched_spec(server, result, regions) == render_default_spec(server, result),
{
    match result {
        Result::Err(_) => {},
        Result::Ok(r) => {
            match r.answer {
                Option::None => {},
                Option::Some(v) => {
                    lemma_enriched_blocks_all_failures(v@, regions);
                },
            }
        },
    }
}

/// Law: for a response whose answer list is a single A-type entry and whose
/// comment is absent, a successful lookup appends exactly one region note
/// to the default rendering.
pub proof fn lemma_render_enriched_single_a(
    server: DnsHttpsServer,
    r: DnsResponse,
    region: Seq<char>,
)
    requires
        r.answer matches Option::Some(v) && v@.len() == 1 && qtype_of_code(v@[0].rtype) is A,
        r.comment is None,
    ensures
        render_enriched_spec(
            server,
            Result::Ok(r),
            seq![Result::<Seq<char>, Seq<char>>::Ok(region)],
        ) == render_default_spec(server, Result::Ok(r)) + "  IPRG: "@ + region + "\n"@,
{
    let v = r.answer->Some_0;
    let regions = seq![Result::<Seq<char>, Seq<char>>::Ok(region)];
    assert(v@.drop_first() =~= Seq::<DnsAnswer>::empty());
    assert(regions.drop_first() =~= Seq::<Result<Seq<char>, Seq<char>>>::empty());
    assert(enriched_blocks(
        Seq::<DnsAnswer>::empty(),
        Seq::<Result<Seq<char>, Seq<char>>>::empty(),
    ) == Seq::<char>::empty());
    assert(concat_blocks(Seq::<DnsAnswer>::empty(), answer_block_fn())
        == Seq::<char>::empty());
    assert(regions[0] == Result::<Seq<char>, Seq<char>>::Ok(region));
    assert(enriched_blocks(v@, regions) =~= answer_block(v@[0]) + enrich_note_for(
        v@[0],
        regions[0],
    ));
    assert(concat_blocks(v@, answer_block_fn()) =~= answer_block(v@[0]));
    assert(render_enriched_spec(server, Result::Ok(r), regions) =~= render_default_spec(
        server,
        Result::Ok(r),
    ) + "  IPRG: "@ + region + "\n"@);
}

/// Appends the head of every rendering: the rule line and the server name.
pub fn push_head(out: &mut String, server: &DnsHttpsServer)
    ensures
        final(out)@ == old(out)@ + render_head(*server),
{
    out.append("---------------------------------\n");
    out.append("Dns Server: ");
    let name = server.name();
    out.append(name.as_str());
    out.append("\n");
    proof {
        assert(out@ =~= old(out)@ + render_head(*server));
    }
}

pub(crate) fn push_status(out: &mut String, status: Option<u16>)
    ensures
        final(out)@ == old(out)@ + status_section(status),
{
    match status {
        Option::None => {
            proof {
                assert(out@ =~= old(out)@ + status_section(status));
            }
        },
        Option::Some(v) => {
            out.append("Status: ");
            push_dec_u32(out, v as u32);
            out.append("\n");
            proof {
                assert(out@ =~= old(out)@ + status_section(status));
            }
        },
    }
}

pub(crate) fn push_error_section(out: &mut String, error: &Option<String>)
    ensures
        final(out)@ == old(out)@ + error_section(*error),
{
    match error {
        Option::None => {
            proof {
                assert(out@ =~= old(out)@ + error_section(*error));
            }
        },
        Option::Some(msg) => {
            out.append("Error: ");
            out.append(msg.as_str());
            out.append("\n");
            proof {
                assert(out@ =~= old(out)@ + error_section(*error));
            }
        },
    }
}

fn push_question_block(out: &mut String, q: &DnsQuestion)
    ensures
        final(out)@ == old(out)@ + question_block(*q),
{
    out.append("  ------------\n");
    out.append("  Name: ");
    out.append(q.name.as_str());
    out.append("\n");
    out.append("  Type: ");
    push_qtype_label(out, q.rtype);
    out.append("\n");
    proof {
        assert(out@ =~= old(out)@ + question_block(*q));
    }
}

pub(crate) fn push_questions(out: &mut String, question: &Option<Vec<DnsQuestion>>)
    ensures
        final(out)@ == old(out)@ + question_section(*question),
{
    match question {
        Option::None => {
            proof {
                assert(out@ =~= old(out)@ + question_section(*question));
            }
        },
        Option::Some(v) => {
            out.append("Question:\n");
            let ghost base = out@;
            let mut i: usize = 0;
            while i < v.len()
                invariant
                    i <= v.len(),
                    out@ == base + concat_blocks(v@.take(i as int), question_block_fn()),
                decreases v.len() - i,
            {
                push_question_block(out, &v[i]);
                proof {
                    lemma_concat_blocks_push(
                        v@.take(i as int),
                        question_block_fn(),
                        v@[i as int],
                    );
                    assert(v@.take(i as int + 1) =~= v@.take(i as int).push(v@[i as int]));
                }
                i = i + 1;
            }
            proof {
                assert(v@.take(v@.len() as int) =~= v@);
                assert(out@ =~= old(out)@ + question_section(*question));
            }
        },
    }
}

fn push_authority_block(out: &mut String, a: &DnsAuthority)
    ensures
        final(out)@ == old(out)@ + authority_block(*a),
{
    out.append("  ------------\n");
    out.append("  Name: ");
    out.append(a.name.as_str());
    out.append("\n");
    out.append("  Type: ");
    push_qtype_label(out, a.rtype);
    out.append("\n");
    out.append("  TTL: ");
    push_dec_u32(out, a.ttl);
    out.append("\n");
    out.append("  Data: ");
    out.append(a.data.as_str());
    out.append("\n");
    proof {
        assert(out@ =~= old(out)@ + authority_block(*a));
    }
}

pub(crate) fn push_authorities(out: &mut String, authority: &Option<Vec<DnsAuthority>>)
    ensures
        final(out)@ == old(out)@ + authority_section(*authority),
{
    match authority {
        Option::None => {
            proof {
                assert(out@ =~= old(out)@ + authority_section(*authority));
            }
        },
        Option::Some(v) => {
            out.append("Authority:\n");
            let ghost base = out@;
            let mut i: usize = 0;
            while i < v.len()
                invariant
                    i <= v.len(),
                    out@ == base + concat_blocks(v@.take(i as int), authority_block_fn()),
                decreases v.len() - i,
            {
                push_authority_block(out, &v[i]);
                proof {
                    lemma_concat_blocks_push(
                        v@.take(i as int),
                        authority_block_fn(),
                        v@[i as int],
                    );
                    assert(v@.take(i as int + 1) =~= v@.take(i as int).push(v@[i as int]));
                }
                i = i + 1;
            }
            proof {
                assert(v@.take(v@.len() as int) =~= v@);
                assert(out@ =~= old(out)@ + authority_section(*authority));
            }
        },
    }
}

/// Appends one answer entry: name, type symbol, ttl, data.
pub fn push_answer_block(out: &mut String, a: &DnsAnswer)
    ensures
        final(out)@ == old(out)@ + answer_block(*a),
{
    out.append("  ------------\n");
    out.append("  Name: ");
    out.append(a.name.as_str());
    out.append("\n");
    out.append("  Type: ");
    push_qtype_label(out, a.rtype);
    out.append("\n");
    out.append("  TTL: ");
    push_dec_u32(out, a.ttl);
    out.append("\n");
    out.append("  Data: ");
    out.append(a.data.as_str());
    out.append("\n");
    proof {
        assert(out@ =~= old(out)@ + answer_block(*a));
    }
}

fn push_answers(out: &mut String, answer: &Option<Vec<DnsAnswer>>)
    ensures
        final(out)@ == old(out)@ + answers_section(*answer),
{
    match answer {
        Option::None => {
            proof {
                assert(out@ =~= old(out)@ + answers_section(*answer));
            }
        },
        Option::Some(v) => {
            out.append("Answer:\n");
            let ghost base = out@;
            let mut i: usize = 0;
            while i < v.len()
                invariant
                    i <= v.len(),
                    out@ == base + concat_blocks(v@.take(i as int), answer_block_fn()),
                decreases v.len() - i,
            {
                push_answer_block(out, &v[i]);
                proof {
                    lemma_concat_blocks_push(v@.take(i as int), answer_block_fn(), v@[i as int]);
                    assert(v@.take(i as int + 1) =~= v@.take(i as int).push(v@[i as int]));
                }
                i = i + 1;
            }
            proof {
                assert(v@.take(v@.len() as int) =~= v@);
                assert(out@ =~= old(out)@ + answers_section(*answer));
            }
        },
    }
}

pub(crate) fn push_comment(out: &mut String, comment: &Option<String>)
    ensures
        final(out)@ == old(out)@ + comment_section(*comment),
{
    match comment {
        Option::None => {
            proof {
                assert(out@ =~= old(out)@ + comment_section(*comment));
            }
        },
        Option::Some(c) => {
            out.append("Comment: ");
            out.append(c.as_str());
            out.append("\n");
            proof {
                assert(out@ =~= old(out)@ + comment_section(*comment));
            }
        },
    }
}

/// The mathematical view of one lookup outcome.
pub open spec fn region_view(r: Result<String, String>) -> Result<Seq<char>, Seq<char>> {
    match r {
        Result::Ok(s) => Result::Ok(s@),
        Result::Err(e) => Result::Err(e@),
    }
}

/// Appends the region note of one lookup outcome: the result string on
/// success, nothing on failure.
pub fn push_enrich_note(out: &mut String, region: &Result<String, String>)
    ensures
        final(out)@ == old(out)@ + enrich_note(region_view(*region)),
{
    match region {
        Result::Ok(s) => {
            out.append("  IPRG: ");
            out.append(s.as_str());
            out.append("\n");
            proof {
                assert(out@ =~= old(out)@ + "  IPRG: "@ + s@ + "\n"@);
            }
        },
        Result::Err(_) => {},
    }
}

/// The default rendering of one outcome, exactly `render_default_spec`.
pub fn render_default(server: &DnsHttpsServer, result: &Result<DnsResponse, DnsError>) -> (out:
    String)
    ensures
        out@ == render_default_spec(*server, *result),
{
    let mut out = String::new();
    push_head(&mut out, server);
    match result {
        Result::Err(e) => {
            out.append("Error: ");
            out.append(e.message.as_str());
            out.append("\n");
        },
        Result::Ok(r) => {
            push_status(&mut out, r.status);
            push_error_section(&mut out, &r.error);
            push_questions(&mut out, &r.question);
            push_authorities(&mut out, &r.authority);
            push_answers(&mut out, &r.answer);
            push_comment(&mut out, &r.comment);
        },
    }
    proof {
        assert(out@ =~= render_default_spec(*server, *result));
    }
    out
}

} // verus!
