use doh_resolver::handlers::{Ip2RegionPrintHandler, RegionLookup};
use doh_resolver::render::render_default;
use doh_resolver::resolver::PrintHandler;
use doh_resolver::response::{DnsAnswer, DnsAuthority, DnsError, DnsQuestion, DnsResponse};
use doh_resolver::server::DnsHttpsServer;

fn empty_response() -> DnsResponse {
    DnsResponse {
        error: None,
        status: None,
        tc: None,
        rd: None,
        ra: None,
        ad: None,
        cd: None,
        question: None,
        answer: None,
        authority: None,
        comment: None,
    }
}

fn one_a_answer(data: &str) -> DnsResponse {
    let mut response = empty_response();
    response.answer = Some(vec![DnsAnswer {
        name: String::from("example.com"),
        rtype: 1,
        ttl: 300,
        expires: None,
        data: String::from(data),
    }]);
    response
}

struct StubLookup {
    response: Result<String, String>,
    calls: usize,
}

impl RegionLookup for StubLookup {
    fn lookup(&mut self, _ip: &str) -> Result<String, String> {
        self.calls += 1;
        self.response.clone()
    }
}

#[test]
fn test_render_default_error_exact() {
    let result = Err(DnsError {
        code: 404,
        message: String::from("no route"),
    });
    let out = render_default(&DnsHttpsServer::Google, &result);
    assert_eq!(
        out,
        "---------------------------------\nDns Server: Google\nError: no route\n"
    );
}

#[test]
fn test_render_default_all_sections_exact() {
    let response = DnsResponse {
        error: Some(String::from("upstream broke")),
        status: Some(2),
        tc: Some(false),
        rd: None,
        ra: None,
        ad: None,
        cd: None,
        question: Some(vec![DnsQuestion {
            name: String::from("example.com"),
            rtype: 28,
        }]),
        answer: Some(vec![DnsAnswer {
            name: String::from("example.com"),
            rtype: 999,
            ttl: 0,
            expires: None,
            data: String::from("opaque"),
        }]),
        authority: Some(vec![DnsAuthority {
            name: String::from("example.com"),
            rtype: 6,
            ttl: 86400,
            data: String::from("ns.example.com"),
        }]),
        comment: Some(String::from("a note")),
    };
    let out = render_default(&DnsHttpsServer::Quad9, &Ok(response));
    let expected = "---------------------------------\nDns Server: Quad9\nStatus: 2\nError: upstream broke\nQuestion:\n  ------------\n  Name: example.com\n  Type: AAAA\nAuthority:\n  ------------\n  Name: example.com\n  Type: SOA\n  TTL: 86400\n  Data: ns.example.com\nAnswer:\n  ------------\n  Name: example.com\n  Type: Unknown(999)\n  TTL: 0\n  Data: opaque\nComment: a note\n";
    assert_eq!(out, expected);
}

#[test]
fn test_enriching_renders_region_after_a_answer() {
    let lookup = StubLookup {
        response: Ok(String::from("US|California")),
        calls: 0,
    };
    let mut handler = Ip2RegionPrintHandler::new(lookup);
    let result = Ok(one_a_answer("93.184.216.34"));
    handler.handle(&DnsHttpsServer::Cloudflare, &result);

    assert_eq!(handler.lookup.calls, 1);
    assert_eq!(handler.rendered.len(), 1);
    let out = &handler.rendered[0];
    assert!(out.contains("  Data: 93.184.216.34\n  IPRG: US|California\n"));
}

#[test]
fn test_enriching_swallows_lookup_failure() {
    let lookup = StubLookup {
        response: Err(String::from("database missing")),
        calls: 0,
    };
    let mut handler = Ip2RegionPrintHandler::new(lookup);
    let result = Ok(one_a_answer("93.184.216.34"));
    handler.handle(&DnsHttpsServer::Cloudflare, &result);

    assert_eq!(handler.lookup.calls, 1);
    let out = &handler.rendered[0];
    // The base rendering is exactly the default one: no note, no error.
    assert_eq!(*out, render_default(&DnsHttpsServer::Cloudflare, &result));
    assert!(!out.contains("IPRG"));
    assert!(!out.contains("database missing"));
}

#[test]
fn test_enriching_skips_non_a_answers() {
    let lookup = StubLookup {
        response: Ok(String::from("US|California")),
        calls: 0,
    };
    let mut handler = Ip2RegionPrintHandler::new(lookup);
    let mut response = empty_response();
    response.answer = Some(vec![DnsAnswer {
        name: String::from("example.com"),
        rtype: 16,
        ttl: 60,
        expires: None,
        data: String::from("some text"),
    }]);
    let result = Ok(response);
    handler.handle(&DnsHttpsServer::Google, &result);

    assert_eq!(handler.lookup.calls, 0);
    assert!(!handler.rendered[0].contains("IPRG"));
}

#[test]
fn test_render_max_ttl_exact() {
    let mut response = empty_response();
    response.answer = Some(vec![DnsAnswer {
        name: String::from("example.com"),
        rtype: 1,
        ttl: 4294967295,
        expires: None,
        data: String::from("93.184.216.34"),
    }]);
    let out = render_default(&DnsHttpsServer::Google, &Ok(response));
    assert!(out.contains("  TTL: 4294967295\n"));
}

#[test]
fn test_enriching_mixed_answer_types() {
    let lookup = StubLookup {
        response: Ok(String::from("US|California")),
        calls: 0,
    };
    let mut handler = Ip2RegionPrintHandler::new(lookup);
    let mut response = empty_response();
    response.answer = Some(vec![
        DnsAnswer {
            name: String::from("example.com"),
            rtype: 1,
            ttl: 300,
            expires: None,
            data: String::from("93.184.216.34"),
        },
        DnsAnswer {
            name: String::from("example.com"),
            rtype: 16,
            ttl: 60,
            expires: None,
            data: String::from("spf record"),
        },
    ]);
    let result = Ok(response);
    handler.handle(&DnsHttpsServer::Google, &result);

    // Only the A-type answer is looked up, and only it carries a note.
    assert_eq!(handler.lookup.calls, 1);
    let out = &handler.rendered[0];
    assert!(out.contains("  Data: 93.184.216.34\n  IPRG: US|California\n"));
    assert!(!out.contains("  Data: spf record\n  IPRG:"));
}

#[test]
fn test_enriching_reports_errors_like_the_default() {
    let lookup = StubLookup {
        response: Ok(String::from("US|California")),
        calls: 0,
    };
    let mut handler = Ip2RegionPrintHandler::new(lookup);
    let result = Err(DnsError {
        code: 500,
        message: String::from("boom"),
    });
    handler.handle(&DnsHttpsServer::Google, &result);

    assert_eq!(handler.lookup.calls, 0);
    assert_eq!(
        handler.rendered[0],
        "---------------------------------\nDns Server: Google\nError: boom\n"
    );
}
