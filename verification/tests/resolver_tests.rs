use doh_resolver::handlers::DefaultPrintHandler;
use doh_resolver::resolver::{Dns, ScriptedClient};
use doh_resolver::response::{DnsAnswer, DnsError, DnsResponse};
use doh_resolver::server::DnsHttpsServer;

fn empty_response() -> DnsResponse {
    DnsResponse {
        error: None,
        status: None,
        tc: None,
        rd: None,
        ra: None,
        ad: None,
        cd: None,
        question: None,
        answer: None,
        authority: None,
        comment: None,
    }
}

fn fail(code: u16, message: &str) -> Result<DnsResponse, DnsError> {
    Err(DnsError {
        code,
        message: String::from(message),
    })
}

#[test]
fn test_always_failing_transport_makes_n_times_r_attempts() {
    // Empty script: every query is answered with the generic failure.
    let client = ScriptedClient::new(Vec::new());
    let mut dns = Dns::from_client(client, 2);
    dns.add_server(DnsHttpsServer::Google);
    dns.add_server(DnsHttpsServer::Cloudflare);
    dns.add_server(DnsHttpsServer::Quad9);
    let mut handler = DefaultPrintHandler::new();
    dns.resolve(String::from("example.com"), String::from("A"), &mut handler);

    assert_eq!(handler.rendered.len(), 6);
    assert_eq!(dns.client.seen.len(), 6);
    let order = ["Google", "Google", "Cloudflare", "Cloudflare", "Quad9", "Quad9"];
    for (i, name) in order.iter().enumerate() {
        assert!(handler.rendered[i].contains(&format!("Dns Server: {}", name)));
        assert!(handler.rendered[i].contains("Error:"));
    }
}

#[test]
fn test_success_on_second_attempt_stops_that_server() {
    let script = vec![fail(500, "transient"), Ok(empty_response())];
    let client = ScriptedClient::new(script);
    let mut dns = Dns::from_client(client, 3);
    dns.add_server(DnsHttpsServer::Google);
    let mut handler = DefaultPrintHandler::new();
    dns.resolve(String::from("example.com"), String::from("A"), &mut handler);

    assert_eq!(handler.rendered.len(), 2);
    assert!(handler.rendered[0].contains("Error: transient"));
    assert!(!handler.rendered[1].contains("Error"));
}

#[test]
fn test_success_leaves_later_servers_their_full_budget() {
    // Google succeeds at once; Cloudflare then fails its full two attempts.
    let script = vec![Ok(empty_response())];
    let client = ScriptedClient::new(script);
    let mut dns = Dns::from_client(client, 2);
    dns.add_server(DnsHttpsServer::Google);
    dns.add_server(DnsHttpsServer::Cloudflare);
    let mut handler = DefaultPrintHandler::new();
    dns.resolve(String::from("example.com"), String::from("A"), &mut handler);

    assert_eq!(handler.rendered.len(), 3);
    assert!(handler.rendered[0].contains("Dns Server: Google"));
    assert!(!handler.rendered[0].contains("Error"));
    assert!(handler.rendered[1].contains("Dns Server: Cloudflare"));
    assert!(handler.rendered[1].contains("Error"));
    assert!(handler.rendered[2].contains("Dns Server: Cloudflare"));
    assert!(handler.rendered[2].contains("Error"));
}

#[test]
fn test_empty_server_list_makes_no_calls() {
    let script = vec![Ok(empty_response())];
    let client = ScriptedClient::new(script);
    let mut dns = Dns::from_client(client, 3);
    let mut handler = DefaultPrintHandler::new();
    dns.resolve(String::from("example.com"), String::from("A"), &mut handler);

    assert_eq!(handler.rendered.len(), 0);
    assert_eq!(dns.client.seen.len(), 0);
    // The script was never consumed: no transport call happened.
    assert_eq!(dns.client.script.len(), 1);
}

#[test]
fn test_zero_retry_budget_makes_no_calls() {
    let client = ScriptedClient::new(vec![Ok(empty_response())]);
    let mut dns = Dns::from_client(client, 0);
    dns.add_server(DnsHttpsServer::Google);
    let mut handler = DefaultPrintHandler::new();
    dns.resolve(String::from("example.com"), String::from("A"), &mut handler);

    assert_eq!(handler.rendered.len(), 0);
    assert_eq!(dns.client.seen.len(), 0);
}

#[test]
fn test_dns() {
    // Google then Cloudflare, one retry each, with a transport double in
    // place of the network: both servers are queried once and succeed.
    let client = ScriptedClient::new(vec![Ok(empty_response()), Ok(empty_response())]);
    let mut dns = Dns::from_client(client, 1);
    dns.add_server(DnsHttpsServer::Google);
    dns.add_server(DnsHttpsServer::Cloudflare);
    let mut handler = DefaultPrintHandler::new();
    dns.resolve(String::from("example.com"), String::from("A"), &mut handler);
    assert_eq!(handler.rendered.len(), 2);
    assert!(handler.rendered[0].contains("Dns Server: Google"));
    assert!(handler.rendered[1].contains("Dns Server: Cloudflare"));
}

#[test]
fn test_request_uri_shape() {
    let client = ScriptedClient::new(Vec::new());
    let mut dns = Dns::from_client(client, 1);
    dns.add_server(DnsHttpsServer::Google);
    let mut handler = DefaultPrintHandler::new();
    dns.resolve(String::from("example.com"), String::from("AAAA"), &mut handler);

    assert_eq!(dns.client.seen.len(), 1);
    assert_eq!(
        dns.client.seen[0],
        "https://dns.google/resolve?name=example.com&type=AAAA"
    );
}

#[test]
fn test_single_answer_scenario() {
    // Cloudflare, retry budget 1, one A answer: the default rendering
    // carries the server name, the type symbol, the ttl and the data, and
    // no error text.
    let mut response = empty_response();
    response.answer = Some(vec![DnsAnswer {
        name: String::from("example.com"),
        rtype: 1,
        ttl: 300,
        expires: None,
        data: String::from("93.184.216.34"),
    }]);
    let client = ScriptedClient::new(vec![Ok(response)]);
    let mut dns = Dns::from_client(client, 1);
    dns.add_server(DnsHttpsServer::Cloudflare);
    let mut handler = DefaultPrintHandler::new();
    dns.resolve(String::from("example.com"), String::from("A"), &mut handler);

    assert_eq!(handler.rendered.len(), 1);
    let out = &handler.rendered[0];
    assert!(out.contains("Dns Server: Cloudflare"));
    assert!(out.contains("  Type: A\n"));
    assert!(out.contains("  TTL: 300\n"));
    assert!(out.contains("  Data: 93.184.216.34\n"));
    assert!(!out.contains("Error"));
}
