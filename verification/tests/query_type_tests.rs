use doh_resolver::query_type::QueryType;

#[test]
fn test_from_u16_known_codes() {
    assert_eq!(QueryType::from_u16(1).unwrap().label(), "A");
    assert_eq!(QueryType::from_u16(28).unwrap().label(), "AAAA");
    assert_eq!(QueryType::from_u16(257).unwrap().label(), "CAA");
    assert_eq!(QueryType::from_u16(5).unwrap().label(), "CNAME");
    assert_eq!(QueryType::from_u16(15).unwrap().label(), "MX");
    assert_eq!(QueryType::from_u16(2).unwrap().label(), "NS");
    assert_eq!(QueryType::from_u16(12).unwrap().label(), "PTR");
    assert_eq!(QueryType::from_u16(6).unwrap().label(), "SOA");
    assert_eq!(QueryType::from_u16(33).unwrap().label(), "SRV");
    assert_eq!(QueryType::from_u16(16).unwrap().label(), "TXT");
}

#[test]
fn test_from_u16_unknown_code_exact() {
    let q = QueryType::from_u16(999).unwrap();
    assert_eq!(q, QueryType::Unknown(999));
    assert_eq!(q.label(), "Unknown(999)");
}

#[test]
fn test_from_u16_total_over_all_codes() {
    let known: [(u16, &str); 10] = [
        (1, "A"),
        (28, "AAAA"),
        (257, "CAA"),
        (5, "CNAME"),
        (15, "MX"),
        (2, "NS"),
        (12, "PTR"),
        (6, "SOA"),
        (33, "SRV"),
        (16, "TXT"),
    ];
    for code in 0..=65535u16 {
        let q = QueryType::from_u16(code).expect("from_u16 is total");
        let label = q.label();
        match known.iter().find(|(c, _)| *c == code) {
            Some((_, sym)) => assert_eq!(label, *sym),
            None => assert_eq!(label, format!("Unknown({})", code)),
        }
    }
}

#[test]
fn test_label_unknown_edge_codes() {
    assert_eq!(QueryType::from_u16(0).unwrap().label(), "Unknown(0)");
    assert_eq!(QueryType::from_u16(65535).unwrap().label(), "Unknown(65535)");
}
