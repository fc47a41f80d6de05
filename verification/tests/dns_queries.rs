use detect_dns_packet::dns_queries::errors::DnsQueryParseError;
use detect_dns_packet::dns_queries::parse_name;
use detect_dns_packet::dns_queries::DnsQueries;
use detect_dns_packet::dns_queries::DnsQuery;
use detect_dns_packet::utils::dns_class::DnsClass;
use detect_dns_packet::utils::dns_types::DnsType;

#[test]
fn test_parse_name() {
    let data = vec![
        0x03, 0x77, 0x77, 0x77, // "www"
        0x06, 0x67, 0x6f, 0x6f, 0x67, 0x6c, 0x65, // "google"
        0x03, 0x63, 0x6f, 0x6d, // "com"
        0x00, // Null terminator of the domain name
    ];
    let (name, offset) = parse_name(&data, 0).unwrap();
    assert_eq!(name, "www.google.com");
    assert_eq!(offset, 16);
}

#[test]
fn test_dns_query_from_bytes() {
    let data = vec![
        3, b'w', b'w', b'w', 6, b'g', b'o', b'o', b'g', b'l', b'e', 3, b'c', b'o', b'm', 0, 0, 1,
        0, 1,
    ];
    let mut offset = 0;
    let query = DnsQuery::from_bytes(&data, &mut offset).unwrap();
    assert_eq!(query.name, "www.google.com");
    assert_eq!(query.qtype, DnsType(1));
    assert_eq!(query.qclass, DnsClass(1));
    assert_eq!(offset, 20);
}

#[test]
fn test_dns_queries_from_bytes() {
    let data = vec![
        3, b'w', b'w', b'w', 6, b'g', b'o', b'o', b'g', b'l', b'e', 3, b'c', b'o', b'm', 0, 0, 1,
        0, 1, 3, b'f', b'o', b'o', 3, b'b', b'a', b'r', 3, b'c', b'o', b'm', 0, 0, 2, 0, 1,
    ];
    let queries = DnsQueries::from_bytes(&data, 2).unwrap();
    assert_eq!(queries.queries.len(), 2);
    assert_eq!(queries.queries[0].name, "www.google.com");
    assert_eq!(queries.queries[0].qtype, DnsType(1));
    assert_eq!(queries.queries[0].qclass, DnsClass(1));
    assert_eq!(queries.queries[1].name, "foo.bar.com");
    assert_eq!(queries.queries[1].qtype, DnsType(2));
    assert_eq!(queries.queries[1].qclass, DnsClass(1));
}

#[test]
fn parse_name_empty_name() {
    // A lone terminator is the root name: empty string, cursor past it.
    let data = vec![0u8];
    let (name, offset) = parse_name(&data, 0).unwrap();
    assert_eq!(name, "");
    assert_eq!(offset, 1);
}

#[test]
fn parse_name_length_byte_overruns_buffer() {
    // The length byte declares 3 bytes but only 1 remains.
    let data = vec![3u8, b'a'];
    assert_eq!(
        parse_name(&data, 0),
        Err(DnsQueryParseError::OutOfBoundParse)
    );
}

#[test]
fn parse_name_offset_past_end() {
    let data: Vec<u8> = vec![];
    assert_eq!(
        parse_name(&data, 0),
        Err(DnsQueryParseError::OutOfBoundParse)
    );
}

#[test]
fn parse_name_missing_terminator() {
    // The label fits, but the buffer ends before the next length byte.
    let data = vec![1u8, b'a'];
    assert_eq!(
        parse_name(&data, 0),
        Err(DnsQueryParseError::OutOfBoundParse)
    );
}

#[test]
fn parse_name_compression_pointer_rejected() {
    // 0xc0 has both top bits set: a compression pointer on the wire, but
    // the decoder reads it as a literal length of 192 and fails bounds.
    let data = vec![0xc0u8, 0x0c, 0x00];
    assert_eq!(
        parse_name(&data, 0),
        Err(DnsQueryParseError::OutOfBoundParse)
    );
}

#[test]
fn parse_name_invalid_utf8_label() {
    let data = vec![2u8, 0xff, 0xfe, 0x00];
    assert_eq!(
        parse_name(&data, 0),
        Err(DnsQueryParseError::Utf8Error {
            offset: 1,
            length: 2
        })
    );
}

#[test]
fn parse_name_non_ascii_label() {
    // One label holding the two-byte UTF-8 encoding of 'é'.
    let data = vec![2u8, 0xc3, 0xa9, 0x00];
    let (name, offset) = parse_name(&data, 0).unwrap();
    assert_eq!(name, "\u{e9}");
    assert_eq!(offset, 4);
}

#[test]
fn parse_name_from_nonzero_offset() {
    let data = vec![0xff, 0xff, 2, b'o', b'k', 0];
    let (name, offset) = parse_name(&data, 2).unwrap();
    assert_eq!(name, "ok");
    assert_eq!(offset, 6);
}

#[test]
fn query_with_too_few_fixed_bytes() {
    // The name ends at offset 3; only 2 of the 4 fixed bytes remain.
    let data = vec![1u8, b'a', 0, 0, 1];
    let mut offset = 0;
    let r = DnsQuery::from_bytes(&data, &mut offset);
    assert_eq!(
        r.unwrap_err(),
        DnsQueryParseError::InsufficientData {
            required: 4,
            offset: 3,
            available: 2
        }
    );
    assert_eq!(offset, 0);
}

#[test]
fn queries_zero_count_is_empty() {
    let data: Vec<u8> = vec![];
    let queries = DnsQueries::from_bytes(&data, 0).unwrap();
    assert_eq!(queries.queries.len(), 0);
}

#[test]
fn queries_error_aborts_whole_decode() {
    // First query decodes; the second runs out of bytes.
    let data = vec![1u8, b'a', 0, 0, 1, 0, 1];
    assert_eq!(
        DnsQueries::from_bytes(&data, 2).unwrap_err(),
        DnsQueryParseError::OutOfBoundParse
    );
}

#[test]
fn query_error_messages() {
    let e = DnsQueryParseError::InsufficientData {
        required: 4,
        offset: 3,
        available: 2,
    };
    assert_eq!(
        e.message(),
        "Insufficient data: required 4 more bytes at offset 3, but only 2 bytes available"
    );
    assert_eq!(
        DnsQueryParseError::OutOfBoundParse.message(),
        "Out of bound parse"
    );
    assert_eq!(
        DnsQueryParseError::Utf8Error {
            offset: 1,
            length: 2
        }
        .message(),
        "UTF-8 parsing error: invalid byte sequence at offset 1, length 2"
    );
}

#[test]
fn message_renders_multi_digit_numbers() {
    let e = DnsQueryParseError::InsufficientData {
        required: 65535,
        offset: 1234,
        available: 0,
    };
    assert_eq!(
        e.message(),
        "Insufficient data: required 65535 more bytes at offset 1234, but only 0 bytes available"
    );
}
