use detect_dns_packet::dns_header::errors::DnsHeaderError;
use detect_dns_packet::dns_header::DnsHeader;
use detect_dns_packet::dns_queries::errors::DnsQueryParseError;
use detect_dns_packet::errors::DnsPacketError;
use detect_dns_packet::utils::dns_class::DnsClass;
use detect_dns_packet::utils::dns_types::DnsType;
use detect_dns_packet::DnsPacket;

#[test]
fn test_dns_packet_parsing() {
    // Example DNS packet data
    let data = hex::decode("002b81800001000f0006000202757304706f6f6c036e7470036f72670000010001c00c0001000100000d87000443814409c00c0001000100000d870004452c393cc00c0001000100000d870004cfead1b5c00c0001000100000d870004d184b004c00c0001000100000d870004d81bb92ac00c0001000100000d87000418224f2ac00c0001000100000d870004187bcae6c00c0001000100000d8700043fa43ef9c00c0001000100000d8700044070bd0bc00c0001000100000d870004417de9cec00c0001000100000d8700044221ce05c00c0001000100000d8700044221d80bc00c0001000100000d870004425c44f6c00c0001000100000d870004426f2ec8c00c0001000100000d8700044273880404504f4f4c036e7470036f72670000020001000010d60012036e7331086d61696c776f7278036e657400c11100020001000010d6000f067573656e6574036e6574026e7a00c11100020001000010d60014067a626173656c08666f72747974776f02636800c11100020001000010d60018086176656e747572610a62686d732d67726f6570026e6c00c11100020001000010d600110e736c617274696261727466617374c18bc11100020001000010d6000f0161026e73076d61646475636bc136c12900010001000272a500044501c844c1470001000100000daf0004ca313b06").expect("Invalid hex string");

    match DnsPacket::try_from(data.as_slice()) {
        Ok(packet) => {
            println!("{:?}", packet);
            assert_eq!(packet.header.transaction_id, 0x002b);
            assert_eq!(packet.header.flags, 0x8180);
            assert_eq!(packet.header.counts[0], 1);
            assert_eq!(packet.header.counts[1], 15);
            assert_eq!(packet.header.counts[2], 6);
            assert_eq!(packet.header.counts[3], 2);
        }
        Err(e) => panic!("Error parsing DNS packet: {}", e.message()),
    }
}

#[test]
fn test_dns_packet_parsing_return_error() {
    // Example non-DNS packet data
    let data = hex::decode("1a030aee00001bf7000014ec51ae80b7c502034c8d0e66cbc50204ecec42ee92c50204ebcf4959e6c50204ebcf4c6e6d").expect("Invalid hex string");

    match DnsPacket::try_from(data.as_slice()) {
        Ok(_) => panic!("Expected error, but parsing succeeded"),
        Err(e) => assert!(
            e.message().contains("Invalid Z field, must be 0."),
            "Unexpected error: {}",
            e.message()
        ),
    }
}

#[test]
fn header_decodes_every_field() {
    let data = vec![
        0x00, 0x2b, 0x81, 0x80, 0x00, 0x01, 0x00, 0x0f, 0x00, 0x06, 0x00, 0x02,
    ];
    let header = DnsHeader::try_from(&data).unwrap();
    assert_eq!(header.transaction_id, 0x002b);
    assert_eq!(header.flags, 0x8180);
    assert_eq!(header.counts, [1, 15, 6, 2]);
}

#[test]
fn header_too_short() {
    let data = vec![0u8; 11];
    assert_eq!(
        DnsHeader::try_from(&data).unwrap_err(),
        DnsHeaderError::PacketTooShort
    );
    assert_eq!(
        DnsPacket::try_from(data.as_slice()).unwrap_err(),
        DnsPacketError::HeaderError(DnsHeaderError::PacketTooShort)
    );
}

#[test]
fn header_rejects_records_without_questions() {
    // Question count 0, answer count 1: not a well-formed query or response.
    let data = vec![
        0x00, 0x00, 0x01, 0x00, 0x00, 0x00, 0x00, 0x01, 0x00, 0x00, 0x00, 0x00,
    ];
    assert_eq!(
        DnsHeader::try_from(&data).unwrap_err(),
        DnsHeaderError::InvalidCounts
    );
    assert_eq!(
        DnsHeaderError::InvalidCounts.message(),
        "Invalid DNS packet: non-zero resource record counts with zero questions"
    );
}

#[test]
fn header_zero_counts_with_zero_questions_is_valid() {
    let data = vec![
        0x00, 0x01, 0x01, 0x00, 0x00, 0x00, 0x00, 0x00, 0x00, 0x00, 0x00, 0x00,
    ];
    let header = DnsHeader::try_from(&data).unwrap();
    assert_eq!(header.counts, [0, 0, 0, 0]);
}

#[test]
fn packet_decodes_one_query_per_question_count() {
    let mut data = vec![
        0x00, 0x01, 0x01, 0x00, 0x00, 0x02, 0x00, 0x00, 0x00, 0x00, 0x00, 0x00,
    ];
    data.extend_from_slice(&[3, b'w', b'w', b'w', 3, b'a', b'b', b'c', 0, 0, 1, 0, 1]);
    data.extend_from_slice(&[2, b'h', b'i', 0, 0, 28, 0, 1]);
    let packet = DnsPacket::try_from(data.as_slice()).unwrap();
    assert_eq!(packet.header.counts[0], 2);
    assert_eq!(packet.queries.queries.len(), 2);
    assert_eq!(packet.queries.queries[0].name, "www.abc");
    assert_eq!(packet.queries.queries[0].qtype, DnsType(1));
    assert_eq!(packet.queries.queries[0].qclass, DnsClass(1));
    assert_eq!(packet.queries.queries[1].name, "hi");
    assert_eq!(packet.queries.queries[1].qtype, DnsType(28));
    assert_eq!(packet.queries.queries[1].qclass, DnsClass(1));
    assert!(packet.answers.is_none());
    assert!(packet.authorities.is_none());
    assert!(packet.additionals.is_none());
}

#[test]
fn packet_question_count_without_queries_fails() {
    // The header promises one question but no bytes follow it.
    let data = vec![
        0x00, 0x01, 0x01, 0x00, 0x00, 0x01, 0x00, 0x00, 0x00, 0x00, 0x00, 0x00,
    ];
    assert_eq!(
        DnsPacket::try_from(data.as_slice()).unwrap_err(),
        DnsPacketError::QueryError(DnsQueryParseError::OutOfBoundParse)
    );
}

#[test]
fn packet_error_messages_wrap_the_stage() {
    let e = DnsPacketError::HeaderError(DnsHeaderError::PacketTooShort);
    assert_eq!(
        e.message(),
        "DNS header parsing error: Packet too short to be a DNS packet"
    );
    let e = DnsPacketError::QueryError(DnsQueryParseError::OutOfBoundParse);
    assert_eq!(e.message(), "DNS Query parsing error: Out of bound parse");
    let e = DnsPacketError::InsufficientData {
        expected: 12,
        actual: 3,
    };
    assert_eq!(
        e.message(),
        "Insufficient data: expected at least 12 bytes, but got 3"
    );
}
