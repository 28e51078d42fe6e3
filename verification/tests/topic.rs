use batch_publisher::text::u64_to_dec;
use batch_publisher::topic::broker_address;
use batch_publisher::topic::full_topic_name;

#[test]
fn fully_qualified_topic_name() {
    assert_eq!(full_topic_name("ns1", "t1"), "persistent://public/ns1/t1");
}

#[test]
fn topic_name_ignores_tenant_segment() {
    // The path segment is the fixed literal `public`, whatever the
    // configured tenant says.
    assert_eq!(
        full_topic_name("billing", "events"),
        "persistent://public/billing/events"
    );
}

#[test]
fn broker_address_is_tls_host_port() {
    assert_eq!(broker_address("example.com", 6651), "pulsar+ssl://example.com:6651");
    assert_eq!(broker_address("h", 0), "pulsar+ssl://h:0");
    assert_eq!(broker_address("h", 65535), "pulsar+ssl://h:65535");
}

#[test]
fn decimal_rendering() {
    assert_eq!(u64_to_dec(0), "0");
    assert_eq!(u64_to_dec(7), "7");
    assert_eq!(u64_to_dec(100), "100");
    assert_eq!(u64_to_dec(250), "250");
    assert_eq!(u64_to_dec(u64::MAX), "18446744073709551615");
}
