use iota::op::Mark;
use iota::render::{gen_tmp_id, root_cert_pem, DeviceDisplayInfo};
use iota::topics::parse_info_topic;

#[test]
fn tmp_id_is_prefixed_decimal() {
    assert_eq!(gen_tmp_id(0), "iota-0");
    assert_eq!(gen_tmp_id(1_603_000_000_123), "iota-1603000000123");
    assert_eq!(gen_tmp_id(u128::MAX), format!("iota-{}", u128::MAX));
}

#[test]
fn root_cert_is_last_of_chain() {
    assert_eq!(root_cert_pem(vec![]), None);
    let pem = root_cert_pem(vec![vec![1, 2, 3], vec![0xde, 0xad]]).unwrap();
    assert_eq!(pem, "-----BEGIN CERTIFICATE-----\r\n3q0=\r\n-----END CERTIFICATE-----\r\n");
}

#[test]
fn display_info_keeps_latest() {
    let mut d = DeviceDisplayInfo::new();
    assert_eq!(d.status_fmt, None);
    assert_eq!(d.id_fmt, None);
    d.integrate_status_fmt("Up".to_string());
    d.integrate_id_fmt("table".to_string());
    d.integrate_status_fmt("Down".to_string());
    assert_eq!(d.status_fmt.as_deref(), Some("Down"));
    assert_eq!(d.id_fmt.as_deref(), Some("table"));
}

#[test]
fn mark_labels() {
    assert_eq!(Mark::Validate.label(), "validate");
    assert_eq!(Mark::Rollback.label(), "rollback");
}

#[test]
fn info_topics_parse() {
    assert_eq!(
        parse_info_topic("hoek/iot/garden-1/_info/status"),
        Some(("garden-1".to_string(), "status".to_string()))
    );
    assert_eq!(
        parse_info_topic("hoek/iot/a_B9/_info/id"),
        Some(("a_B9".to_string(), "id".to_string()))
    );
    assert_eq!(parse_info_topic("hoek/iot//_info/id"), None);
    assert_eq!(parse_info_topic("hoek/iot/dev/_info/"), None);
    assert_eq!(parse_info_topic("hoek/iot/dev/_cmd/ota"), None);
    assert_eq!(parse_info_topic("hoek/iot/dev/_info/id/extra"), None);
    assert_eq!(parse_info_topic("other/iot/dev/_info/id"), None);
    assert_eq!(parse_info_topic(""), None);
}
