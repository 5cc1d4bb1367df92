use indy_load_generator::reply::{narrow, sequence_number};

#[test]
fn sequence_number_is_read_from_the_reply() {
    let reply = "{\"op\":\"REPLY\",\"result\":{\"txnMetadata\":{\"seqNo\":17,\"txnTime\":1}}}";
    assert_eq!(sequence_number(reply), Some(17));
}

#[test]
fn sequence_number_differs_with_the_reply() {
    assert_eq!(sequence_number("{\"result\":{\"txnMetadata\":{\"seqNo\":1}}}"), Some(1));
    assert_eq!(sequence_number("{\"result\":{\"txnMetadata\":{\"seqNo\":2}}}"), Some(2));
}

#[test]
fn reply_without_sequence_number_has_none() {
    assert_eq!(sequence_number("{\"result\":{\"txnMetadata\":{}}}"), None);
    assert_eq!(sequence_number("{\"result\":{}}"), None);
    assert_eq!(sequence_number("{}"), None);
    assert_eq!(sequence_number("[1,2,3]"), None);
    assert_eq!(sequence_number("17"), None);
}

#[test]
fn reply_that_is_no_json_has_none() {
    assert_eq!(sequence_number(""), None);
    assert_eq!(sequence_number("seqNo: 17"), None);
    assert_eq!(sequence_number("{\"result\":"), None);
}

#[test]
fn sequence_number_must_be_an_unsigned_integer() {
    assert_eq!(sequence_number("{\"result\":{\"txnMetadata\":{\"seqNo\":-3}}}"), None);
    assert_eq!(sequence_number("{\"result\":{\"txnMetadata\":{\"seqNo\":2.5}}}"), None);
    assert_eq!(sequence_number("{\"result\":{\"txnMetadata\":{\"seqNo\":\"17\"}}}"), None);
    assert_eq!(sequence_number("{\"result\":{\"txnMetadata\":{\"seqNo\":null}}}"), None);
}

#[test]
fn large_sequence_number_keeps_its_low_bits() {
    assert_eq!(
        sequence_number("{\"result\":{\"txnMetadata\":{\"seqNo\":4294967303}}}"),
        Some(7)
    );
    assert_eq!(
        sequence_number("{\"result\":{\"txnMetadata\":{\"seqNo\":4294967295}}}"),
        Some(u32::MAX)
    );
}

#[test]
fn narrow_keeps_the_low_bits() {
    assert_eq!(narrow(None), None);
    assert_eq!(narrow(Some(0)), Some(0));
    assert_eq!(narrow(Some(4294967295)), Some(4294967295));
    assert_eq!(narrow(Some(4294967296)), Some(0));
    assert_eq!(narrow(Some(u64::MAX)), Some(u32::MAX));
}
