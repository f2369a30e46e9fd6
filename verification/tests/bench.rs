use snmalloc_rs::bench::{field_of, throughput_field, PatternRejected};

#[test]
fn throughput_is_read_from_the_report() {
    let report = "Running contention benchmark with 8 threads\nThroughput: 123.45 Mops/sec\n";
    assert_eq!(throughput_field(report), Ok(Some("123.45".to_string())));
}

#[test]
fn first_reported_throughput_is_taken() {
    let report = "Throughput: 1.5 Mops/sec\nThroughput: 2.5 Mops/sec\n";
    assert_eq!(throughput_field(report), Ok(Some("1.5".to_string())));
}

#[test]
fn number_may_lack_a_fraction() {
    assert_eq!(throughput_field("Throughput: 42 Mops/sec"), Ok(Some("42".to_string())));
}

#[test]
fn report_without_throughput_has_no_field() {
    assert_eq!(throughput_field("done"), Ok(None));
    assert_eq!(throughput_field(""), Ok(None));
    assert_eq!(throughput_field("Throughput: fast Mops/sec"), Ok(None));
    assert_eq!(throughput_field("Throughput:  Mops/sec"), Ok(None));
}

#[test]
fn error_of_the_pattern_library_is_replaced() {
    let broken = regex::Regex::new("(").unwrap_err();
    assert_eq!(field_of(Err(broken)), Err(PatternRejected));
    assert_eq!(field_of(Ok(Some("7".to_string()))), Ok(Some("7".to_string())));
    assert_eq!(field_of(Ok(None)), Ok(None));
}

#[test]
fn throughput_pattern_is_accepted_whatever_the_report_holds() {
    for report in ["", "done", "Throughput: 3.25 Mops/sec", "Throughput: ", "\u{1F600}"] {
        assert!(throughput_field(report).is_ok());
    }
}
