use prometheus_client::encoding::{EncodeLabelSet, LabelSetEncoder, MetricEncoder};

#[test]
fn new_label_set_encoder_is_empty() {
    assert_eq!(LabelSetEncoder::new().as_str(), "");
}

#[test]
fn first_label_has_no_comma() {
    let mut encoder = LabelSetEncoder::new();
    encoder.encode_label("os", "GNU/linux");
    assert_eq!(encoder.as_str(), "os=\"GNU/linux\"");
}

#[test]
fn later_labels_follow_a_comma() {
    let mut encoder = LabelSetEncoder::new();
    encoder.encode_label("a", "1");
    encoder.encode_label("b", "2");
    encoder.encode_label("c", "3");
    assert_eq!(encoder.as_str(), "a=\"1\",b=\"2\",c=\"3\"");
}

#[test]
fn empty_label_still_counts_as_first() {
    let mut encoder = LabelSetEncoder::new();
    encoder.encode_label("", "");
    assert_eq!(encoder.as_str(), "=\"\"");
    encoder.encode_label("", "");
    assert_eq!(encoder.as_str(), "=\"\",=\"\"");
}

#[test]
fn borrowed_pairs_write_themselves_in_order() {
    let labels = vec![("os", "GNU/linux"), ("arch", "x86_64")];
    let mut encoder = LabelSetEncoder::new();
    assert_eq!(labels.encode(&mut encoder), Ok(()));
    assert_eq!(encoder.as_str(), "os=\"GNU/linux\",arch=\"x86_64\"");
}

#[test]
fn owned_pairs_write_themselves_in_order() {
    let labels = vec![
        ("os".to_string(), "GNU/linux".to_string()),
        ("arch".to_string(), "x86_64".to_string()),
    ];
    let mut encoder = LabelSetEncoder::new();
    assert_eq!(labels.encode(&mut encoder), Ok(()));
    assert_eq!(encoder.as_str(), "os=\"GNU/linux\",arch=\"x86_64\"");
}

#[test]
fn label_set_adds_to_what_the_encoder_holds() {
    let mut encoder = LabelSetEncoder::new();
    encoder.encode_label("job", "api");
    let labels = vec![("os", "GNU/linux")];
    assert_eq!(labels.encode(&mut encoder), Ok(()));
    assert_eq!(encoder.as_str(), "job=\"api\",os=\"GNU/linux\"");
    let none: Vec<(&str, &str)> = Vec::new();
    assert_eq!(none.encode(&mut encoder), Ok(()));
    assert_eq!(encoder.as_str(), "job=\"api\",os=\"GNU/linux\"");
}

#[test]
fn empty_list_writes_nothing() {
    let none: Vec<(String, String)> = Vec::new();
    let mut encoder = LabelSetEncoder::new();
    assert_eq!(none.encode(&mut encoder), Ok(()));
    assert_eq!(encoder.as_str(), "");
}

#[test]
fn metric_encoder_holds_writer_and_name() {
    let mut out = String::from("so far");
    let encoder = MetricEncoder::new(&mut out, "build");
    assert_eq!(encoder.name, "build");
    assert_eq!(encoder.writer.as_str(), "so far");
}

#[test]
fn encode_info_writes_the_sample() {
    let mut out = String::new();
    let labels = vec![("os", "GNU/linux")];
    assert_eq!(MetricEncoder::new(&mut out, "build").encode_info(&labels), Ok(()));
    assert_eq!(out, "build_info{os=\"GNU/linux\"} 1");
}

#[test]
fn write_info_with_ok_adds_the_sample() {
    let mut out = String::from("x\n");
    let r = MetricEncoder::new(&mut out, "build").write_info("os=\"GNU/linux\"", Ok(()));
    assert_eq!(r, Ok(()));
    assert_eq!(out, "x\nbuild_info{os=\"GNU/linux\"} 1");
}

#[test]
fn write_info_with_ok_and_no_labels() {
    let mut out = String::new();
    let r = MetricEncoder::new(&mut out, "build").write_info("", Ok(()));
    assert_eq!(r, Ok(()));
    assert_eq!(out, "build_info{} 1");
}

#[test]
fn write_info_with_an_error_returns_it_and_adds_nothing() {
    let mut out = String::from("x\n");
    let r = MetricEncoder::new(&mut out, "build")
        .write_info("os=\"GNU/linux\"", Err(std::fmt::Error));
    assert_eq!(r, Err(std::fmt::Error));
    assert_eq!(out, "x\n");
}
