use prometheus_client::encoding::{EncodeMetric, MetricEncoder};
use prometheus_client::metrics::info::Info;
use std::sync::Arc;
use std::time::SystemTime;

fn is_send_and_sync<T: Send + Sync>(_: &T) -> bool {
    true
}

#[test]
fn info_can_be_shared_between_readers() {
    assert!(is_send_and_sync(&Info::new(vec![("os", "GNU/linux")])));
    assert!(is_send_and_sync(&Info::new(vec![("os".to_string(), "GNU/linux".to_string())])));
    assert!(is_send_and_sync(&Arc::new(Info::new(vec![("os", "GNU/linux")]))));
}

#[test]
fn interleaved_readers_get_the_same_sample() {
    let info = Arc::new(Info::new(vec![("os", "GNU/linux"), ("arch", "x86_64")]));
    let readers: Vec<Arc<Info<Vec<(&str, &str)>>>> = (0..8).map(|_| Arc::clone(&info)).collect();
    let mut outs = vec![String::new(); readers.len()];
    for round in 0..3 {
        for (n, reader) in readers.iter().enumerate() {
            if round > 0 {
                outs[n].push('\n');
            }
            if n % 2 == 0 {
                reader.encode(MetricEncoder::new(&mut outs[n], "build")).unwrap();
            } else {
                reader
                    .encode_with_ts(MetricEncoder::new(&mut outs[n], "build"), SystemTime::now())
                    .unwrap();
            }
        }
    }
    let sample = "build_info{os=\"GNU/linux\",arch=\"x86_64\"} 1";
    for out in outs {
        assert_eq!(out, format!("{}\n{}\n{}", sample, sample, sample));
    }
}
