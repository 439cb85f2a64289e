//! Metric registry behaviour and CSV rendering.

use netsim::metrics::{option_to_string, u64_to_string, CsvMetric, Metric, MetricConfig, MetricFilter, MetricRegistry};

fn config() -> MetricConfig {
    MetricConfig {
        data_dir: String::from("data"),
        filters: vec![MetricFilter { regex: String::from(".*"), enabled: true }],
    }
}

#[test]
fn decimal_rendering() {
    assert_eq!(u64_to_string(0), "0");
    assert_eq!(u64_to_string(1234), "1234");
    assert_eq!(u64_to_string(u64::MAX), "18446744073709551615");
    assert_eq!(option_to_string(Some(7)), "7");
    assert_eq!(option_to_string(None), "nan");
}

#[test]
fn registry_renders_logged_rows_as_csv() {
    let mut reg = MetricRegistry::new(config());
    assert_eq!(reg.data_dir(), "data");
    let h = reg.register_csv_metric("m1", vec![String::from("a"), String::from("b")]).unwrap();
    reg.log(h, vec![String::from("1"), String::from("2")]);
    reg.log(h, vec![String::from("3"), String::from("4")]);
    let files = reg.finish();
    assert_eq!(files.len(), 1);
    assert_eq!(files[0].0, "m1");
    assert_eq!(files[0].1, b"a,b\n1,2\n3,4\n");
}

#[test]
fn empty_metrics_render_nothing() {
    let mut reg = MetricRegistry::new(config());
    let _ = reg.register_csv_metric("quiet", vec![String::from("a")]).unwrap();
    assert_eq!(reg.finish().len(), 0);
}

#[test]
fn registering_twice_reattaches() {
    let mut reg = MetricRegistry::new(config());
    let h1 = reg.register_csv_metric("m", vec![String::from("a")]).unwrap();
    let h2 = reg.register_csv_metric("m", vec![String::from("other")]).unwrap();
    assert_eq!(h1, h2);
    reg.log(h2, vec![String::from("9")]);
    let files = reg.finish();
    assert_eq!(files.len(), 1);
    assert_eq!(files[0].1, b"a\n9\n");
}

#[test]
fn csv_metric_exports_itself() {
    let mut m = CsvMetric::new(String::from("t"), true, vec![String::from("x")]);
    assert!(m.enable());
    assert_eq!(m.name(), "t");
    assert!(m.export().is_none(), "no rows, nothing to write");
    m.log(vec![String::from("5")]);
    let (name, bytes) = m.export().unwrap();
    assert_eq!(name, "t");
    assert_eq!(bytes, b"x\n5\n");
}
