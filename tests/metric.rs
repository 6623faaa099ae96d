use barbershop::metric::{incr, render};

#[test]
fn without_tags() {
    let metric = incr("foo.bar", Vec::new()).expect("time is moving backwards");
    let parts = metric.split("|").collect::<Vec<_>>();
    assert_eq!(parts[4], "foo.bar");
}

#[test]
fn with_tags() {
    let metric =
        incr("foo.bar", vec!["baz:boom".into(), "zoom".into()]).expect("time is moving backwards");
    let parts = metric.split("|").collect::<Vec<_>>();
    assert_eq!(parts[4], "foo.bar");
    assert_eq!(parts[5], "#baz:boom,zoom");
}

#[test]
fn incr_stamps_current_time() {
    let metric = incr("foo.bar", vec!["a".into()]).expect("time is moving backwards");
    let parts = metric.split("|").collect::<Vec<_>>();
    assert_eq!(parts.len(), 6);
    assert_eq!(parts[0], "MONITORING");
    let secs: u64 = parts[1].parse().expect("seconds");
    assert!(secs > 1_500_000_000);
    assert_eq!(parts[2], "1");
    assert_eq!(parts[3], "count");
}

#[test]
fn render_exact_line() {
    let tags = vec!["repo:o/r".to_string(), "branch:b".to_string(), "reason:404".to_string()];
    assert_eq!(
        render("barbershop.fail", &tags, 1546300800),
        "MONITORING|1546300800|1|count|barbershop.fail|#repo:o/r,branch:b,reason:404"
    );
}

#[test]
fn render_edge_times_and_no_tags() {
    assert_eq!(render("x", &Vec::new(), 0), "MONITORING|0|1|count|x|#");
    assert_eq!(
        render("x", &vec!["t".to_string()], u64::MAX),
        "MONITORING|18446744073709551615|1|count|x|#t"
    );
    assert_eq!(render("x", &vec!["".to_string(), "".to_string()], 10), "MONITORING|10|1|count|x|#,");
}
