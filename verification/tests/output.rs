use latmon::report::{centi_string, decimal_string, format_status_line};
use latmon::sched::StatusUpdate;

#[test]
fn whole_numbers_render_in_decimal() {
    assert_eq!(decimal_string(0), "0");
    assert_eq!(decimal_string(7), "7");
    assert_eq!(decimal_string(10), "10");
    assert_eq!(decimal_string(250), "250");
    assert_eq!(decimal_string(98765), "98765");
}

#[test]
fn averages_render_with_two_decimal_places() {
    assert_eq!(centi_string(10000), "100.00");
    assert_eq!(centi_string(15000), "150.00");
    assert_eq!(centi_string(20000), "200.00");
    assert_eq!(centi_string(50), "0.50");
    assert_eq!(centi_string(13), "0.13");
    assert_eq!(centi_string(12345), "123.45");
    assert_eq!(centi_string(101), "1.01");
}

#[test]
fn status_line_is_rendered_exactly() {
    let update = StatusUpdate { latency_ms: 100, avg_centi_ms: 10000 };
    assert_eq!(
        format_status_line("20.236.44.162", update),
        "Host: 20.236.44.162, Latency: 100ms, Avg Latency: 100.00ms"
    );
    let update = StatusUpdate { latency_ms: 7, avg_centi_ms: 1234 };
    assert_eq!(
        format_status_line("10.0.0.1", update),
        "Host: 10.0.0.1, Latency: 7ms, Avg Latency: 12.34ms"
    );
}
