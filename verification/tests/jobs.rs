use job_dispatcher::job::sample::{greeting_line, push_decimal, sum_report, GreeterJob, SumJob};
use job_dispatcher::job::JobInterface;

#[test]
fn greeter_reports_greeting() {
    let job = GreeterJob { name: "John".to_string() };
    assert_eq!(job.run(), "Hello, John!");
    assert_eq!(greeting_line(""), "Hello, !");
}

#[test]
fn sum_reports_terms_and_total() {
    assert_eq!(SumJob { a: 1, b: 2 }.run(), "1 + 2 = 3");
    assert_eq!(SumJob { a: -5, b: 2 }.run(), "-5 + 2 = -3");
    assert_eq!(sum_report(5, 6), "5 + 6 = 11");
}

#[test]
fn sum_total_does_not_wrap() {
    assert_eq!(sum_report(i32::MAX, 1), "2147483647 + 1 = 2147483648");
    assert_eq!(sum_report(i32::MIN, -1), "-2147483648 + -1 = -2147483649");
}

#[test]
fn sum_line_at_digit_boundaries() {
    assert_eq!(sum_report(0, 0), "0 + 0 = 0");
    assert_eq!(sum_report(9, 1), "9 + 1 = 10");
    assert_eq!(sum_report(10, 90), "10 + 90 = 100");
    assert_eq!(sum_report(-10, 10), "-10 + 10 = 0");
    assert_eq!(sum_report(1234567890, -1234567891), "1234567890 + -1234567891 = -1");
}

#[test]
fn push_decimal_appends_decimal_text() {
    let mut out = String::from("n=");
    push_decimal(&mut out, 0);
    push_decimal(&mut out, -7);
    push_decimal(&mut out, 405);
    assert_eq!(out, "n=0-7405");
    let mut low = String::new();
    push_decimal(&mut low, i64::MIN);
    assert_eq!(low, i64::MIN.to_string());
    let mut high = String::new();
    push_decimal(&mut high, i64::MAX);
    assert_eq!(high, "9223372036854775807");
}
