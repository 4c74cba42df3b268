use oxideoverflow::decimal::decimal_string;
use oxideoverflow::query::{get_url, QUESTIONS};

#[test]
fn url_without_key() {
    let url = get_url(1_600_000_000, 1_600_000_015, "sentry", 3, &None);
    assert_eq!(
        url,
        "https://api.stackexchange.com/2.2/questions?page=1&order=asc&sort=creation&site=stackoverflow&pagesize=3&fromdate=1600000000&todate=1600000015&tagged=sentry"
    );
    assert!(!url.contains("&key="));
}

#[test]
fn url_with_key_appends_it_last() {
    let key = Some(String::from("abc123"));
    let url = get_url(10, 25, "rust", 30, &key);
    assert_eq!(
        url,
        "https://api.stackexchange.com/2.2/questions?page=1&order=asc&sort=creation&site=stackoverflow&pagesize=30&fromdate=10&todate=25&tagged=rust&key=abc123"
    );
    let without = get_url(10, 25, "rust", 30, &None);
    assert_eq!(url, format!("{}&key=abc123", without));
}

#[test]
fn url_is_the_same_for_the_same_inputs() {
    let key = Some(String::from("k"));
    let a = get_url(100, 115, "sentry", 3, &key);
    let b = get_url(100, 115, "sentry", 3, &key);
    assert_eq!(a.as_bytes(), b.as_bytes());
}

#[test]
fn url_starts_with_the_fixed_parameters() {
    let url = get_url(0, 0, "", 0, &None);
    assert_eq!(url, format!("{}0&fromdate=0&todate=0&tagged=", QUESTIONS));
    assert!(url.contains("page=1&"));
    assert!(url.contains("order=asc&"));
    assert!(url.contains("sort=creation&"));
}

#[test]
fn url_takes_the_largest_values() {
    let url = get_url(u64::MAX, u64::MAX, "t", u8::MAX, &None);
    assert_eq!(
        url,
        format!(
            "{}255&fromdate=18446744073709551615&todate=18446744073709551615&tagged=t",
            QUESTIONS
        )
    );
}

#[test]
fn url_does_not_escape_the_tag_or_the_key() {
    let key = Some(String::from("a&b=c"));
    let url = get_url(1, 2, "c++;c#", 3, &key);
    assert!(url.ends_with("&tagged=c++;c#&key=a&b=c"));
}

#[test]
fn url_with_empty_key_still_names_it() {
    let url = get_url(1, 2, "x", 3, &Some(String::new()));
    assert!(url.ends_with("&tagged=x&key="));
}

#[test]
fn decimal_of_small_and_large_numbers() {
    assert_eq!(decimal_string(0), "0");
    assert_eq!(decimal_string(7), "7");
    assert_eq!(decimal_string(10), "10");
    assert_eq!(decimal_string(109), "109");
    assert_eq!(decimal_string(1_234_567_890), "1234567890");
    assert_eq!(decimal_string(u64::MAX), "18446744073709551615");
}

#[test]
fn decimal_agrees_with_the_standard_rendering() {
    let mut n: u64 = 1;
    for _ in 0..64 {
        assert_eq!(decimal_string(n), n.to_string());
        assert_eq!(decimal_string(n - 1), (n - 1).to_string());
        n = n.wrapping_mul(2);
    }
}
