use daytona::text::{i32_to_string, join_url, u64_to_string};

#[test]
fn join_url_normalizes_slashes() {
    assert_eq!(
        join_url("https://api.example.com/", "/sandbox/1"),
        "https://api.example.com/sandbox/1"
    );
    assert_eq!(
        join_url("https://api.example.com", "sandbox/1"),
        "https://api.example.com/sandbox/1"
    );
    assert_eq!(
        join_url("https://api.example.com///", "///sandbox"),
        "https://api.example.com/sandbox"
    );
    assert_eq!(join_url("", ""), "/");
}

#[test]
fn integers_render_in_decimal() {
    assert_eq!(u64_to_string(0), "0");
    assert_eq!(u64_to_string(10), "10");
    assert_eq!(u64_to_string(18446744073709551615), "18446744073709551615");
    assert_eq!(i32_to_string(0), "0");
    assert_eq!(i32_to_string(8080), "8080");
    assert_eq!(i32_to_string(-1), "-1");
    assert_eq!(i32_to_string(i32::MAX), "2147483647");
    assert_eq!(i32_to_string(i32::MIN), "-2147483648");
}
