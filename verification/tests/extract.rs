use regmail::codes::extract_code;

fn bv(s: &str) -> Vec<u8> {
    s.as_bytes().to_vec()
}

#[test]
fn extract_finds_six_digit_span() {
    let body = bv("prefix eaeaea style=\"x\">482913</span> suffix");
    assert_eq!(extract_code(&body), Some(bv("482913")));
}

#[test]
fn extract_none_on_empty_body() {
    assert_eq!(extract_code(&bv("")), None);
}

#[test]
fn extract_none_without_marker() {
    assert_eq!(extract_code(&bv("nothing here, just >123456</span> noise")), None);
}

#[test]
fn extract_none_on_seven_digit_run() {
    assert_eq!(extract_code(&bv("eaeaea x>1234567</span>")), None);
}

#[test]
fn extract_none_on_five_digit_run() {
    assert_eq!(extract_code(&bv("eaeaea x>12345</span>")), None);
}

#[test]
fn extract_none_without_close_tag() {
    assert_eq!(extract_code(&bv("eaeaea x>123456</div>")), None);
}

#[test]
fn extract_none_across_line_break() {
    assert_eq!(extract_code(&bv("eaeaea\nx>123456</span>")), None);
}

#[test]
fn extract_requires_gap_after_marker() {
    assert_eq!(extract_code(&bv("eaeaea>123456</span>")), None);
}

#[test]
fn extract_greedy_takes_last_span_on_line() {
    let body = bv("eaeaea a>111111</span> b>222222</span>");
    assert_eq!(extract_code(&body), Some(bv("222222")));
}

#[test]
fn extract_skips_marker_that_cannot_complete() {
    let body = bv("eaeaea\n... eaeaea style=\"x\">345678</span>");
    assert_eq!(extract_code(&body), Some(bv("345678")));
}

#[test]
fn extract_digits_only() {
    assert_eq!(extract_code(&bv("eaeaea x>12a456</span>")), None);
}
