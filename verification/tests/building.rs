use regmail::alias::derive_alias;
use regmail::alias::padded_index;
use regmail::auth::xoauth2_response;
use regmail::cycle::is_logged_in;
use regmail::cycle::next_step;
use regmail::cycle::resolve_step;
use regmail::cycle::CycleStep;
use regmail::errors::CycleError;

fn bv(s: &str) -> Vec<u8> {
    s.as_bytes().to_vec()
}

#[test]
fn padded_index_pads_to_three_digits() {
    assert_eq!(padded_index(0), bv("000"));
    assert_eq!(padded_index(5), bv("005"));
    assert_eq!(padded_index(42), bv("042"));
    assert_eq!(padded_index(123), bv("123"));
    assert_eq!(padded_index(1234), bv("1234"));
}

#[test]
fn derive_alias_builds_plus_address() {
    assert_eq!(derive_alias(&bv("alice"), &bv("suffix"), 5), bv("alice+suffix005@gmail.com"));
    assert_eq!(derive_alias(&bv("bob"), &bv("run"), 1000), bv("bob+run1000@gmail.com"));
}

#[test]
fn xoauth2_response_has_fixed_shape() {
    let got = xoauth2_response(&bv("alice@gmail.com"), &bv("tok123"));
    assert_eq!(got, bv("user=alice@gmail.com\u{1}auth=Bearer tok123\u{1}\u{1}"));
}

#[test]
fn logged_in_is_detected_from_class_attribute() {
    assert!(is_logged_in(&Some(bv("btn_logout"))));
    assert!(!is_logged_in(&Some(bv("btn_login"))));
    assert!(!is_logged_in(&Some(bv(""))));
    assert!(!is_logged_in(&None));
}

#[test]
fn cycle_steps_run_in_fixed_order() {
    let expected = [
        CycleStep::Landing,
        CycleStep::SessionReset,
        CycleStep::FormOpen,
        CycleStep::FormFill,
        CycleStep::BaselineCapture,
        CycleStep::Submit,
        CycleStep::CodeWait,
        CycleStep::CodeSubmit,
        CycleStep::PostRegisterLogin,
        CycleStep::PostLoginAction,
        CycleStep::Done,
    ];
    let mut s = CycleStep::Landing;
    let mut walked = vec![s];
    while s != CycleStep::Done {
        s = next_step(s);
        walked.push(s);
    }
    assert_eq!(walked, expected);
    assert_eq!(next_step(CycleStep::Done), CycleStep::Done);
}

#[test]
fn failed_step_is_fatal_to_the_cycle() {
    assert_eq!(resolve_step(CycleStep::Landing, true), Ok(CycleStep::SessionReset));
    assert_eq!(resolve_step(CycleStep::FormFill, false), Err(CycleError::UiStructure));
}
