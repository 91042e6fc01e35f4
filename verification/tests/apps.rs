//! Tests for the application model, architectures, and activation options.

use auto::app::{App, AppRequest, Arch};
use auto::app::{ACTIVATE_ALL_WINDOWS, ACTIVATE_IGNORING_OTHER_APPS};

#[test]
fn pid_reserves_minus_one() {
    assert_eq!(App { raw_pid: -1 }.pid(), None);
    assert_eq!(App { raw_pid: 0 }.pid(), Some(0));
    assert_eq!(App { raw_pid: 4242 }.pid(), Some(4242));
}

#[test]
fn hide_and_unhide_requests() {
    let app = App { raw_pid: 100 };
    assert_eq!(app.set_hidden_request(true), AppRequest::Hide);
    assert_eq!(app.set_hidden_request(false), AppRequest::Unhide);
}

#[test]
fn terminate_requests() {
    let app = App { raw_pid: 100 };
    assert_eq!(app.terminate_request(false), AppRequest::Terminate);
    assert_eq!(app.terminate_request(true), AppRequest::ForceTerminate);
}

#[test]
fn activate_request_carries_options() {
    let app = App { raw_pid: 100 };
    let options = ACTIVATE_ALL_WINDOWS | ACTIVATE_IGNORING_OTHER_APPS;
    assert_eq!(app.activate_request(options), AppRequest::Activate { options });
    assert_eq!(app.activate_request(0), AppRequest::Activate { options: 0 });
}

#[test]
fn activation_options_are_distinct_bits() {
    assert_eq!(ACTIVATE_ALL_WINDOWS, 1 << 0);
    assert_eq!(ACTIVATE_IGNORING_OTHER_APPS, 1 << 1);
    assert_eq!(ACTIVATE_ALL_WINDOWS & ACTIVATE_IGNORING_OTHER_APPS, 0);
}

#[test]
fn arch_codes_round_trip() {
    let archs = [Arch::I386, Arch::Ppc, Arch::X86_64, Arch::Ppc64];
    for &a in &archs {
        assert_eq!(Arch::from_code(a.code()), Some(a));
    }
    assert_eq!(Arch::I386.code(), 0x0000_0007);
    assert_eq!(Arch::Ppc.code(), 0x0000_0012);
    assert_eq!(Arch::X86_64.code(), 0x0100_0007);
    assert_eq!(Arch::Ppc64.code(), 0x0100_0012);
    assert_eq!(Arch::from_code(0xDEAD_BEEF), None);
    assert_eq!(Arch::from_code(0), None);
}

#[test]
fn arch_bitness() {
    assert!(Arch::I386.is_32bit());
    assert!(Arch::Ppc.is_32bit());
    assert!(Arch::X86_64.is_64bit());
    assert!(Arch::Ppc64.is_64bit());
    assert!(!Arch::X86_64.is_32bit());
    assert!(!Arch::I386.is_64bit());
}
