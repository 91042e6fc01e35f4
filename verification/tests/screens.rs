//! Tests for display identifiers, the pixel sampler guard, and colors.

use auto::color::{Rgb, INVALID_COLOR_REF};
use auto::mouse::{Coord, Location};
use auto::screen::{CaptureRequest, Colors, Display};

fn loc(x: f64, y: f64) -> Location {
    Location { x: Coord { bits: x.to_bits() }, y: Coord { bits: y.to_bits() } }
}

#[test]
fn capture_guard_non_finite() {
    // A NaN or infinite coordinate asks for no capture and yields no
    // color, whichever coordinate carries it.
    let display = Display(1);
    assert_eq!(display.capture_request(loc(f64::NAN, 0.0)), None);
    assert_eq!(display.capture_request(loc(f64::INFINITY, f64::INFINITY)), None);
    assert_eq!(display.capture_request(loc(0.0, f64::NAN)), None);
    assert_eq!(display.capture_request(loc(f64::NEG_INFINITY, 1.0)), None);
}

#[test]
fn capture_finite_requests_the_position() {
    let display = Display(3);
    let p = loc(12.0, 34.0);
    assert_eq!(
        display.capture_request(p),
        Some(CaptureRequest { display, pos: p })
    );
}

#[test]
fn colors_sampler_follows_its_position() {
    // The sampler re-reads its position on every advance, so a caller may
    // move `pos` between advances without building a new sampler.
    let mut sampler = Colors::new(Display(2), loc(1.0, 1.0));
    assert_eq!(
        sampler.capture_request(),
        Some(CaptureRequest { display: Display(2), pos: loc(1.0, 1.0) })
    );
    sampler.pos = loc(5.0, 6.0);
    assert_eq!(
        sampler.capture_request(),
        Some(CaptureRequest { display: Display(2), pos: loc(5.0, 6.0) })
    );
    sampler.pos = loc(f64::NAN, 6.0);
    assert_eq!(sampler.capture_request(), None);
}

#[test]
fn colors_samplers_are_independent() {
    let display = Display(4);
    let one = display.colors(loc(0.0, 0.0));
    let mut other = display.colors(loc(0.0, 0.0));
    other.pos = loc(9.0, 9.0);
    assert_eq!(
        one.capture_request(),
        Some(CaptureRequest { display, pos: loc(0.0, 0.0) })
    );
    assert_eq!(
        other.capture_request(),
        Some(CaptureRequest { display, pos: loc(9.0, 9.0) })
    );
}

#[test]
fn normalize_keeps_byte_channels() {
    let mut c = Rgb { red: 10, green: 200, blue: 255 };
    c.normalize();
    assert_eq!(c, Rgb { red: 10, green: 200, blue: 255 });
}

#[test]
fn color_ref_components() {
    // 0x00BBGGRR: blue 0xC0, green 0x80, red 0x40.
    let c = Rgb::from_color_ref(0x00C0_8040).unwrap();
    assert_eq!(c, Rgb { red: 0x40, green: 0x80, blue: 0xC0 });
    assert_eq!(
        Rgb::from_color_ref(0),
        Some(Rgb { red: 0, green: 0, blue: 0 })
    );
}

#[test]
fn color_ref_invalid_word() {
    assert_eq!(Rgb::from_color_ref(INVALID_COLOR_REF), None);
    assert_eq!(INVALID_COLOR_REF, 0xFFFF_FFFF);
}
