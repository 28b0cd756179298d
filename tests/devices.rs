use kaesar_core::battery::Status;
use kaesar_core::peripherals::set_wifi_perm;
use kaesar_core::text::{same_text, starts_with};
use kaesar_core::colour::Colour;
use kaesar_core::document::djvulibre_sys::JobStatus;
use kaesar_core::document::mupdf_sys::FzTextOptionsEnum;
use kaesar_core::framebuffer::transform::{
    g16_drift, g2_drift, transform_dither_g16, transform_dither_g2, transform_identity,
};
use kaesar_core::geom::{mm_to_px, vec_diag_dir, vec_dir, vec_is_axis_aligned, DiagDir, Dir, LinearDir};
use kaesar_core::input::{
    resolve_button_direction, timestamp_us, usb_event, DeviceEvent, PowerSource, ButtonCode, ButtonScheme, ButtonStatus, KEY_BACKWARD, KEY_FORWARD,
    KEY_HOME, KEY_POWER, PEN_ERASE,
};

#[test]
fn button_status_from_raw_values() {
    assert_eq!(ButtonStatus::try_from_raw(0), Some(ButtonStatus::Released));
    assert_eq!(ButtonStatus::try_from_raw(1), Some(ButtonStatus::Pressed));
    assert_eq!(ButtonStatus::try_from_raw(2), Some(ButtonStatus::Repeated));
    assert_eq!(ButtonStatus::try_from_raw(3), None);
    assert_eq!(ButtonStatus::try_from_raw(-1), None);
}

#[test]
fn button_codes_from_raw_codes() {
    assert_eq!(ButtonCode::from_raw(KEY_POWER, false, ButtonScheme::Natural), ButtonCode::Power);
    assert_eq!(ButtonCode::from_raw(KEY_HOME, true, ButtonScheme::Inverted), ButtonCode::Home);
    assert_eq!(ButtonCode::from_raw(PEN_ERASE, false, ButtonScheme::Natural), ButtonCode::Erase);
    assert_eq!(ButtonCode::from_raw(42, false, ButtonScheme::Natural), ButtonCode::Raw(42));
    assert_eq!(ButtonCode::from_raw(KEY_FORWARD, false, ButtonScheme::Natural), ButtonCode::Forward);
    assert_eq!(ButtonCode::from_raw(KEY_FORWARD, true, ButtonScheme::Natural), ButtonCode::Backward);
    assert_eq!(ButtonCode::from_raw(KEY_FORWARD, false, ButtonScheme::Inverted), ButtonCode::Backward);
    assert_eq!(ButtonCode::from_raw(KEY_BACKWARD, true, ButtonScheme::Inverted), ButtonCode::Backward);
    assert_eq!(
        resolve_button_direction(LinearDir::Backward, true, ButtonScheme::Natural),
        ButtonCode::Forward
    );
}

#[test]
fn battery_status_from_driver_text() {
    assert_eq!(Status::from("Discharging\n"), Status::Discharging);
    assert_eq!(Status::from("Charging"), Status::Charging);
    assert_eq!(Status::from("Charged"), Status::Charged);
    assert_eq!(Status::from("Not Charging"), Status::Charged);
    assert_eq!(Status::from("Full"), Status::Charged);
    assert_eq!(Status::from("Fu"), Status::Unknown);
    assert_eq!(Status::from(""), Status::Unknown);
    assert!(Status::Charging.is_wired());
    assert!(Status::Charged.is_wired());
    assert!(!Status::Discharging.is_wired());
    assert!(!Status::Unknown.is_wired());
}

#[test]
fn colour_levels() {
    assert_eq!(Colour::Grey(0x42).grey(), 0x42);
    assert_eq!(Colour::Rgb(255, 255, 255).grey(), 255);
    assert_eq!(Colour::Rgb(200, 100, 50).grey(), 117);
    assert_eq!(Colour::Grey(9).rgb(), [9, 9, 9]);
    assert_eq!(Colour::Rgb(1, 2, 3).rgb(), [1, 2, 3]);
    assert_eq!(Colour::from_rgb(&[4, 5, 6, 7]), Colour::Rgb(4, 5, 6));
    assert_eq!(Colour::Rgb(1, 2, 3).apply(|v| v * 2), Colour::Rgb(2, 4, 6));
    assert_eq!(Colour::Grey(10).apply(|v| v + 1), Colour::Grey(11));
}

#[test]
fn colour_invert_and_shift() {
    let mut c = Colour::Rgb(0, 100, 255);
    c.invert();
    assert_eq!(c, Colour::Rgb(255, 155, 0));
    c.shift(160);
    assert_eq!(c, Colour::Rgb(95, 0, 0));
    let mut g = Colour::Grey(30);
    g.invert();
    assert_eq!(g, Colour::Grey(225));
    g.shift(25);
    assert_eq!(g, Colour::Grey(200));
}

#[test]
fn dither_drifts() {
    assert_eq!(g16_drift(0), -8);
    assert_eq!(g16_drift(119), -1);
    assert_eq!(g16_drift(120), 0);
    assert_eq!(g16_drift(121), 0);
    assert_eq!(g16_drift(255), 8);
    assert_eq!(g2_drift(0), -128);
    assert_eq!(g2_drift(127), -1);
    assert_eq!(g2_drift(128), 0);
    assert_eq!(g2_drift(255), 127);
}

#[test]
fn dithering_to_sixteen_and_two_levels() {
    let mut drifts = vec![0i8; 128 * 128];
    drifts[5 + 3 * 128] = 8;
    drifts[6 + 3 * 128] = -128;
    assert_eq!(transform_dither_g16(0, 0, Colour::Grey(25), &drifts), Colour::Grey(17));
    assert_eq!(transform_dither_g16(0, 0, Colour::Grey(26), &drifts), Colour::Grey(34));
    // The tile repeats every 128 pixels.
    assert_eq!(transform_dither_g16(133, 259, Colour::Grey(20), &drifts), Colour::Grey(34));
    assert_eq!(transform_dither_g16(0, 0, Colour::Grey(255), &drifts), Colour::Grey(255));
    assert_eq!(transform_dither_g2(0, 0, Colour::Grey(127), &drifts), Colour::Grey(0));
    assert_eq!(transform_dither_g2(0, 0, Colour::Grey(128), &drifts), Colour::Grey(255));
    assert_eq!(transform_dither_g2(6, 3, Colour::Grey(200), &drifts), Colour::Grey(0));
    assert_eq!(transform_identity(1, 2, Colour::Rgb(1, 2, 3)), Colour::Rgb(1, 2, 3));
}

#[test]
fn directions_of_vectors() {
    assert_eq!(vec_dir(5, -3), Dir::Right);
    assert_eq!(vec_dir(-5, 3), Dir::Left);
    assert_eq!(vec_dir(3, 3), Dir::Down);
    assert_eq!(vec_dir(0, -1), Dir::Up);
    assert_eq!(vec_diag_dir(-1, -1), DiagDir::UpLeft);
    assert_eq!(vec_diag_dir(1, -1), DiagDir::UpRight);
    assert_eq!(vec_diag_dir(-1, 0), DiagDir::DownLeft);
    assert!(vec_is_axis_aligned(5, 2));
    assert!(!vec_is_axis_aligned(4, 2));
    assert!(!vec_is_axis_aligned(0, 0));
    assert_eq!(Dir::Left.opposite(), Dir::Right);
    assert_eq!(DiagDir::UpRight.opposite(), DiagDir::DownLeft);
}

#[test]
fn millimetres_to_pixels() {
    assert_eq!(mm_to_px(4, 300), 47);
    assert_eq!(mm_to_px(2, 167), 13);
    assert_eq!(mm_to_px(254, 100), 1000);
    assert_eq!(mm_to_px(0, 300), 0);
}

#[test]
fn document_codes() {
    assert!(JobStatus::DDJVU_JOB_FAILED.is_finished());
    assert!(!JobStatus::DDJVU_JOB_STARTED.is_finished());
    assert_eq!(FzTextOptionsEnum::FZ_STEXT_DEHYPHENATE.bit(), 16);
    assert_eq!(FzTextOptionsEnum::FZ_STEXT_PRESERVE_LIGATURES.bit(), 1);
}

#[test]
fn usb_status_lines() {
    assert_eq!(usb_event("usb plug add"), Some(DeviceEvent::Plug(PowerSource::Host)));
    assert_eq!(usb_event("usb plug remove"), Some(DeviceEvent::Unplug(PowerSource::Host)));
    assert_eq!(usb_event("usb ac add"), Some(DeviceEvent::Plug(PowerSource::Wall)));
    assert_eq!(usb_event("usb ac remove"), Some(DeviceEvent::Unplug(PowerSource::Wall)));
    assert_eq!(usb_event("network bound wlan0"), Some(DeviceEvent::NetUp));
    assert_eq!(usb_event("usb plug add "), None);
    assert_eq!(usb_event("usb"), None);
    assert_eq!(usb_event(""), None);
}

#[test]
fn power_cover_codes() {
    assert_eq!(Status::from_cover_code(0), Status::Discharging);
    assert_eq!(Status::from_cover_code(1), Status::Unknown);
    assert_eq!(Status::from_cover_code(2), Status::Charging);
    assert_eq!(Status::from_cover_code(3), Status::Charged);
    assert_eq!(Status::from_cover_code(-1), Status::Unknown);
}

#[test]
fn text_comparisons() {
    assert!(starts_with("Charging now", "Charging"));
    assert!(!starts_with("Charg", "Charging"));
    assert!(starts_with("abc", ""));
    assert!(same_text("abc", "abc"));
    assert!(!same_text("abc", "abd"));
    assert!(!same_text("abc", "ab"));
}

#[test]
fn kernel_timestamps_in_microseconds() {
    assert_eq!(timestamp_us(0, 0), 0);
    assert_eq!(timestamp_us(12, 345_678), 12_345_678);
}

#[test]
fn wifi_choice_is_recorded_once() {
    let (mut wifi, mut online) = (true, true);
    assert!(!set_wifi_perm(true, &mut wifi, &mut online));
    assert!(wifi && online);
    assert!(set_wifi_perm(false, &mut wifi, &mut online));
    assert!(!wifi && !online);
    assert!(set_wifi_perm(true, &mut wifi, &mut online));
    assert!(wifi && !online);
}
