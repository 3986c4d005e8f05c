use vstd::prelude::*;
use egui::Color32;
use crate::status::TimerStatus;

verus! {

#[verifier::external_type_specification]
#[verifier::external_body]
pub struct ExColor32(Color32);

/// The red, green, blue and alpha bytes that an egui color holds.
pub uninterp spec fn color32_channels(c: Color32) -> Seq<u8>;

/// Relies on egui's `Color32::from_rgb`, which builds the opaque color
/// `[r, g, b, 255]`.
#[verifier::external_body]
fn color32_from_rgb(r: u8, g: u8, b: u8) -> (c: Color32)
    ensures
        color32_channels(c) == seq![r, g, b, 255u8],
{
    Color32::from_rgb(r, g, b)
}

/// Red while a work round runs, green while stopped or on a break; both
/// opaque.
pub open spec fn status_channels(status: TimerStatus) -> Seq<u8> {
    match status {
        TimerStatus::Running(_) => seq![158u8, 42u8, 43u8, 255u8],
        _ => seq![64u8, 145u8, 108u8, 255u8],
    }
}

/// The panel color for the current phase: red during a work round, green
/// otherwise.
pub fn get_color_for_timer_status(status: &TimerStatus) -> (c: Color32)
    ensures
        color32_channels(c) == status_channels(*status),
{
    match status {
        TimerStatus::Running(_) => color32_from_rgb(158, 42, 43),
        _ => color32_from_rgb(64, 145, 108),
    }
}

} // verus!
