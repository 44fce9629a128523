//! The debug overlay's look: a colour theme and interaction flags.
//!
//! The overlay itself is an immediate-mode UI drawn by unverified plumbing;
//! this module only decides its configuration.  Channels are in hundredths,
//! so 100 is full intensity, and the interpreter divides by 100 when it
//! hands the theme over.

use vstd::prelude::*;

verus! {

/// One theme colour, channels in hundredths of full intensity.
#[derive(Clone, Copy, PartialEq, Eq, Structural, Debug)]
pub struct StyleColor {
    pub r: u8,
    pub g: u8,
    pub b: u8,
    pub a: u8,
}

/// The overlay configuration: the colour table in the overlay library's
/// slot order, corner rounding, the font size and docking behaviour.
pub struct UiStyle {
    pub colors: Vec<StyleColor>,
    pub frame_rounding: u8,
    pub grab_rounding: u8,
    pub font_size_px: u8,
    pub docking_with_shift: bool,
    pub docking_always_tab_bar: bool,
    pub docking_enable: bool,
}

/// Builds the overlay configuration: a dark theme of 48 slot colours with
/// every channel a valid hundredth, the separator matching the border,
/// matching frame and grab rounding, and docking enabled.
#[verifier::rlimit(60)]
pub fn imgui_init() -> (style: UiStyle)
    ensures
        style.colors@.len() == 48,
        forall|i: int|
            0 <= i < 48 ==> (#[trigger] style.colors@[i]).r <= 100 && style.colors@[i].g <= 100
                && style.colors@[i].b <= 100 && style.colors@[i].a <= 100,
        style.colors@[0] == (StyleColor { r: 100, g: 100, b: 100, a: 100 }),
        style.colors@[27] == style.colors@[5],
        style.grab_rounding == style.frame_rounding,
        style.frame_rounding == 32,
        style.font_size_px == 14,
        style.docking_with_shift,
        style.docking_always_tab_bar,
        style.docking_enable,
{
    let mut colors: Vec<StyleColor> = Vec::new();
    colors.push(StyleColor { r: 100, g: 100, b: 100, a: 100 });  // text
    colors.push(StyleColor { r: 50, g: 50, b: 50, a: 100 });  // text, disabled
    colors.push(StyleColor { r: 13, g: 14, b: 15, a: 100 });  // window background
    colors.push(StyleColor { r: 13, g: 14, b: 15, a: 100 });  // child background
    colors.push(StyleColor { r: 13, g: 14, b: 15, a: 100 });  // popup background
    colors.push(StyleColor { r: 43, g: 43, b: 50, a: 50 });  // border
    colors.push(StyleColor { r: 0, g: 0, b: 0, a: 0 });  // border shadow
    colors.push(StyleColor { r: 25, g: 25, b: 25, a: 100 });  // frame background
    colors.push(StyleColor { r: 38, g: 38, b: 38, a: 100 });  // frame background, hovered
    colors.push(StyleColor { r: 67, g: 67, b: 67, a: 39 });  // frame background, active
    colors.push(StyleColor { r: 8, g: 8, b: 9, a: 100 });  // title background
    colors.push(StyleColor { r: 8, g: 8, b: 9, a: 100 });  // title background, active
    colors.push(StyleColor { r: 0, g: 0, b: 0, a: 51 });  // title background, collapsed
    colors.push(StyleColor { r: 14, g: 14, b: 14, a: 100 });  // menu bar background
    colors.push(StyleColor { r: 2, g: 2, b: 2, a: 53 });  // scrollbar background
    colors.push(StyleColor { r: 31, g: 31, b: 31, a: 100 });  // scrollbar grab
    colors.push(StyleColor { r: 41, g: 41, b: 41, a: 100 });  // scrollbar grab, hovered
    colors.push(StyleColor { r: 51, g: 51, b: 51, a: 100 });  // scrollbar grab, active
    colors.push(StyleColor { r: 11, g: 64, b: 92, a: 100 });  // check mark
    colors.push(StyleColor { r: 11, g: 64, b: 92, a: 100 });  // slider grab
    colors.push(StyleColor { r: 8, g: 50, b: 72, a: 100 });  // slider grab, active
    colors.push(StyleColor { r: 25, g: 25, b: 25, a: 100 });  // button
    colors.push(StyleColor { r: 38, g: 38, b: 38, a: 100 });  // button, hovered
    colors.push(StyleColor { r: 67, g: 67, b: 67, a: 39 });  // button, active
    colors.push(StyleColor { r: 22, g: 22, b: 22, a: 100 });  // header
    colors.push(StyleColor { r: 25, g: 25, b: 25, a: 100 });  // header, hovered
    colors.push(StyleColor { r: 67, g: 67, b: 67, a: 39 });  // header, active
    colors.push(StyleColor { r: 43, g: 43, b: 50, a: 50 });  // separator, as the border
    colors.push(StyleColor { r: 41, g: 42, b: 44, a: 100 });  // separator, hovered
    colors.push(StyleColor { r: 26, g: 59, b: 98, a: 95 });  // separator, active
    colors.push(StyleColor { r: 0, g: 0, b: 0, a: 0 });  // resize grip
    colors.push(StyleColor { r: 29, g: 30, b: 31, a: 67 });  // resize grip, hovered
    colors.push(StyleColor { r: 26, g: 59, b: 98, a: 95 });  // resize grip, active
    colors.push(StyleColor { r: 8, g: 8, b: 9, a: 83 });  // tab
    colors.push(StyleColor { r: 33, g: 34, b: 36, a: 83 });  // tab, hovered
    colors.push(StyleColor { r: 23, g: 23, b: 24, a: 100 });  // tab, active
    colors.push(StyleColor { r: 8, g: 8, b: 9, a: 100 });  // tab, unfocused
    colors.push(StyleColor { r: 13, g: 14, b: 15, a: 100 });  // tab, unfocused and active
    colors.push(StyleColor { r: 61, g: 61, b: 61, a: 100 });  // plot lines
    colors.push(StyleColor { r: 100, g: 43, b: 35, a: 100 });  // plot lines, hovered
    colors.push(StyleColor { r: 90, g: 70, b: 0, a: 100 });  // plot histogram
    colors.push(StyleColor { r: 100, g: 60, b: 0, a: 100 });  // plot histogram, hovered
    colors.push(StyleColor { r: 26, g: 59, b: 98, a: 35 });  // selected text background
    colors.push(StyleColor { r: 11, g: 64, b: 92, a: 100 });  // drag and drop target
    colors.push(StyleColor { r: 26, g: 59, b: 98, a: 100 });  // navigation highlight
    colors.push(StyleColor { r: 100, g: 100, b: 100, a: 70 });  // windowing highlight
    colors.push(StyleColor { r: 80, g: 80, b: 80, a: 20 });  // windowing dim
    colors.push(StyleColor { r: 80, g: 80, b: 80, a: 35 });  // modal dim
    UiStyle {
        colors,
        frame_rounding: 32,
        grab_rounding: 32,
        font_size_px: 14,
        docking_with_shift: true,
        docking_always_tab_bar: true,
        docking_enable: true,
    }
}

} // verus!
