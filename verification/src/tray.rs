//! The tray icon: its picture, and what clicks and menu choices do.

use crate::wide::wide_z;
use vstd::prelude::*;

verus! {

/// The title of the program's own window.
pub const WINDOW_TITLE: &'static str = "Nicotine";

/// Why there is no tray icon.
#[derive(Clone, Copy, Debug, PartialEq, Eq, Structural)]
pub enum TrayError {
    /// The picture could not be decoded.
    DecodeIcon,
}

/// A decoded picture: four bytes for each pixel, row by row.
#[derive(Debug)]
pub struct IconPixels {
    pub rgba: Vec<u8>,
    pub width: u32,
    pub height: u32,
}

/// A decoded picture with its bytes as a sequence.
pub struct PixelsView {
    pub rgba: Seq<u8>,
    pub width: u32,
    pub height: u32,
}

impl View for IconPixels {
    type V = PixelsView;

    open spec fn view(&self) -> PixelsView {
        PixelsView { rgba: self.rgba@, width: self.width, height: self.height }
    }
}

/// The picture that decoding an image file gives, `None` for bytes that are
/// no image file.
pub uninterp spec fn decoded(png: Seq<u8>) -> Option<PixelsView>;

/// Calls `eframe::icon_data::from_png_bytes`, which decodes the bytes of an
/// image file into pixels, or fails. What it gives depends on the bytes
/// alone; the reason of a failure is left out.
#[verifier::external_body]
fn from_png_bytes(png: &[u8]) -> (icon: Option<IconPixels>)
    ensures
        match icon {
            Some(icon) => decoded(png@) == Some(icon@),
            None => decoded(png@) is None,
        },
{
    match eframe::icon_data::from_png_bytes(png) {
        Ok(icon) => Some(IconPixels { rgba: icon.rgba, width: icon.width, height: icon.height }),
        Err(_) => None,
    }
}

/// The picture of the tray icon, from an image file.
pub fn decode_icon(png: &[u8]) -> (icon: Result<IconPixels, TrayError>)
    ensures
        match icon {
            Ok(icon) => decoded(png@) == Some(icon@),
            Err(e) => decoded(png@) is None && e == TrayError::DecodeIcon,
        },
{
    require_icon(from_png_bytes(png))
}

/// A picture that could not be decoded is an error.
pub fn require_icon(icon: Option<IconPixels>) -> (r: Result<IconPixels, TrayError>)
    ensures
        r == match icon {
            Some(icon) => Ok(icon),
            None => Err(TrayError::DecodeIcon),
        },
{
    match icon {
        Some(icon) => Ok(icon),
        None => Err(TrayError::DecodeIcon),
    }
}

#[derive(Clone, Copy, Debug, PartialEq, Eq, Structural)]
pub enum TrayButton {
    Left,
    Right,
    Middle,
}

/// What happened to the tray icon.
#[derive(Clone, Copy, Debug, PartialEq, Eq, Structural)]
pub enum TrayEvent {
    /// A button went down or up.
    Click { button: TrayButton, up: bool },
    DoubleClick { button: TrayButton },
    Other,
}

/// Whether the event brings the window back: the left button was released,
/// or clicked twice.
pub fn restores_window(event: &TrayEvent) -> (r: bool)
    ensures
        r == (*event == (TrayEvent::Click { button: TrayButton::Left, up: true }) || *event == (
        TrayEvent::DoubleClick { button: TrayButton::Left })),
{
    match event {
        TrayEvent::Click { button: TrayButton::Left, up } => *up,
        TrayEvent::DoubleClick { button: TrayButton::Left } => true,
        _ => false,
    }
}

/// What a menu choice does.
#[derive(Clone, Copy, Debug, PartialEq, Eq, Structural)]
pub enum MenuAction {
    ShowWindow,
    Exit,
    Ignore,
}

/// What the menu item `chosen` does, given the ids of the items to show the
/// window and to exit.
pub fn menu_action(chosen: &String, show_id: &String, exit_id: &String) -> (action: MenuAction)
    ensures
        action == if chosen@ == show_id@ {
            MenuAction::ShowWindow
        } else if chosen@ == exit_id@ {
            MenuAction::Exit
        } else {
            MenuAction::Ignore
        },
{
    if *chosen == *show_id {
        MenuAction::ShowWindow
    } else if *chosen == *exit_id {
        MenuAction::Exit
    } else {
        MenuAction::Ignore
    }
}

/// The title of the program's own window, zero-terminated, to find it by.
pub fn window_title() -> (units: Vec<u16>)
    ensures
        units@ == crate::wide::utf16(WINDOW_TITLE@).push(0),
{
    wide_z(WINDOW_TITLE)
}

/// The window that a search gave: a handle of zero is none.
pub fn find_window(handle: Option<usize>) -> (window: Option<usize>)
    ensures
        window == if handle == Some(0usize) {
            None
        } else {
            handle
        },
{
    match handle {
        Some(h) => if h != 0 {
            Some(h)
        } else {
            None
        },
        None => None,
    }
}

/// The view of a picture shows its bytes and its size.
pub proof fn law_picture_views(icon: IconPixels)
    ensures
        icon@.rgba == icon.rgba@,
        icon@.width == icon.width,
        icon@.height == icon.height,
{
}

} // verus!
