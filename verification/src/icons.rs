//! Phosphor icon glyphs used in messages. Each glyph is a constant of the
//! `egui-phosphor` crate; its value is the single private-use code point that
//! the crate's code point table assigns to it.
use vstd::prelude::*;

verus! {

/// `egui_phosphor::regular::FILE_PLUS`: the crate's table defines it as the one-character
/// string U+E236; nothing else is claimed.
#[verifier::external_body]
pub(crate) fn add_file() -> (r: &'static str)
    ensures
        r@ == seq!['\u{E236}'],
{
    egui_phosphor::regular::FILE_PLUS
}

/// `egui_phosphor::regular::FOLDER_PLUS`: the crate's table defines it as the one-character
/// string U+E258; nothing else is claimed.
#[verifier::external_body]
pub(crate) fn add_folder() -> (r: &'static str)
    ensures
        r@ == seq!['\u{E258}'],
{
    egui_phosphor::regular::FOLDER_PLUS
}

/// `egui_phosphor::regular::ARROW_DOWN`: the crate's table defines it as the one-character
/// string U+E03E; nothing else is claimed.
#[verifier::external_body]
pub(crate) fn arrow_down() -> (r: &'static str)
    ensures
        r@ == seq!['\u{E03E}'],
{
    egui_phosphor::regular::ARROW_DOWN
}

/// `egui_phosphor::regular::ARROW_UP`: the crate's table defines it as the one-character
/// string U+E08E; nothing else is claimed.
#[verifier::external_body]
pub(crate) fn arrow_up() -> (r: &'static str)
    ensures
        r@ == seq!['\u{E08E}'],
{
    egui_phosphor::regular::ARROW_UP
}

/// `egui_phosphor::regular::CHECK`: the crate's table defines it as the one-character
/// string U+E182; nothing else is claimed.
#[verifier::external_body]
pub(crate) fn check() -> (r: &'static str)
    ensures
        r@ == seq!['\u{E182}'],
{
    egui_phosphor::regular::CHECK
}

/// `egui_phosphor::regular::X`: the crate's table defines it as the one-character
/// string U+E4F6; nothing else is claimed.
#[verifier::external_body]
pub(crate) fn close() -> (r: &'static str)
    ensures
        r@ == seq!['\u{E4F6}'],
{
    egui_phosphor::regular::X
}

/// `egui_phosphor::regular::CLOUD`: the crate's table defines it as the one-character
/// string U+E1AA; nothing else is claimed.
#[verifier::external_body]
pub(crate) fn cloud() -> (r: &'static str)
    ensures
        r@ == seq!['\u{E1AA}'],
{
    egui_phosphor::regular::CLOUD
}

/// `egui_phosphor::regular::CLOUD_ARROW_UP`: the crate's table defines it as the one-character
/// string U+E1AE; nothing else is claimed.
#[verifier::external_body]
pub(crate) fn cloud_upload() -> (r: &'static str)
    ensures
        r@ == seq!['\u{E1AE}'],
{
    egui_phosphor::regular::CLOUD_ARROW_UP
}

/// `egui_phosphor::regular::DOWNLOAD_SIMPLE`: the crate's table defines it as the one-character
/// string U+E20C; nothing else is claimed.
#[verifier::external_body]
pub(crate) fn download() -> (r: &'static str)
    ensures
        r@ == seq!['\u{E20C}'],
{
    egui_phosphor::regular::DOWNLOAD_SIMPLE
}

/// `egui_phosphor::regular::X_CIRCLE`: the crate's table defines it as the one-character
/// string U+E4F8; nothing else is claimed.
#[verifier::external_body]
pub(crate) fn error() -> (r: &'static str)
    ensures
        r@ == seq!['\u{E4F8}'],
{
    egui_phosphor::regular::X_CIRCLE
}

/// `egui_phosphor::regular::FILE`: the crate's table defines it as the one-character
/// string U+E230; nothing else is claimed.
#[verifier::external_body]
pub(crate) fn file() -> (r: &'static str)
    ensures
        r@ == seq!['\u{E230}'],
{
    egui_phosphor::regular::FILE
}

/// `egui_phosphor::regular::GEAR`: the crate's table defines it as the one-character
/// string U+E270; nothing else is claimed.
#[verifier::external_body]
pub(crate) fn gear() -> (r: &'static str)
    ensures
        r@ == seq!['\u{E270}'],
{
    egui_phosphor::regular::GEAR
}

/// `egui_phosphor::regular::GLOBE`: the crate's table defines it as the one-character
/// string U+E288; nothing else is claimed.
#[verifier::external_body]
pub(crate) fn globe() -> (r: &'static str)
    ensures
        r@ == seq!['\u{E288}'],
{
    egui_phosphor::regular::GLOBE
}

/// `egui_phosphor::regular::HOURGLASS`: the crate's table defines it as the one-character
/// string U+E2B2; nothing else is claimed.
#[verifier::external_body]
pub(crate) fn hourglass() -> (r: &'static str)
    ensures
        r@ == seq!['\u{E2B2}'],
{
    egui_phosphor::regular::HOURGLASS
}

/// `egui_phosphor::regular::QUESTION`: the crate's table defines it as the one-character
/// string U+E3E8; nothing else is claimed.
#[verifier::external_body]
pub(crate) fn question() -> (r: &'static str)
    ensures
        r@ == seq!['\u{E3E8}'],
{
    egui_phosphor::regular::QUESTION
}

/// `egui_phosphor::regular::ARROWS_CLOCKWISE`: the crate's table defines it as the one-character
/// string U+E094; nothing else is claimed.
#[verifier::external_body]
pub(crate) fn refresh() -> (r: &'static str)
    ensures
        r@ == seq!['\u{E094}'],
{
    egui_phosphor::regular::ARROWS_CLOCKWISE
}

/// `egui_phosphor::regular::ROCKET`: the crate's table defines it as the one-character
/// string U+E3FC; nothing else is claimed.
#[verifier::external_body]
pub(crate) fn rocket() -> (r: &'static str)
    ensures
        r@ == seq!['\u{E3FC}'],
{
    egui_phosphor::regular::ROCKET
}

/// `egui_phosphor::regular::CIRCLE_NOTCH`: the crate's table defines it as the one-character
/// string U+EB44; nothing else is claimed.
#[verifier::external_body]
pub(crate) fn spinner() -> (r: &'static str)
    ensures
        r@ == seq!['\u{EB44}'],
{
    egui_phosphor::regular::CIRCLE_NOTCH
}

/// `egui_phosphor::regular::UPLOAD_SIMPLE`: the crate's table defines it as the one-character
/// string U+E4C0; nothing else is claimed.
#[verifier::external_body]
pub(crate) fn upload() -> (r: &'static str)
    ensures
        r@ == seq!['\u{E4C0}'],
{
    egui_phosphor::regular::UPLOAD_SIMPLE
}

/// `egui_phosphor::regular::WARNING`: the crate's table defines it as the one-character
/// string U+E4E0; nothing else is claimed.
#[verifier::external_body]
pub(crate) fn warning() -> (r: &'static str)
    ensures
        r@ == seq!['\u{E4E0}'],
{
    egui_phosphor::regular::WARNING
}

} // verus!
