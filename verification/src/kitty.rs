//! Pictures and the formats they come in.

use vstd::prelude::*;
use vstd::string::StringSliceAdditionalSpecFns;
use crate::text::{ends_with, has_suffix};

verus! {

/// A path in the file system, as the standard library holds it.  The crate
/// hands paths through and never looks into one.
#[verifier::external_type_specification]
#[verifier::external_body]
pub struct ExPath(std::path::Path);

/// The picture formats that are told apart.
#[derive(Debug, Clone, Copy, PartialEq, Eq)]
pub enum Images {
    JPEG,
    PNG,
}

/// The ending of a PNG file's name: `.png`.
pub open spec fn png_ending() -> Seq<u8> {
    seq![0x2eu8, 0x70u8, 0x6eu8, 0x67u8]
}

/// The format that a file of this name is taken to have: PNG where the name
/// ends in `.png`, written so, and JPEG else.
pub open spec fn format_of(name: Seq<u8>) -> Images {
    if ends_with(name, png_ending()) {
        Images::PNG
    } else {
        Images::JPEG
    }
}

/// Tells the format of a picture by the name of its file.
pub fn image_format(name: &str) -> (format: Images)
    ensures
        format == format_of(name.spec_bytes()),
{
    let ending: Vec<u8> = vec![0x2eu8, 0x70u8, 0x6eu8, 0x67u8];
    assert(ending@ =~= png_ending());
    if has_suffix(name.as_bytes(), ending.as_slice()) {
        Images::PNG
    } else {
        Images::JPEG
    }
}

/// Prints a PNG picture.  Drawing is not part of this crate yet: nothing is
/// written.
pub fn print_png() {
}

/// Prints the picture at `path`.  Only PNG pictures can be printed.
pub fn print_image(i: Images, path: &std::path::Path) -> (printed: Result<(), String>)
    requires
        i == Images::PNG,
    ensures
        printed == Ok::<(), String>(()),
{
    match i {
        Images::PNG => {
            print_png();
        },
        Images::JPEG => {},
    }
    Ok(())
}

} // verus!
