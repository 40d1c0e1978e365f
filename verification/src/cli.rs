//! The command line and the choice of the tray icon.
use vstd::prelude::*;
use crate::text::str_eq;

verus! {

/// Whether the first argument after the program's name asks for the version.
pub open spec fn asks_for_version(args: Seq<Seq<char>>) -> bool {
    args.len() > 1 && (args[1] == "--version"@ || args[1] == "-v"@)
}

/// Whether the command line (program name first) asks only for the version.
pub fn wants_version(args: &Vec<String>) -> (r: bool)
    ensures
        r == asks_for_version(args.deep_view()),
{
    if args.len() > 1 {
        let first = args[1].as_str();
        str_eq(first, "--version") || str_eq(first, "-v")
    } else {
        false
    }
}

/// The tray icon: the ICO image on Windows, the PNG image elsewhere.
pub fn select_main_icon(is_windows: bool, png: &[u8], ico: &[u8]) -> (r: Vec<u8>)
    ensures
        r@ == (if is_windows {
            ico@
        } else {
            png@
        }),
{
    if is_windows {
        vstd::slice::slice_to_vec(ico)
    } else {
        vstd::slice::slice_to_vec(png)
    }
}

} // verus!
