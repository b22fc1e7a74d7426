//! An interactive line-filtering engine: a block of text is split into
//! lines, and a stream of commands (typed characters, backspace, cursor
//! moves, a mode toggle, confirm, cancel) narrows those lines down to one
//! selection, matching either by literal substring or by regular
//! expression. The caller owns the event loop and the drawing surface;
//! the engine owns every decision in between.

use vstd::prelude::*;

pub mod engine;
pub mod input;
pub mod lines;
pub mod matcher;
pub mod pattern;
pub mod render;

verus! {

#[verifier::external_type_specification]
#[verifier::external_body]
pub struct ExIoError(std::io::Error);

/// Relies on `std::io::Read::read_to_string`: reads the source to its
/// end, appending what it held to `buf`. What arrives depends on the
/// source, so on success only the appending itself is promised; on
/// failure the documentation leaves `buf` unspecified.
#[verifier::external_body]
fn read_to_string_from<R: std::io::Read>(r: &mut R, buf: &mut String) -> (res: Result<
    usize,
    std::io::Error,
>)
    ensures
        res is Ok ==> final(buf)@.len() >= old(buf)@.len() && final(buf)@.subrange(
            0,
            old(buf)@.len() as int,
        ) == old(buf)@,
{
    r.read_to_string(buf)
}

/// Read a whole source into one string: everything it holds until its
/// end, or the first read error.
pub fn read_all<R: std::io::Read>(r: R) -> Result<String, std::io::Error> {
    let mut r = r;
    let mut c = String::new();
    match read_to_string_from(&mut r, &mut c) {
        Ok(_) => Ok(c),
        Err(e) => Err(e),
    }
}

} // verus!
