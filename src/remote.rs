//! Decisions of the executor that hands link creation to a companion process
//! in the host environment. Running the processes is left to the caller.
use vstd::prelude::*;
use vstd::utf8::{decode_utf8, valid_utf8};

use crate::link_error::{DuringLinkError, LinkError, LinkErrorView, OSError};
use crate::link_type::{LinkFileType, LinkHardness, LinkType, file_type_part, hardness_of};
use crate::wire::{decode, parse_wire, string_from_utf8};

verus! {

/// The program that translates paths into host syntax.
pub const TRANSLATOR: &'static str = "wslpath";

/// The companion program that creates links in the host environment.
pub const COMPANION: &'static str = "mklink.exe";

/// A character with the Unicode `White_Space` property.
pub open spec fn is_unicode_whitespace(c: char) -> bool {
    let u = c as u32;
    ||| 0x9 <= u <= 0xd
    ||| u == 0x20
    ||| u == 0x85
    ||| u == 0xa0
    ||| u == 0x1680
    ||| 0x2000 <= u <= 0x200a
    ||| u == 0x2028
    ||| u == 0x2029
    ||| u == 0x202f
    ||| u == 0x205f
    ||| u == 0x3000
}

/// `s` without the whitespace at its end.
pub open spec fn trim_end_chars(s: Seq<char>) -> Seq<char>
    decreases s.len(),
{
    if s.len() > 0 && is_unicode_whitespace(s.last()) {
        trim_end_chars(s.drop_last())
    } else {
        s
    }
}

/// Relies on `str::trim_end`: the string with trailing characters of the
/// Unicode `White_Space` property removed.
#[verifier::external_body]
fn trim_end(s: &str) -> (r: String)
    ensures
        r@ == trim_end_chars(s@),
{
    s.trim_end().to_string()
}

/// The error for a failure to run the helper program `program`.
pub fn program_err(error: OSError, program: &str) -> (r: LinkError<DuringLinkError>)
    ensures
        r@ == (LinkErrorView {
            error: DuringLinkError::OS(error),
            target: false,
            link: false,
            program: Some(program@),
        }),
{
    let e = LinkError::program(error, program);
    LinkError {
        error: DuringLinkError::OS(e.error),
        target: e.target,
        link: e.link,
        program: e.program,
    }
}

/// The arguments of the path translator for `path`.
pub fn translator_args(path: &str) -> (r: Vec<String>)
    ensures
        r@.len() == 2,
        r@[0]@ == "-m"@,
        r@[1]@ == path@,
{
    let mut args: Vec<String> = Vec::new();
    args.push("-m".to_string());
    args.push(path.to_string());
    args
}

/// The translated path that the translator printed, without trailing
/// whitespace; `None` where its output is not UTF-8.
pub fn translated_path(stdout: Vec<u8>) -> (r: Option<String>)
    ensures
        r is Some <==> valid_utf8(stdout@),
        r matches Some(path) ==> path@ == trim_end_chars(decode_utf8(stdout@)),
{
    match string_from_utf8(stdout) {
        Some(text) => Some(trim_end(text.as_str())),
        None => None,
    }
}

/// The command-line flags that select the link type in the companion.
pub open spec fn type_flags(link_type: LinkType) -> Seq<Seq<char>> {
    let file_flag = match file_type_part(link_type) {
        LinkFileType::File => "-f"@,
        LinkFileType::Directory => "-d"@,
    };
    match hardness_of(link_type) {
        LinkHardness::Hard => seq!["-h"@, file_flag],
        LinkHardness::Soft => seq![file_flag],
    }
}

/// The arguments of the companion for a link of type `link_type` from
/// `link` to `target`, both already in host syntax: the type flags, the
/// marker that the type was checked already, and the two paths.
pub fn companion_args(link_type: LinkType, target: &str, link: &str) -> (r: Vec<String>)
    ensures
        r@.map_values(|a: String| a@) == type_flags(link_type) + seq!["--raw"@, target@, link@],
{
    let mut args: Vec<String> = Vec::new();
    if link_type.is_hard() {
        args.push("-h".to_string());
    }
    match link_type.file_type() {
        LinkFileType::File => args.push("-f".to_string()),
        LinkFileType::Directory => args.push("-d".to_string()),
    }
    args.push("--raw".to_string());
    args.push(target.to_string());
    args.push(link.to_string());
    assert(args@.map_values(|a: String| a@) =~= type_flags(link_type) + seq!["--raw"@, target@, link@]);
    args
}

/// What a finished companion run means: success where it exited
/// successfully, and otherwise the error that its output holds; `None` where
/// the output holds no error, which means the two programs disagree on the
/// protocol.
pub fn companion_outcome(success: bool, stdout: &[u8]) -> (r: Option<Result<(), LinkError<DuringLinkError>>>)
    ensures
        success ==> r == Some(Ok::<(), LinkError<DuringLinkError>>(())),
        !success ==> match r {
            None => parse_wire(stdout@) is None,
            Some(Ok(())) => false,
            Some(Err(e)) => parse_wire(stdout@) == Some(e@),
        },
{
    if success {
        return Some(Ok(()));
    }
    match decode(stdout) {
        Some(e) => Some(Err(e)),
        None => None,
    }
}

} // verus!
