//! A plain error report: an optional message, the paths involved, the helper
//! program involved and the operating system error.
use vstd::prelude::*;

use crate::link_error::OSError;

verus! {

#[derive(Debug)]
pub struct Error<'a> {
    pub message: Option<&'a str>,
    pub paths: Vec<&'a str>,
    pub program: Option<&'a str>,
    pub error: Option<OSError>,
}

impl<'a> Error<'a> {
    pub fn with_msg(msg: &str) -> (r: Error)
        ensures
            r.message == Some(msg),
            r.paths@ == Seq::<&str>::empty(),
            r.program is None,
            r.error is None,
    {
        Error { message: Some(msg), paths: Vec::new(), program: None, error: None }
    }

    pub fn with_msg_and_path<'b>(msg: &'b str, path: &'b str) -> (r: Error<'b>)
        ensures
            r.message == Some(msg),
            r.paths@ == seq![path],
            r.program is None,
            r.error is None,
    {
        let mut paths: Vec<&'b str> = Vec::new();
        paths.push(path);
        Error { message: Some(msg), paths, program: None, error: None }
    }

    pub fn with_msg_and_program<'b>(msg: &'b str, program: &'b str, paths: Vec<&'b str>) -> (r: Error<'b>)
        ensures
            r.message == Some(msg),
            r.paths@ == paths@,
            r.program == Some(program),
            r.error is None,
    {
        Error { message: Some(msg), paths, program: Some(program), error: None }
    }

    pub fn with_error(error: OSError, paths: Vec<&str>) -> (r: Error)
        ensures
            r.message is None,
            r.paths@ == paths@,
            r.program is None,
            r.error == Some(error),
    {
        Error { message: None, paths, program: None, error: Some(error) }
    }

    /// The error that running `program` failed with `error`.
    pub fn for_program<'b>(program: &'b str, error: OSError) -> (r: Error<'b>)
        ensures
            r.message is None,
            r.paths@ == Seq::<&str>::empty(),
            r.program == Some(program),
            r.error == Some(error),
    {
        Error { message: None, paths: Vec::new(), program: Some(program), error: Some(error) }
    }

    pub fn err<T>(self) -> (r: Result<T, Error<'a>>)
        ensures
            r matches Err(e) && e == self,
    {
        Err(self)
    }
}

} // verus!
