//! The shape in which every command answers.
use crate::errors::{error_message, TaskError};
use vstd::prelude::*;
use vstd::string::*;

verus! {

/// The answer to a command: either `req_result` is set and `data` holds the
/// payload, or `err_message` says why the command was not applied.
#[derive(Debug, PartialEq, Eq)]
pub struct CommonResult<T> {
    pub req_result: bool,
    pub data: Option<T>,
    pub err_message: String,
}

impl<T> CommonResult<T> {
    /// Whether this is the answer of a command that was applied.
    pub open spec fn succeeded(&self) -> bool {
        self.req_result && self.data is Some && self.err_message@ == Seq::<char>::empty()
    }

    /// Whether this is the answer of a command that failed with the given
    /// message.
    pub open spec fn failed_saying(&self, message: Seq<char>) -> bool {
        !self.req_result && self.data is None && self.err_message@ == message
    }

    /// Whether this is the answer of a command that failed with `e`.
    pub open spec fn failed_with(&self, e: TaskError) -> bool {
        self.failed_saying(error_message(e))
    }

    /// The answer of a command that was applied.
    pub fn success(data: Option<T>) -> (res: CommonResult<T>)
        ensures
            res.req_result,
            res.data == data,
            res.err_message@ == Seq::<char>::empty(),
    {
        CommonResult { req_result: true, data, err_message: String::new() }
    }

    /// The answer of a command that failed.
    pub fn failed(err_message: &str) -> (res: CommonResult<T>)
        ensures
            res.failed_saying(err_message@),
    {
        CommonResult { req_result: false, data: None, err_message: String::from_str(err_message) }
    }

    /// The answer of a command that failed with `e`: it carries the message
    /// of the error, by which the kinds of failure are told apart.
    pub fn from_error(e: TaskError) -> (res: CommonResult<T>)
        ensures
            res.failed_with(e),
    {
        CommonResult { req_result: false, data: None, err_message: e.message() }
    }
}

} // verus!
