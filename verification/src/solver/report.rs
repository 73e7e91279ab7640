//! The lines that report process events.

use vstd::prelude::*;
use vstd::string::*;
use crate::solver::domain::{ExecutedFileName, PCmdLine, PEvent};

verus! {

/// What is reported of a started process: the name of the executed file,
/// followed by a space and the command line where that is asked for.
pub open spec fn exec_detail(name: Seq<char>, cmdline: Seq<char>, with_cmdline: bool) -> Seq<
    char,
> {
    if with_cmdline {
        name + " "@ + cmdline
    } else {
        name
    }
}

/// Describes a started process: the name of the file it executes, and its
/// command line where `with_cmdline` is set.
pub fn exec_line(name: &ExecutedFileName, cmdline: &PCmdLine, with_cmdline: bool) -> (line: String)
    ensures
        line@ == exec_detail(name@, cmdline.text(), with_cmdline),
{
    let mut line: String = name.to_string();
    if with_cmdline {
        line.append(" ");
        line.append(cmdline.to_string().as_str());
    }
    line
}

/// The line that reports an event: the event, a space, and what is known
/// of its process.
pub fn event_line(event: PEvent, detail: &str) -> (line: String)
    ensures
        line@ == event.text() + " "@ + detail@,
{
    let mut line: String = event.to_string();
    line.append(" ");
    line.append(detail);
    line
}

} // verus!
