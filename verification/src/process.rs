//! The rules of the `child_process` module.

use vstd::prelude::*;

use crate::text::{decimal, int_to_decimal, lossy_utf8, owned, utf8_lossy};

verus! {

/// A program and its arguments.
#[derive(Debug)]
pub struct ShellCommand {
    pub program: String,
    pub args: Vec<String>,
}

/// How `execSync` runs a command line: through `cmd /C` on Windows and
/// `sh -c` elsewhere.
pub fn build_command(command: &str, windows: bool) -> (res: ShellCommand)
    ensures
        windows ==> res.program@ == "cmd"@ && res.args@.len() == 2 && res.args@[0]@ == "/C"@,
        !windows ==> res.program@ == "sh"@ && res.args@.len() == 2 && res.args@[0]@ == "-c"@,
        res.args@.len() == 2 && res.args@[1]@ == command@,
{
    let (program, flag) = if windows {
        (owned("cmd"), owned("/C"))
    } else {
        (owned("sh"), owned("-c"))
    };
    let mut args: Vec<String> = Vec::new();
    args.push(flag);
    args.push(owned(command));
    ShellCommand { program, args }
}

/// What `execSync` returns for a finished command: its standard output and
/// standard error read as UTF-8 (invalid sequences replaced), and its exit
/// code in decimal (`-1` when it was killed by a signal).
pub fn exec_output(stdout: &[u8], stderr: &[u8], code: Option<i32>) -> (res: Vec<String>)
    ensures
        res@.len() == 3,
        res@[0]@ == lossy_utf8(stdout@),
        res@[1]@ == lossy_utf8(stderr@),
        res@[2]@ == decimal(
            match code {
                Some(c) => c as int,
                None => -1,
            },
        ),
{
    let status: i64 = match code {
        Some(c) => c as i64,
        None => -1,
    };
    let mut out: Vec<String> = Vec::new();
    out.push(utf8_lossy(stdout));
    out.push(utf8_lossy(stderr));
    out.push(int_to_decimal(status));
    out
}

} // verus!
