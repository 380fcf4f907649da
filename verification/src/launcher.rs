//! How the backend is started: its command line, and what a failed start
//! reports.

use vstd::prelude::*;
use vstd::string::StringExecFns;

verus! {

/// The TCP port on which the backend is told to listen.
pub const BACKEND_PORT: u16 = 13370;

/// The command line handed to the backend: the port flag and the port.
pub open spec fn launch_args_spec() -> Seq<Seq<char>> {
    seq!["--port"@, "13370"@]
}

/// The number that a sequence of decimal digits denotes.
pub open spec fn decimal_value(digits: Seq<char>) -> int
    decreases digits.len(),
{
    if digits.len() == 0 {
        0
    } else {
        10 * decimal_value(digits.drop_last()) + (digits.last() as int - '0' as int)
    }
}

/// The text is a non-empty run of decimal digits.
pub open spec fn is_decimal(digits: Seq<char>) -> bool {
    &&& digits.len() > 0
    &&& forall|i: int| 0 <= i < digits.len() ==> '0' <= #[trigger] digits[i] <= '9'
}

/// The backend's command line: `--port` followed by the port in decimal.
pub fn launch_args() -> (args: Vec<String>)
    ensures
        args.deep_view() == launch_args_spec(),
{
    let mut args: Vec<String> = Vec::new();
    args.push(String::from_str("--port"));
    args.push(String::from_str("13370"));
    assert(args.deep_view() =~= launch_args_spec());
    args
}

/// The port written on the command line is the port that `BACKEND_PORT`
/// names, so the launcher probes the port on which it told the backend to
/// listen.
pub proof fn lemma_launch_args_name_backend_port()
    ensures
        launch_args_spec().len() == 2,
        is_decimal(launch_args_spec()[1]),
        decimal_value(launch_args_spec()[1]) == BACKEND_PORT,
{
    reveal_strlit("13370");
    let digits = "13370"@;
    assert(digits.len() == 5);
    let d4 = digits.drop_last();
    let d3 = d4.drop_last();
    let d2 = d3.drop_last();
    let d1 = d2.drop_last();
    let d0 = d1.drop_last();
    assert(d0.len() == 0);
    assert(decimal_value(d0) == 0);
    assert(decimal_value(d1) == 1);
    assert(decimal_value(d2) == 13);
    assert(decimal_value(d3) == 133);
    assert(decimal_value(d4) == 1337);
    assert(decimal_value(digits) == 13370);
}

/// A start of the backend that the operating system rejected.
#[derive(Debug, PartialEq, Eq)]
pub struct LaunchError {
    /// The path of the executable that was to be started.
    pub path: String,
    /// The operating system's diagnostic.
    pub detail: String,
}

/// A `LaunchError` as specifications see it.
pub struct LaunchErrorModel {
    pub path: Seq<char>,
    pub detail: Seq<char>,
}

impl View for LaunchError {
    type V = LaunchErrorModel;

    open spec fn view(&self) -> LaunchErrorModel {
        LaunchErrorModel { path: self.path@, detail: self.detail@ }
    }
}

impl LaunchError {
    /// The rejection of a start of `path`, with the diagnostic `detail`.
    pub fn new(path: String, detail: String) -> (error: LaunchError)
        ensures
            error@ == (LaunchErrorModel { path: path@, detail: detail@ }),
    {
        LaunchError { path, detail }
    }
}

} // verus!
