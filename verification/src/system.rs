//! What the operating system reports, turned into plain answers: the power
//! source, and the outcome of a script run.

use crate::requests::texts;
use crate::text::{chars_of, string_of, trim_chars, trimmed};
use vstd::prelude::*;
use vstd::string::*;

verus! {

/// Line status that the operating system reports on mains power.
pub const AC_LINE_ONLINE: u8 = 1;

/// Whether the machine runs on mains power, from the line status read from
/// the operating system. Where no status can be had, mains power is taken.
pub fn get_power_state(ac_line_status: Option<u8>) -> (ac_power: bool)
    ensures
        ac_power == match ac_line_status {
            Some(status) => status == AC_LINE_ONLINE,
            None => true,
        },
{
    match ac_line_status {
        Some(status) => status == AC_LINE_ONLINE,
        None => true,
    }
}

/// How the run of a script ended.
#[derive(Debug, Clone)]
pub enum ShellRun {
    /// The platform has no shell for the script.
    Unavailable,
    /// The shell could not be started; the text tells why.
    NotStarted(String),
    /// The shell ran: what it printed, and its exit code if it has one.
    Exited { stdout: String, stderr: String, code: Option<i32> },
}

/// Text of the error on a platform without the shell.
pub open spec fn shell_unavailable_text() -> Seq<char> {
    "PowerShell is only available on Windows"@
}

/// What a script run yields: what the script printed, without white space at
/// the ends; or the error, where the shell is missing, did not start, or
/// ended with another code than zero and something on its error stream.
pub open spec fn shell_outcome(run: ShellRun) -> Result<Seq<char>, Seq<char>> {
    match run {
        ShellRun::Unavailable => Err(shell_unavailable_text()),
        ShellRun::NotStarted(cause) => Err("Failed to execute PowerShell: "@ + cause@),
        ShellRun::Exited { stdout, stderr, code } => if trimmed(stderr@).len() > 0 && code != Some(
            0i32,
        ) {
            Err("PowerShell error: "@ + trimmed(stderr@))
        } else {
            Ok(trimmed(stdout@))
        },
    }
}

/// The text of a script run, or its error.
pub fn execute_powershell_command(run: &ShellRun) -> (r: Result<String, String>)
    ensures
        texts(r) == shell_outcome(*run),
{
    match run {
        ShellRun::Unavailable => Err(String::from_str("PowerShell is only available on Windows")),
        ShellRun::NotStarted(cause) => {
            let mut text = String::from_str("Failed to execute PowerShell: ");
            text.append(cause.as_str());
            Err(text)
        },
        ShellRun::Exited { stdout, stderr, code } => {
            let err_chars = chars_of(stderr.as_str());
            let err_trimmed = trim_chars(&err_chars);
            let succeeded = match code {
                Some(value) => *value == 0,
                None => false,
            };
            if err_trimmed.len() > 0 && !succeeded {
                let mut text = String::from_str("PowerShell error: ");
                let detail = string_of(&err_trimmed);
                text.append(detail.as_str());
                Err(text)
            } else {
                let out_chars = chars_of(stdout.as_str());
                let out_trimmed = trim_chars(&out_chars);
                Ok(string_of(&out_trimmed))
            }
        },
    }
}

/// Side of the square icon that stands in for a missing one, in pixels.
pub const FALLBACK_ICON_SIZE: u32 = 32;

/// The colour of every pixel of the stand-in icon: red, green, blue, alpha.
pub open spec fn fallback_pixel() -> Seq<u8> {
    seq![0u8, 150u8, 255u8, 255u8]
}

/// The pixels of the icon that stands in for a missing one: a square of one
/// colour, four bytes to the pixel.
pub fn fallback_icon() -> (rgba: Vec<u8>)
    ensures
        rgba@.len() == FALLBACK_ICON_SIZE * FALLBACK_ICON_SIZE * 4,
        forall|i: int| 0 <= i < rgba@.len() ==> #[trigger] rgba@[i] == fallback_pixel()[i % 4],
{
    let pixels: usize = 1024;
    let mut rgba: Vec<u8> = Vec::new();
    let mut i: usize = 0;
    while i < pixels
        invariant
            0 <= i <= pixels,
            pixels == 1024,
            rgba@.len() == i * 4,
            forall|k: int| 0 <= k < rgba@.len() ==> #[trigger] rgba@[k] == fallback_pixel()[k % 4],
        decreases pixels - i,
    {
        rgba.push(0);
        rgba.push(150);
        rgba.push(255);
        rgba.push(255);
        i = i + 1;
    }
    rgba
}

} // verus!
