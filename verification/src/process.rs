//! The commands that the node runs, and what they leave behind.

use crate::encoding::{lossy, lossy_text};
use crate::text::{trim, trimmed};
use vstd::prelude::*;
use vstd::string::*;

verus! {

/// The client of Bottlerocket's settings API.
pub const APICLIENT: &'static str = "/usr/bin/apiclient";

/// The client of the service manager.
pub const SYSTEMCTL: &'static str = "/usr/bin/systemctl";

/// The exit code with which `systemctl is-active` reports a unit that is not active.
pub const SYSTEMD_INACTIVE_EXIT_CODE: i32 = 3;

pub const KUBELET_UNIT: &'static str = "kubelet.service";

pub const DEVICE_PLUGIN_UNIT: &'static str = "nvidia-k8s-device-plugin.service";

pub const MPS_UNIT: &'static str = "nvidia-mps-control-daemon.service";

pub const DRA_UNIT: &'static str = "nvidia-dra-driver-gpu.service";

/// A program with its arguments.
#[derive(Debug, Eq, PartialEq)]
pub struct CommandLine {
    pub program: &'static str,
    pub arguments: Vec<String>,
}

/// A finished process: whether it succeeded, its exit code unless a signal ended it, its status
/// in words, and what it wrote.
#[derive(Debug, Eq, PartialEq)]
pub struct CommandOutput {
    pub success: bool,
    pub code: Option<i32>,
    pub status: String,
    pub stdout: Vec<u8>,
    pub stderr: Vec<u8>,
}

/// The texts of a list, with `separator` between them.
pub open spec fn joined(texts: Seq<String>, separator: Seq<char>) -> Seq<char>
    decreases texts.len(),
{
    if texts.len() == 0 {
        Seq::empty()
    } else if texts.len() == 1 {
        texts[0]@
    } else {
        joined(texts.drop_last(), separator) + separator + texts.last()@
    }
}

/// Writes the texts of a list with `separator` between them.
pub fn join(texts: &Vec<String>, separator: &str) -> (result: String)
    ensures
        result@ == joined(texts@, separator@),
{
    let mut result = String::new();
    let mut i: usize = 0;
    while i < texts.len()
        invariant
            i <= texts@.len(),
            result@ == joined(texts@.take(i as int), separator@),
        decreases texts@.len() - i,
    {
        if i > 0 {
            result.append(separator);
        }
        result.append(texts[i].as_str());
        assert(texts@.take(i + 1).drop_last() =~= texts@.take(i as int));
        assert(i == 0 ==> result@ =~= texts@[0]@);
        i = i + 1;
    }
    assert(texts@.take(i as int) =~= texts@);
    result
}

impl CommandLine {
    /// The command in writing.
    pub open spec fn line(self) -> Seq<char> {
        self.program@ + " "@ + joined(self.arguments@, " "@)
    }

    /// Writes the command on one line.
    pub fn text(&self) -> (text: String)
        ensures
            text@ == self.line(),
    {
        self.program.to_string().concat(" ").concat(join(&self.arguments, " ").as_str())
    }
}

impl CommandOutput {
    /// What the process complained about.
    pub open spec fn complaint(self) -> Seq<char> {
        trimmed(lossy_text(self.stderr@))
    }

    /// Shows what the process complained about, without the white space at the ends.
    pub fn stderr_text(&self) -> (text: String)
        ensures
            text@ == self.complaint(),
    {
        trim(lossy(self.stderr.as_slice()).as_str())
    }

    /// Shows what the process wrote.
    pub fn stdout_text(&self) -> (text: String)
        ensures
            text@ == lossy_text(self.stdout@),
    {
        lossy(self.stdout.as_slice())
    }
}

/// The command that asks whether a unit is active.
pub fn unit_active_command(unit: &str) -> (command: CommandLine)
    ensures
        command.program@ == SYSTEMCTL@,
        command.arguments@.len() == 3,
        command.arguments@[0]@ == "--quiet"@,
        command.arguments@[1]@ == "is-active"@,
        command.arguments@[2]@ == unit@,
{
    let mut arguments: Vec<String> = Vec::new();
    arguments.push("--quiet".to_string());
    arguments.push("is-active".to_string());
    arguments.push(unit.to_string());
    CommandLine { program: SYSTEMCTL, arguments }
}

/// What the exit of `systemctl is-active` says of the unit: active, inactive, or nothing.
pub open spec fn activity(output: CommandOutput) -> Option<bool> {
    if output.success {
        Some(true)
    } else if output.code == Some(SYSTEMD_INACTIVE_EXIT_CODE) {
        Some(false)
    } else {
        None
    }
}

/// Reads what the exit of `systemctl is-active` says of the unit.
pub fn read_activity(output: &CommandOutput) -> (active: Option<bool>)
    ensures
        active == activity(*output),
{
    if output.success {
        return Some(true);
    }
    match output.code {
        Some(code) => if code == SYSTEMD_INACTIVE_EXIT_CODE {
            Some(false)
        } else {
            None
        },
        None => None,
    }
}

/// Joining two lists is joining each and putting the separator between them: no text is lost,
/// repeated or moved, and a single text stands as it is.
pub proof fn joining_keeps_every_text(left: Seq<String>, right: Seq<String>, separator: Seq<char>)
    requires
        left.len() > 0,
        right.len() > 0,
    ensures
        joined(left + right, separator) == joined(left, separator) + separator + joined(
            right,
            separator,
        ),
        left.len() == 1 ==> joined(left, separator) == left[0]@,
    decreases right.len(),
{
    let all = left + right;
    assert(all.last() == right.last());
    if right.len() == 1 {
        assert(all.drop_last() =~= left);
    } else {
        assert(all.drop_last() =~= left + right.drop_last());
        joining_keeps_every_text(left, right.drop_last(), separator);
        assert(joined(left, separator) + separator + (joined(right.drop_last(), separator)
            + separator + right.last()@) =~= joined(left, separator) + separator + joined(
            right.drop_last(),
            separator,
        ) + separator + right.last()@);
    }
}

/// A unit is active exactly if the query succeeded, inactive exactly if it failed with the code for
/// that, and of every other failure nothing is known.
pub proof fn activity_needs_the_exact_exit(output: CommandOutput)
    ensures
        activity(output) == Some(true) <==> output.success,
        activity(output) == Some(false) <==> !output.success && output.code == Some(3i32),
        activity(output) is None <==> !output.success && output.code != Some(3i32),
{
}

} // verus!
