//! Opening a file with the application the platform associates with it.

use crate::error::FileOpError;
use vstd::prelude::*;

verus! {

/// A program to start, with its arguments.
#[derive(Clone, Debug, PartialEq, Eq)]
pub struct LaunchCommand {
    pub program: String,
    pub args: Vec<String>,
}

/// A launch command as mathematical values.
pub struct LaunchModel {
    pub program: Seq<char>,
    pub args: Seq<Seq<char>>,
}

impl View for LaunchCommand {
    type V = LaunchModel;

    open spec fn view(&self) -> LaunchModel {
        LaunchModel {
            program: self.program@,
            args: Seq::new(self.args@.len(), |i: int| self.args@[i]@),
        }
    }
}

/// A launcher's answer as mathematical values.
pub open spec fn launch_model(answer: Result<LaunchCommand, FileOpError>) -> Result<
    LaunchModel,
    FileOpError,
> {
    match answer {
        Ok(command) => Ok(command@),
        Err(error) => Err(error),
    }
}

/// How `path` is opened on the operating system called `os`: through the
/// shell's `explorer` on `windows`, through `xdg-open` on `linux`, and not at
/// all elsewhere.
pub open spec fn launch_answer(os: Seq<char>, path: Seq<char>) -> Result<LaunchModel, FileOpError> {
    if os == "windows"@ {
        Ok(LaunchModel { program: "cmd"@, args: seq!["/C"@, "explorer"@, path] })
    } else if os == "linux"@ {
        Ok(LaunchModel { program: "xdg-open"@, args: seq![path] })
    } else {
        Err(FileOpError::UnsupportedPlatform)
    }
}

/// Whether two texts are the same.
pub fn same_text(a: &str, b: &str) -> (same: bool)
    ensures
        same == (a@ == b@),
{
    let left = String::from_str(a);
    let right = String::from_str(b);
    left == right
}

/// The command that opens `path` with its default application on the
/// operating system called `os`, or `UnsupportedPlatform` where there is none.
pub fn open_with_default_handler(os: &str, path: &str) -> (answer: Result<
    LaunchCommand,
    FileOpError,
>)
    ensures
        launch_model(answer) == launch_answer(os@, path@),
{
    if same_text(os, "windows") {
        let mut args: Vec<String> = Vec::new();
        args.push(String::from_str("/C"));
        args.push(String::from_str("explorer"));
        args.push(String::from_str(path));
        let command = LaunchCommand { program: String::from_str("cmd"), args };
        assert(command@.args =~= seq!["/C"@, "explorer"@, path@]);
        Ok(command)
    } else if same_text(os, "linux") {
        let mut args: Vec<String> = Vec::new();
        args.push(String::from_str(path));
        let command = LaunchCommand { program: String::from_str("xdg-open"), args };
        assert(command@.args =~= seq![path@]);
        Ok(command)
    } else {
        Err(FileOpError::UnsupportedPlatform)
    }
}

/// What a launch comes to once the platform has been asked to start the
/// command: `LaunchFailed` where it could not, success otherwise.
pub open spec fn launch_result(started: bool) -> Result<(), FileOpError> {
    if started {
        Ok(())
    } else {
        Err(FileOpError::LaunchFailed)
    }
}

/// What a launch comes to once the platform has been asked to start the
/// command: `LaunchFailed` where it could not, success otherwise. How the
/// started program ends is not looked at.
pub fn launch_outcome(started: bool) -> (outcome: Result<(), FileOpError>)
    ensures
        outcome == launch_result(started),
{
    if started {
        Ok(())
    } else {
        Err(FileOpError::LaunchFailed)
    }
}

} // verus!
