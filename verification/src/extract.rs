//! Unpacking the archive with an external `tar`: how the tool is invoked and
//! how its exit is judged. Running the tool is the caller's part.

use vstd::prelude::*;
use vstd::string::StringExecFns;

use crate::error::{Stage4Error, Stage4ErrorView};

verus! {

/// The program that unpacks the archive.
pub const TAR_PROGRAM: &'static str = "tar";

/// The directory that the archive is unpacked into.
pub const TARGET_DIRECTORY: &'static str = "chroot_tokyo";

/// The arguments that make `tar` extract `tar_file` into the directory
/// `target`, verbosely, keeping permissions, extended attributes of every
/// namespace and numeric owners.
pub open spec fn spec_tar_arguments(tar_file: Seq<char>, target: Seq<char>) -> Seq<Seq<char>> {
    seq![
        "xpvf"@,
        tar_file,
        "-C"@,
        target,
        "--xattrs-include=*.*"@,
        "--numeric-owner"@,
    ]
}

/// Builds the argument list for unpacking `tar_file` into `target`.
///
/// The target directory is passed as it is: the tool does not create it.
pub fn tar_arguments(tar_file: &str, target: &str) -> (args: Vec<String>)
    ensures
        args.deep_view() == spec_tar_arguments(tar_file@, target@),
{
    let mut args: Vec<String> = Vec::new();
    args.push("xpvf".to_owned());
    args.push(tar_file.to_owned());
    args.push("-C".to_owned());
    args.push(target.to_owned());
    args.push("--xattrs-include=*.*".to_owned());
    args.push("--numeric-owner".to_owned());
    assert(args.deep_view() =~= spec_tar_arguments(tar_file@, target@));
    args
}

/// Whether an exit of the tool counts as success: it exited by itself, with
/// status zero. An exit without a status (the tool was killed) is a failure.
pub open spec fn tool_succeeded(exit_code: Option<i32>) -> bool {
    exit_code == Some(0i32)
}

/// The verdict on a finished run of the tool: success, or a failure that
/// carries what the tool wrote to its standard error stream.
pub open spec fn spec_unpack_outcome(exit_code: Option<i32>, diagnostic: Seq<u8>) -> Result<
    (),
    Stage4ErrorView,
> {
    if tool_succeeded(exit_code) {
        Ok(())
    } else {
        Err(Stage4ErrorView::ToolFailed(diagnostic))
    }
}

/// The mathematical value of the result of a step that yields nothing.
pub open spec fn unit_result_view(r: Result<(), Stage4Error>) -> Result<(), Stage4ErrorView> {
    match r {
        Ok(()) => Ok(()),
        Err(e) => Err(e@),
    }
}

/// Judges a finished run of the tool by its exit status. A failure hands on
/// the captured standard error bytes, unchanged.
pub fn unpack_outcome(exit_code: Option<i32>, diagnostic: Vec<u8>) -> (r: Result<(), Stage4Error>)
    ensures
        unit_result_view(r) == spec_unpack_outcome(exit_code, diagnostic@),
        r is Ok <==> exit_code == Some(0i32),
{
    match exit_code {
        Some(0) => Ok(()),
        _ => Err(Stage4Error::ToolFailed(diagnostic)),
    }
}

/// The text of the failure for a target that is no directory.
pub open spec fn missing_target_message(target: Seq<char>) -> Seq<char> {
    "target directory does not exist: "@ + target
}

/// The verdict on the target before the tool is run: the directory must be
/// there already, the tool does not create it.
pub open spec fn spec_check_target(target: Seq<char>, is_directory: bool) -> Result<
    (),
    Stage4ErrorView,
> {
    if is_directory {
        Ok(())
    } else {
        Err(Stage4ErrorView::Filesystem(missing_target_message(target)))
    }
}

/// Judges the target of an extraction, given whether it is an existing
/// directory. A target that is none is a filesystem failure, and the tool
/// must not be run.
pub fn check_target(target: &str, is_directory: bool) -> (r: Result<(), Stage4Error>)
    ensures
        unit_result_view(r) == spec_check_target(target@, is_directory),
        r is Ok <==> is_directory,
{
    if is_directory {
        Ok(())
    } else {
        let mut text = "target directory does not exist: ".to_owned();
        text.append(target);
        Err(Stage4Error::Filesystem(text))
    }
}

} // verus!
