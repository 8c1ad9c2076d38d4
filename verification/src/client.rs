//! The decisions of the crash reporter client: in which mode it runs,
//! whether there is a crash to report at all, what is left to do once the
//! report is over, and which inherited descriptors it closes first.

use vstd::prelude::*;

verus! {

/// `str::eq`: whether two strings hold the same text.
#[verifier::external_body]
fn text_is(text: &str, other: &str) -> (same: bool)
    ensures
        same == (text@ == other@),
{
    text == other
}

/// What `str::parse::<i32>` makes of a text: the number that the text
/// writes, where it writes one that fits.
pub uninterp spec fn parsed_i32(text: Seq<char>) -> Option<i32>;

/// `str::parse::<i32>`: reads a number from a text. The same text always
/// reads as the same number, or as none.
#[verifier::external_body]
fn parse_i32(text: &str) -> (number: Option<i32>)
    ensures
        number == parsed_i32(text@),
{
    text.parse::<i32>().ok()
}

/// What the program was started to do.
#[derive(Debug, Clone, Copy, PartialEq, Eq, Structural)]
pub enum Mode {
    /// Analyse a minidump.
    Analyze,
    /// Test the memory.
    MemoryTest,
    /// Send a ping.
    SendPing,
    /// Report a crash.
    Report,
}

/// The mode that the first argument asks for. Anything but the three words
/// for the other modes, and no argument at all, means reporting a crash.
pub open spec fn spec_mode(argument: Option<Seq<char>>) -> Mode {
    match argument {
        Some(word) => if word == "--analyze"@ {
            Mode::Analyze
        } else if word == "--memtest"@ {
            Mode::MemoryTest
        } else if word == "--send-ping"@ {
            Mode::SendPing
        } else {
            Mode::Report
        },
        None => Mode::Report,
    }
}

/// Picks the mode from the first argument of the program.
pub fn mode(argument: Option<&str>) -> (mode: Mode)
    ensures
        mode == spec_mode(
            match argument {
                Some(word) => Some(word@),
                None => None,
            },
        ),
{
    match argument {
        Some(word) => if text_is(word, "--analyze") {
            Mode::Analyze
        } else if text_is(word, "--memtest") {
            Mode::MemoryTest
        } else if text_is(word, "--send-ping") {
            Mode::SendPing
        } else {
            Mode::Report
        },
        None => Mode::Report,
    }
}

/// Why there is nothing to report.
#[derive(Debug, Clone, Copy, PartialEq, Eq, Structural)]
pub enum RunFailure {
    /// The program was started without a crash to report.
    NoDumpFile,
    /// The minidump that was to be reported does not exist: it could not be
    /// generated.
    MinidumpMissing,
}

impl RunFailure {
    /// The name of the message that tells the user of this failure.
    pub fn message_id(&self) -> (id: &'static str)
        ensures
            id@ == match *self {
                RunFailure::NoDumpFile => "crashreporter-information"@,
                RunFailure::MinidumpMissing => "crashreporter-error-failed-to-generate-minidump"@,
            },
    {
        match self {
            RunFailure::NoDumpFile => "crashreporter-information",
            RunFailure::MinidumpMissing => "crashreporter-error-failed-to-generate-minidump",
        }
    }
}

/// What a run begins with.
#[derive(Debug, Clone, Copy, PartialEq, Eq, Structural)]
pub enum RunPlan {
    /// Stop with this failure.
    Fail(RunFailure),
    /// Stop without having tried to send anything.
    Finish,
    /// Go on and report the crash.
    Report,
}

/// Decides how a run begins. `dump_file` says whether a minidump was named
/// and, if so, whether the file exists.
///
/// Without a minidump a run that submits on its own ends quietly, and any
/// other fails. A minidump that was named and does not exist fails the run.
/// Otherwise the crash is reported.
pub fn try_run(dump_file: Option<bool>, auto_submit: bool) -> (plan: RunPlan)
    ensures
        plan == match dump_file {
            None => if auto_submit {
                RunPlan::Finish
            } else {
                RunPlan::Fail(RunFailure::NoDumpFile)
            },
            Some(false) => RunPlan::Fail(RunFailure::MinidumpMissing),
            Some(true) => RunPlan::Report,
        },
{
    match dump_file {
        None => if !auto_submit {
            RunPlan::Fail(RunFailure::NoDumpFile)
        } else {
            RunPlan::Finish
        },
        Some(exists) => if !exists {
            RunPlan::Fail(RunFailure::MinidumpMissing)
        } else {
            RunPlan::Report
        },
    }
}

/// What is left to do when a run is over.
#[derive(Debug, Clone, Copy, PartialEq, Eq, Structural)]
pub struct Aftermath {
    /// Whether the files of the crash are deleted.
    pub delete_files: bool,
    /// Whether the user is shown the error.
    pub show_error_dialog: bool,
    /// The status that the program exits with.
    pub exit_status: i32,
}

/// Decides what is left to do when a run is over. `attempted_send` says
/// whether the run tried to send the report, and is `None` where it failed.
///
/// A run that ended without trying to send has its files deleted. A run that
/// failed exits with status 1, and shows the error unless it submits on its
/// own.
pub fn report_main(attempted_send: Option<bool>, auto_submit: bool) -> (aftermath: Aftermath)
    ensures
        aftermath == match attempted_send {
            Some(attempted) => Aftermath {
                delete_files: !attempted,
                show_error_dialog: false,
                exit_status: 0,
            },
            None => Aftermath {
                delete_files: false,
                show_error_dialog: !auto_submit,
                exit_status: 1,
            },
        },
{
    match attempted_send {
        Some(attempted) => Aftermath {
            delete_files: !attempted,
            show_error_dialog: false,
            exit_status: 0,
        },
        None => Aftermath { delete_files: false, show_error_dialog: !auto_submit, exit_status: 1 },
    }
}

/// The directory that lists the open descriptors of the process, on the
/// systems that have one.
pub open spec fn spec_fd_dir(os: Seq<char>) -> Option<Seq<char>> {
    if os == "linux"@ {
        Some("/proc/self/fd"@)
    } else if os == "macos"@ {
        Some("/dev/fd"@)
    } else {
        None
    }
}

/// Names the directory that lists the open descriptors of the process. On a
/// system that is neither of the two known ones there is none.
pub fn fd_dir(os: &str) -> (dir: Option<&'static str>)
    ensures
        match dir {
            Some(path) => spec_fd_dir(os@) == Some(path@),
            None => spec_fd_dir(os@) is None,
        },
{
    if text_is(os, "linux") {
        Some("/proc/self/fd")
    } else if text_is(os, "macos") {
        Some("/dev/fd")
    } else {
        None
    }
}

/// The first descriptor that is closed: those below are the standard input
/// and the two standard outputs.
pub const FIRST_UNUSED_FD: i32 = 3;

/// The descriptor to close for a directory entry whose name was read as
/// `parsed`: the number itself, unless it is none, negative, or one of the
/// three standard descriptors.
pub open spec fn spec_fd_to_close(parsed: Option<i32>) -> Option<i32> {
    match parsed {
        Some(fd) => if fd >= FIRST_UNUSED_FD {
            Some(fd)
        } else {
            None
        },
        None => None,
    }
}

/// The descriptors to close among the entries with these names, in the order
/// of the names.
pub open spec fn spec_fds_to_close(filenames: Seq<String>) -> Seq<i32>
    decreases filenames.len(),
{
    if filenames.len() == 0 {
        Seq::empty()
    } else {
        let earlier = spec_fds_to_close(filenames.drop_last());
        match spec_fd_to_close(parsed_i32(filenames.last()@)) {
            Some(fd) => earlier.push(fd),
            None => earlier,
        }
    }
}

/// Says whether a directory entry whose name was read as `parsed` stands
/// for a descriptor to close, and which.
pub fn fd_to_close(parsed: Option<i32>) -> (fd: Option<i32>)
    ensures
        fd == spec_fd_to_close(parsed),
{
    match parsed {
        Some(fd) => if fd >= FIRST_UNUSED_FD {
            Some(fd)
        } else {
            None
        },
        None => None,
    }
}

/// Picks the descriptors to close from the names of the entries of the
/// descriptor directory. A name that is no number is passed over, and so are
/// the three standard descriptors.
pub fn cleanup_unused_fds(filenames: &Vec<String>) -> (fds: Vec<i32>)
    ensures
        fds@ == spec_fds_to_close(filenames@),
        forall|i: int| 0 <= i < fds@.len() ==> fds@[i] >= FIRST_UNUSED_FD,
{
    let mut fds: Vec<i32> = Vec::new();
    let mut at: usize = 0;
    while at < filenames.len()
        invariant
            at <= filenames@.len(),
            fds@ == spec_fds_to_close(filenames@.subrange(0, at as int)),
            forall|i: int| 0 <= i < fds@.len() ==> fds@[i] >= FIRST_UNUSED_FD,
        decreases filenames@.len() - at,
    {
        proof {
            let longer = filenames@.subrange(0, at + 1);
            assert(longer.drop_last() =~= filenames@.subrange(0, at as int));
            assert(longer.last() == filenames@[at as int]);
        }
        match fd_to_close(parse_i32(filenames[at].as_str())) {
            Some(fd) => fds.push(fd),
            None => {},
        }
        at = at + 1;
    }
    proof {
        assert(filenames@.subrange(0, at as int) =~= filenames@);
    }
    fds
}

} // verus!
