//! The write pipeline: privilege, command lines and the progress stream.
//!
//! Nothing here touches a device. The functions decide what is run and what
//! its output means; the caller runs it.

use vstd::prelude::*;
use vstd::string::StringExecFns;
use crate::device::{label_target, label_target_of, Lsblk};
use crate::iso::{classify, detect, IsoKind};
use crate::label::{
    label_command, label_family, label_tool, max_label_len, sanitize_label, sanitized, truncated,
};
use crate::text::{joined, push_char, texts, to_chars, trim, trimmed};

verus! {

/// A tool that runs a command with elevated rights.
#[derive(Debug, Clone, Copy, PartialEq, Eq, Structural)]
pub enum Elevator {
    /// Asks through a graphical prompt.
    Pkexec,
    /// Asks on the terminal.
    Sudo,
}

impl Elevator {
    /// The program's name on the search path.
    pub open spec fn program(self) -> Seq<char> {
        match self {
            Elevator::Pkexec => "pkexec"@,
            Elevator::Sudo => "sudo"@,
        }
    }

    /// The program's name on the search path.
    pub fn name(self) -> (name: &'static str)
        ensures
            name@ == self.program(),
    {
        match self {
            Elevator::Pkexec => "pkexec",
            Elevator::Sudo => "sudo",
        }
    }
}

/// The elevation tool to use, given which ones were found on the search
/// path: `pkexec` if it is there, else `sudo` if it is there, else none.
pub fn find_elevator(has_pkexec: bool, has_sudo: bool) -> (tool: Option<Elevator>)
    ensures
        tool == if has_pkexec {
            Some(Elevator::Pkexec)
        } else if has_sudo {
            Some(Elevator::Sudo)
        } else {
            None::<Elevator>
        },
{
    if has_pkexec {
        Some(Elevator::Pkexec)
    } else if has_sudo {
        Some(Elevator::Sudo)
    } else {
        None
    }
}

/// A command line, elevated if the process is not root and a tool is given.
pub open spec fn elevated(elevator: Option<Elevator>, is_root: bool, command: Seq<Seq<char>>) -> Seq<
    Seq<char>,
> {
    match elevator {
        Some(tool) if !is_root => seq![tool.program()] + command,
        _ => command,
    }
}

/// The command line that runs `program` with `args`: as it is when the
/// process is root or no elevation tool is given, behind the tool otherwise.
pub fn elevated_command(
    program: &str,
    args: &Vec<String>,
    elevator: Option<Elevator>,
    is_root: bool,
) -> (command: Vec<String>)
    ensures
        texts(command@) == elevated(elevator, is_root, seq![program@] + texts(args@)),
{
    let mut command: Vec<String> = Vec::new();
    match elevator {
        Some(tool) => {
            if !is_root {
                command.push(String::from_str(tool.name()));
            }
        },
        None => {},
    }
    command.push(String::from_str(program));
    let ghost head = texts(command@);
    let mut i: usize = 0;
    while i < args.len()
        invariant
            i <= args@.len(),
            texts(command@) == head + texts(args@).take(i as int),
        decreases args@.len() - i,
    {
        let ghost before = texts(command@);
        command.push(args[i].clone());
        assert(texts(command@) =~= before.push(args@[i as int]@));
        assert(texts(command@) =~= head + texts(args@).take(i + 1));
        i += 1;
    }
    assert(texts(command@) =~= elevated(elevator, is_root, seq![program@] + texts(args@)));
    command
}

/// The arguments of the block copy: source, destination, a 4 MiB block
/// size, progress reports, and synchronous output.
pub open spec fn dd_args(image: Seq<char>, device: Seq<char>) -> Seq<Seq<char>> {
    seq!["if="@ + image, "of="@ + device, "bs=4M"@, "status=progress"@, "oflag=sync"@]
}

/// The command line of the block copy from `image` to `device`.
pub fn dd_command(image: &str, device: &str, elevator: Option<Elevator>, is_root: bool) -> (command:
    Vec<String>)
    ensures
        texts(command@) == elevated(elevator, is_root, seq!["dd"@] + dd_args(image@, device@)),
{
    let args = vec![
        joined("if=", image),
        joined("of=", device),
        String::from_str("bs=4M"),
        String::from_str("status=progress"),
        String::from_str("oflag=sync"),
    ];
    assert(texts(args@) =~= dd_args(image@, device@));
    elevated_command("dd", &args, elevator, is_root)
}

/// The command line that makes the kernel read the partition table of
/// `device` again.
pub fn partprobe_command(device: &str, elevator: Option<Elevator>, is_root: bool) -> (command: Vec<
    String,
>)
    ensures
        texts(command@) == elevated(elevator, is_root, seq!["partprobe"@, device@]),
{
    let args = vec![String::from_str(device)];
    assert(seq!["partprobe"@] + texts(args@) =~= seq!["partprobe"@, device@]);
    elevated_command("partprobe", &args, elevator, is_root)
}

/// The command line that lists the file systems on `device`. The option
/// `-p` makes `lsblk` name the device and each partition by its full path,
/// so that a partition's name is the path that the labelling tool takes.
pub fn fstype_query(device: &str) -> (command: Vec<String>)
    ensures
        texts(command@) == seq!["lsblk"@, "--json"@, "-o"@, "NAME,FSTYPE"@, "-p"@, device@],
{
    let command = vec![
        String::from_str("lsblk"),
        String::from_str("--json"),
        String::from_str("-o"),
        String::from_str("NAME,FSTYPE"),
        String::from_str("-p"),
        String::from_str(device),
    ];
    assert(texts(command@) =~= seq!["lsblk"@, "--json"@, "-o"@, "NAME,FSTYPE"@, "-p"@, device@]);
    command
}

/// An ASCII decimal digit.
pub open spec fn is_digit(c: char) -> bool {
    '0' <= c <= '9'
}

/// The number of decimal digits at the start of `line`.
pub open spec fn digit_run(line: Seq<char>) -> nat
    decreases line.len(),
{
    if line.len() > 0 && is_digit(line[0]) {
        1 + digit_run(line.drop_first())
    } else {
        0
    }
}

/// The number that a string of decimal digits writes.
pub open spec fn decimal_value(digits: Seq<char>) -> nat
    decreases digits.len(),
{
    if digits.len() == 0 {
        0
    } else {
        decimal_value(digits.drop_last()) * 10 + (digits.last() as nat - '0' as nat) as nat
    }
}

/// The byte count that a progress line of the block copy starts with: the
/// value of its leading digits, if there are any and the value fits 64 bits.
pub open spec fn dd_bytes(line: Seq<char>) -> Option<u64> {
    let digits = line.take(digit_run(line) as int);
    if digits.len() == 0 || decimal_value(digits) > u64::MAX {
        None
    } else {
        Some(decimal_value(digits) as u64)
    }
}

/// Reads the cumulative byte count from a progress line of the block copy,
/// such as `104857600 bytes (105 MB) copied`.
///
/// The count is the run of decimal digits at the start of the line. A line
/// that starts with no digit, or with a number too large for 64 bits, gives
/// `None`.
pub fn parse_dd_bytes(line: &str) -> (bytes: Option<u64>)
    ensures
        bytes == dd_bytes(line@),
{
    let chars = to_chars(line);
    let n = chars.len();
    let mut i: usize = 0;
    let mut value: u64 = 0;
    let mut fits = true;
    assert(chars@.subrange(0, n as int) =~= chars@);
    assert(chars@.take(0) =~= Seq::<char>::empty());
    while i < n && chars[i] >= '0' && chars[i] <= '9'
        invariant
            i <= n == chars@.len(),
            digit_run(chars@) == i + digit_run(chars@.subrange(i as int, n as int)),
            fits ==> value == decimal_value(chars@.take(i as int)),
            !fits ==> decimal_value(chars@.take(i as int)) > u64::MAX,
        decreases n - i,
    {
        let digit: u64 = (chars[i] as u64) - 48;
        proof {
            assert(chars@.subrange(i as int, n as int).drop_first() =~= chars@.subrange(
                i as int + 1,
                n as int,
            ));
            let next = chars@.take(i + 1);
            assert(next.drop_last() =~= chars@.take(i as int));
            assert(next.last() == chars@[i as int]);
            assert(decimal_value(next) == decimal_value(chars@.take(i as int)) * 10 + digit);
        }
        if fits {
            match value.checked_mul(10) {
                Some(tens) => match tens.checked_add(digit) {
                    Some(sum) => {
                        value = sum;
                    },
                    None => {
                        fits = false;
                    },
                },
                None => {
                    fits = false;
                },
            }
        }
        i += 1;
    }
    if i == 0 || !fits {
        None
    } else {
        Some(value)
    }
}

/// A character that ends a progress line: the block copy rewrites its
/// progress line in place with a carriage return and ends others with a line
/// feed.
pub open spec fn is_line_end(c: char) -> bool {
    c == '\n' || c == '\r'
}

/// What a line contributes to the progress trail: its trimmed text, unless
/// that is empty.
pub open spec fn line_of(pending: Seq<char>) -> Seq<Seq<char>> {
    if trimmed(pending).len() > 0 {
        seq![trimmed(pending)]
    } else {
        Seq::empty()
    }
}

/// The lines completed by `chunk` after `pending`, and the unfinished text
/// that is left.
pub open spec fn split_lines(pending: Seq<char>, chunk: Seq<char>) -> (Seq<Seq<char>>, Seq<char>)
    decreases chunk.len(),
{
    if chunk.len() == 0 {
        (Seq::empty(), pending)
    } else {
        let (lines, rest) = split_lines(pending, chunk.drop_last());
        if is_line_end(chunk.last()) {
            (lines + line_of(rest), Seq::empty())
        } else {
            (lines, rest.push(chunk.last()))
        }
    }
}

/// Cuts the diagnostic stream of the block copy into progress lines.
pub struct LineSplitter {
    /// Text received after the last line end.
    pub pending: String,
}

impl LineSplitter {
    /// A splitter that has seen no text.
    pub fn new() -> (splitter: LineSplitter)
        ensures
            splitter.pending@ == Seq::<char>::empty(),
    {
        LineSplitter { pending: String::new() }
    }

    /// Takes the next piece of the stream and returns the lines it completes,
    /// trimmed, without the empty ones. Text after the last line end is kept
    /// for the next call.
    pub fn feed(&mut self, chunk: &str) -> (lines: Vec<String>)
        ensures
            texts(lines@) == split_lines(old(self).pending@, chunk@).0,
            final(self).pending@ == split_lines(old(self).pending@, chunk@).1,
    {
        let mut lines: Vec<String> = Vec::new();
        let ghost start = self.pending@;
        assert(chunk@.take(0) =~= Seq::<char>::empty());
        assert(texts(lines@) =~= Seq::<Seq<char>>::empty());
        for ch in it: chunk.chars()
            invariant
                it.seq() == chunk@,
                texts(lines@) == split_lines(start, chunk@.take(it.index() as int)).0,
                self.pending@ == split_lines(start, chunk@.take(it.index() as int)).1,
        {
            proof {
                let next = chunk@.take(it.index() + 1);
                assert(next.drop_last() =~= chunk@.take(it.index() as int));
                assert(next.last() == ch);
            }
            if ch == '\n' || ch == '\r' {
                let line = trim(self.pending.as_str());
                if !line.as_str().is_empty() {
                    let ghost before = texts(lines@);
                    lines.push(line);
                    assert(texts(lines@) =~= before + line_of(self.pending@));
                } else {
                    assert(texts(lines@) =~= texts(lines@) + line_of(self.pending@));
                }
                self.pending = String::new();
            } else {
                push_char(&mut self.pending, ch);
            }
        }
        assert(chunk@.take(chunk@.len() as int) =~= chunk@);
        lines
    }

    /// Ends the stream: returns the unfinished text as a last line, trimmed,
    /// unless it is empty, and forgets it.
    pub fn finish(&mut self) -> (lines: Vec<String>)
        ensures
            texts(lines@) == line_of(old(self).pending@),
            final(self).pending@ == Seq::<char>::empty(),
    {
        let mut lines: Vec<String> = Vec::new();
        let line = trim(self.pending.as_str());
        if !line.as_str().is_empty() {
            lines.push(line);
            assert(texts(lines@) =~= line_of(old(self).pending@));
        } else {
            assert(texts(lines@) =~= line_of(old(self).pending@));
        }
        self.pending = String::new();
        lines
    }
}

/// Why a write did not succeed.
#[derive(Debug, Clone)]
pub enum FlashError {
    /// The image could not be opened or its header could not be read; the
    /// text says which.
    Io(String),
    /// The image has no partition table.
    UnsafeImage,
    /// The image is too short to classify.
    IndeterminateImage,
    /// The process is not root and no elevation tool was found.
    ElevationUnavailable,
    /// The block copy could not be started.
    SpawnFailed,
    /// The diagnostic stream of the block copy could not be read.
    StreamFailed,
    /// The end of the block copy could not be awaited.
    WaitFailed,
    /// The block copy ended with a failure status.
    WriteFailed,
}

impl FlashError {
    /// The one message that a front end shows for the error.
    pub open spec fn message_text(self) -> Seq<char> {
        match self {
            FlashError::Io(text) => text@,
            FlashError::UnsafeImage => "ISO has no partition table; hybrid ISO required"@,
            FlashError::IndeterminateImage => "Unable to determine ISO type"@,
            FlashError::ElevationUnavailable => "Root privileges required for flashing. Install pkexec or sudo, or run with: sudo flashr-tui --execute"@,
            FlashError::SpawnFailed => "run dd (do you have permission?)"@,
            FlashError::StreamFailed => "read dd output"@,
            FlashError::WaitFailed => "wait for dd"@,
            FlashError::WriteFailed => "dd failed"@,
        }
    }

    /// The one message that a front end shows for the error.
    pub fn message(&self) -> (text: String)
        ensures
            text@ == self.message_text(),
    {
        match self {
            FlashError::Io(text) => text.clone(),
            FlashError::UnsafeImage => String::from_str(
                "ISO has no partition table; hybrid ISO required",
            ),
            FlashError::IndeterminateImage => String::from_str("Unable to determine ISO type"),
            FlashError::ElevationUnavailable => String::from_str(
                "Root privileges required for flashing. Install pkexec or sudo, or run with: sudo flashr-tui --execute",
            ),
            FlashError::SpawnFailed => String::from_str("run dd (do you have permission?)"),
            FlashError::StreamFailed => String::from_str("read dd output"),
            FlashError::WaitFailed => String::from_str("wait for dd"),
            FlashError::WriteFailed => String::from_str("dd failed"),
        }
    }
}

/// What came of reading the first bytes of the image.
#[derive(Debug, Clone)]
pub enum HeaderRead {
    /// The bytes that one read returned.
    Bytes(Vec<u8>),
    /// The image could not be opened.
    OpenFailed,
    /// The image was opened but could not be read.
    ReadFailed,
}

/// The message for an image that could not be inspected; `read` is not
/// `Bytes`.
pub open spec fn header_failure_text(read: HeaderRead, image: Seq<char>) -> Seq<char> {
    match read {
        HeaderRead::OpenFailed => "open ISO image: "@ + image,
        _ => "read ISO header"@,
    }
}

/// The message for an image that could not be opened (`opened` false) or
/// not be read.
pub fn header_failure(opened: bool, image: &str) -> (text: String)
    ensures
        text@ == if opened {
            "read ISO header"@
        } else {
            "open ISO image: "@ + image@
        },
{
    if opened {
        String::from_str("read ISO header")
    } else {
        joined("open ISO image: ", image)
    }
}

/// Where a write stands.
#[derive(Debug, Clone, Copy, PartialEq, Eq, Structural)]
pub enum Phase {
    /// Waiting for the image header.
    CheckingImage,
    /// Waiting for the privilege probe.
    ProbingPrivilege,
    /// Waiting for the block copy to start.
    Spawning,
    /// Reading the diagnostic stream of the block copy.
    Copying,
    /// Waiting for the block copy to end.
    Waiting,
    /// Waiting for the device sync.
    Syncing,
    /// Waiting for the partition-table refresh.
    Refreshing,
    /// Waiting for the partitions of the written device.
    Querying,
    /// Waiting for the labelling tool.
    Labeling,
    /// The write has ended, well or not.
    Finished,
}

/// What the caller reports back to a write.
#[derive(Debug, Clone)]
pub enum Event {
    /// The image header was read, or could not be.
    Header(HeaderRead),
    /// The privilege probe: whether the process is root, and which
    /// elevation tools are on the search path.
    Privilege { is_root: bool, has_pkexec: bool, has_sudo: bool },
    /// The block copy was started (`true`) or could not be.
    Spawned(bool),
    /// A piece of the diagnostic stream, as text.
    Output(String),
    /// The diagnostic stream ended (`true`) or failed (`false`).
    OutputEnded(bool),
    /// The block copy ended with success or failure; `None` if waiting for
    /// it failed.
    Exited(Option<bool>),
    /// A command that cannot fail the write has returned; `true` if it ran
    /// and ended with success.
    Ran(bool),
    /// What came of asking for the partitions of the written device.
    Partitions(Lsblk),
    /// The labelling tool ended with success or failure; `None` if it could
    /// not be run.
    Labeled(Option<bool>),
}

/// What the caller does next for a write.
#[derive(Debug)]
pub enum Action {
    /// Probe the privilege and report `Event::Privilege`.
    ProbePrivilege,
    /// Start this command line as the block copy, its diagnostic stream
    /// piped, and report `Event::Spawned`.
    Spawn(Vec<String>),
    /// Read from the diagnostic stream and report `Event::Output` or
    /// `Event::OutputEnded`.
    ReadOutput,
    /// Wait for the block copy and report `Event::Exited`.
    Wait,
    /// Run this command line and report `Event::Ran`.
    Run(Vec<String>),
    /// Run this command line, read the partitions from its output, and
    /// report `Event::Partitions`.
    QueryPartitions(Vec<String>),
    /// Run this command line and report `Event::Labeled`.
    Label(Vec<String>),
    /// The write has ended with this result.
    Done(Result<(), FlashError>),
    /// The event does not fit the phase; nothing has changed.
    Rejected,
}

/// The answer to an event: progress lines for the front end, in order, and
/// the next action.
#[derive(Debug)]
pub struct Reaction {
    pub progress: Vec<String>,
    pub action: Action,
}

/// One write of an image to a device.
pub struct Flash {
    /// Path of the image.
    pub image: String,
    /// Path of the target device.
    pub device: String,
    /// File name of the image without its extension, if it has one.
    pub stem: Option<String>,
    pub phase: Phase,
    /// Whether the process is root, once probed.
    pub is_root: bool,
    /// The elevation tool in use, once probed.
    pub elevator: Option<Elevator>,
    pub splitter: LineSplitter,
    /// The label for the written device, once derived.
    pub label: String,
}

/// The notice sent when a write goes through an elevation tool.
pub open spec fn elevation_notice(tool: Elevator) -> Seq<char> {
    "Not running as root; using '"@ + tool.program() + "' for privilege elevation"@
}

/// The label and the command line for labelling `partition`.
pub open spec fn label_plan(partition: Seq<char>, fstype: Seq<char>, base: Seq<char>) -> (
    Seq<char>,
    Seq<Seq<char>>,
) {
    match label_family(fstype) {
        Some(family) => {
            let label = truncated(base, max_label_len(family));
            (label, seq![label_tool(family), partition, label])
        },
        None => (base, seq!["false"@]),
    }
}

/// The progress line that tells how labelling went.
pub open spec fn label_report(status: Option<bool>, label: Seq<char>) -> Seq<char> {
    match status {
        Some(true) => "Label set to "@ + label,
        Some(false) => "Labeling failed"@,
        None => "Labeling tool not available"@,
    }
}

/// The progress lines that tell how the partition-table refresh went:
/// none if it went well.
pub open spec fn refresh_report(refreshed: bool) -> Seq<Seq<char>> {
    if refreshed {
        Seq::empty()
    } else {
        seq!["Partition table refresh failed"@]
    }
}

/// The progress line for a partition query that gave no records; `output`
/// is not `Records`.
pub open spec fn query_report(output: Lsblk) -> Seq<char> {
    match output {
        Lsblk::Failed(_) => "lsblk failed for fstype"@,
        Lsblk::Unparsable => "parse lsblk fstype output"@,
        _ => "run lsblk for fstype"@,
    }
}

/// The label base of a write: the sanitized stem, empty without a stem.
pub open spec fn label_base(stem: Option<String>) -> Seq<char> {
    match stem {
        Some(stem) => sanitized(stem@),
        None => Seq::empty(),
    }
}

impl Flash {
    /// The image, the device and the stem are those of `before`.
    pub open spec fn same_job(self, before: Flash) -> bool {
        &&& self.image@ == before.image@
        &&& self.device@ == before.device@
        &&& self.stem.is_some() == before.stem.is_some()
        &&& self.stem.is_some() ==> self.stem.unwrap()@ == before.stem.unwrap()@
    }

    /// Everything but the phase is as in `before`.
    pub open spec fn same_but_phase(self, before: Flash) -> bool {
        &&& self.same_job(before)
        &&& self.is_root == before.is_root
        &&& self.elevator == before.elevator
        &&& self.splitter.pending@ == before.splitter.pending@
        &&& self.label@ == before.label@
    }

    /// The write has ended in `self` with an error, without a word to the
    /// front end.
    pub open spec fn failed(self, before: Flash, reaction: Reaction) -> bool {
        &&& self.same_but_phase(before)
        &&& self.phase == Phase::Finished
        &&& reaction.progress@.len() == 0
        &&& reaction.action matches Action::Done(Err(_))
    }

    /// The write has ended well in `self`, with `progress` as last lines.
    pub open spec fn succeeded(self, before: Flash, reaction: Reaction, progress: Seq<Seq<char>>) -> bool {
        &&& self.same_but_phase(before)
        &&& self.phase == Phase::Finished
        &&& texts(reaction.progress@) == progress
        &&& reaction.action matches Action::Done(Ok(_))
    }

    /// The write goes on in phase `phase` without a word to the front end.
    pub open spec fn moved(self, before: Flash, reaction: Reaction, phase: Phase) -> bool {
        &&& self.same_but_phase(before)
        &&& self.phase == phase
        &&& reaction.progress@.len() == 0
    }

    /// How a write in `before` answers `event`: `self` is the write after
    /// it, `reaction` what the caller gets.
    pub open spec fn follows(self, before: Flash, event: Event, reaction: Reaction) -> bool {
        match (before.phase, event) {
            (Phase::CheckingImage, Event::Header(HeaderRead::Bytes(header))) => match classify(
                header@,
            ) {
                IsoKind::Hybrid => self.moved(before, reaction, Phase::ProbingPrivilege)
                    && reaction.action is ProbePrivilege,
                IsoKind::NonHybrid => self.failed(before, reaction)
                    && reaction.action matches Action::Done(Err(FlashError::UnsafeImage)),
                IsoKind::Unknown => self.failed(before, reaction)
                    && reaction.action matches Action::Done(Err(FlashError::IndeterminateImage)),
            },
            (Phase::CheckingImage, Event::Header(read)) => {
                &&& self.failed(before, reaction)
                &&& reaction.action matches Action::Done(Err(FlashError::Io(text)))
                &&& text@ == header_failure_text(read, before.image@)
            },
            (Phase::ProbingPrivilege, Event::Privilege { is_root, has_pkexec, has_sudo }) => {
                let tool = if is_root {
                    None
                } else if has_pkexec {
                    Some(Elevator::Pkexec)
                } else if has_sudo {
                    Some(Elevator::Sudo)
                } else {
                    None
                };
                if !is_root && tool.is_none() {
                    self.failed(before, reaction) && reaction.action matches Action::Done(
                        Err(FlashError::ElevationUnavailable),
                    )
                } else {
                    &&& self.same_job(before)
                    &&& self.splitter.pending@ == before.splitter.pending@
                    &&& self.label@ == before.label@
                    &&& self.is_root == is_root
                    &&& self.elevator == tool
                    &&& self.phase == Phase::Spawning
                    &&& texts(reaction.progress@) == match tool {
                        Some(tool) => seq![elevation_notice(tool)],
                        None => Seq::empty(),
                    }
                    &&& reaction.action matches Action::Spawn(command)
                    &&& texts(command@) == elevated(
                        tool,
                        is_root,
                        seq!["dd"@] + dd_args(before.image@, before.device@),
                    )
                }
            },
            (Phase::Spawning, Event::Spawned(started)) => if started {
                self.moved(before, reaction, Phase::Copying) && reaction.action is ReadOutput
            } else {
                self.failed(before, reaction)
                    && reaction.action matches Action::Done(Err(FlashError::SpawnFailed))
            },
            (Phase::Copying, Event::Output(chunk)) => {
                &&& self.same_job(before)
                &&& self.is_root == before.is_root
                &&& self.elevator == before.elevator
                &&& self.label@ == before.label@
                &&& self.phase == Phase::Copying
                &&& texts(reaction.progress@) == split_lines(before.splitter.pending@, chunk@).0
                &&& self.splitter.pending@ == split_lines(before.splitter.pending@, chunk@).1
                &&& reaction.action is ReadOutput
            },
            (Phase::Copying, Event::OutputEnded(complete)) => if complete {
                &&& self.same_job(before)
                &&& self.is_root == before.is_root
                &&& self.elevator == before.elevator
                &&& self.label@ == before.label@
                &&& self.phase == Phase::Waiting
                &&& texts(reaction.progress@) == line_of(before.splitter.pending@)
                &&& self.splitter.pending@ == Seq::<char>::empty()
                &&& reaction.action is Wait
            } else {
                self.failed(before, reaction)
                    && reaction.action matches Action::Done(Err(FlashError::StreamFailed))
            },
            (Phase::Waiting, Event::Exited(status)) => match status {
                Some(true) => {
                    &&& self.moved(before, reaction, Phase::Syncing)
                    &&& reaction.action matches Action::Run(command)
                    &&& texts(command@) == seq!["sync"@]
                },
                Some(false) => self.failed(before, reaction)
                    && reaction.action matches Action::Done(Err(FlashError::WriteFailed)),
                None => self.failed(before, reaction)
                    && reaction.action matches Action::Done(Err(FlashError::WaitFailed)),
            },
            (Phase::Syncing, Event::Ran(_)) => {
                &&& self.moved(before, reaction, Phase::Refreshing)
                &&& reaction.action matches Action::Run(command)
                &&& texts(command@) == elevated(
                    before.elevator,
                    before.is_root,
                    seq!["partprobe"@, before.device@],
                )
            },
            (Phase::Refreshing, Event::Ran(refreshed)) => if label_base(before.stem).len() == 0 {
                self.succeeded(before, reaction, refresh_report(refreshed))
            } else {
                &&& self.same_job(before)
                &&& self.is_root == before.is_root
                &&& self.elevator == before.elevator
                &&& self.splitter.pending@ == before.splitter.pending@
                &&& self.label@ == label_base(before.stem)
                &&& self.phase == Phase::Querying
                &&& texts(reaction.progress@) == refresh_report(refreshed)
                &&& reaction.action matches Action::QueryPartitions(command)
                &&& texts(command@) == seq![
                    "lsblk"@,
                    "--json"@,
                    "-o"@,
                    "NAME,FSTYPE"@,
                    "-p"@,
                    before.device@,
                ]
            },
            (Phase::Querying, Event::Partitions(Lsblk::Records(records))) => match label_target_of(
                records@,
            ) {
                Some((partition, fstype)) => {
                    let plan = label_plan(partition, fstype, before.label@);
                    &&& self.same_job(before)
                    &&& self.is_root == before.is_root
                    &&& self.elevator == before.elevator
                    &&& self.splitter.pending@ == before.splitter.pending@
                    &&& self.label@ == plan.0
                    &&& self.phase == Phase::Labeling
                    &&& reaction.progress@.len() == 0
                    &&& reaction.action matches Action::Label(command)
                    &&& texts(command@) == elevated(before.elevator, before.is_root, plan.1)
                },
                None => self.succeeded(before, reaction, Seq::empty()),
            },
            (Phase::Querying, Event::Partitions(output)) => self.succeeded(
                before,
                reaction,
                seq![query_report(output)],
            ),
            (Phase::Labeling, Event::Labeled(status)) => self.succeeded(
                before,
                reaction,
                seq![label_report(status, before.label@)],
            ),
            _ => {
                &&& self.same_but_phase(before)
                &&& self.phase == before.phase
                &&& reaction.progress@.len() == 0
                &&& reaction.action is Rejected
            },
        }
    }

    /// A write of `image` to `device` that waits for the image header: the
    /// caller reads the first 520 bytes of the image and reports
    /// `Event::Header`.
    pub fn new(image: String, device: String, stem: Option<String>) -> (flash: Flash)
        ensures
            flash.image@ == image@,
            flash.device@ == device@,
            flash.stem == stem,
            flash.phase == Phase::CheckingImage,
            !flash.is_root,
            flash.elevator.is_none(),
            flash.splitter.pending@ == Seq::<char>::empty(),
            flash.label@ == Seq::<char>::empty(),
    {
        Flash {
            image,
            device,
            stem,
            phase: Phase::CheckingImage,
            is_root: false,
            elevator: None,
            splitter: LineSplitter::new(),
            label: String::new(),
        }
    }

    fn fail(&mut self, error: FlashError) -> (reaction: Reaction)
        ensures
            final(self).same_but_phase(*old(self)),
            final(self).phase == Phase::Finished,
            reaction.progress@.len() == 0,
            reaction.action == Action::Done(Err(error)),
    {
        self.phase = Phase::Finished;
        Reaction { progress: Vec::new(), action: Action::Done(Err(error)) }
    }

    fn succeed(&mut self, progress: Vec<String>) -> (reaction: Reaction)
        ensures
            final(self).same_but_phase(*old(self)),
            final(self).phase == Phase::Finished,
            reaction.progress == progress,
            reaction.action == Action::Done(Ok::<(), FlashError>(())),
    {
        self.phase = Phase::Finished;
        Reaction { progress, action: Action::Done(Ok(())) }
    }

    fn go(&mut self, phase: Phase, action: Action) -> (reaction: Reaction)
        ensures
            final(self).same_but_phase(*old(self)),
            final(self).phase == phase,
            reaction.progress@.len() == 0,
            reaction.action == action,
    {
        self.phase = phase;
        Reaction { progress: Vec::new(), action }
    }

    fn on_header(&mut self, read: HeaderRead) -> (reaction: Reaction)
        requires
            old(self).phase == Phase::CheckingImage,
        ensures
            final(self).follows(*old(self), Event::Header(read), reaction),
    {
        match read {
            HeaderRead::Bytes(header) => match detect(header.as_slice()) {
                IsoKind::Hybrid => self.go(Phase::ProbingPrivilege, Action::ProbePrivilege),
                IsoKind::NonHybrid => self.fail(FlashError::UnsafeImage),
                IsoKind::Unknown => self.fail(FlashError::IndeterminateImage),
            },
            HeaderRead::OpenFailed => {
                let text = header_failure(false, self.image.as_str());
                self.fail(FlashError::Io(text))
            },
            HeaderRead::ReadFailed => {
                let text = header_failure(true, self.image.as_str());
                self.fail(FlashError::Io(text))
            },
        }
    }

    fn on_privilege(&mut self, is_root: bool, has_pkexec: bool, has_sudo: bool) -> (reaction:
        Reaction)
        requires
            old(self).phase == Phase::ProbingPrivilege,
        ensures
            final(self).follows(
                *old(self),
                Event::Privilege { is_root, has_pkexec, has_sudo },
                reaction,
            ),
    {
        let tool = if is_root {
            None
        } else {
            find_elevator(has_pkexec, has_sudo)
        };
        let mut progress: Vec<String> = Vec::new();
        match tool {
            Some(tool) => {
                let mut notice = joined("Not running as root; using '", tool.name());
                notice.append("' for privilege elevation");
                progress.push(notice);
                assert(texts(progress@) =~= seq![elevation_notice(tool)]);
            },
            None => {
                if !is_root {
                    return self.fail(FlashError::ElevationUnavailable);
                }
                assert(texts(progress@) =~= Seq::<Seq<char>>::empty());
            },
        }
        let command = dd_command(self.image.as_str(), self.device.as_str(), tool, is_root);
        self.is_root = is_root;
        self.elevator = tool;
        self.phase = Phase::Spawning;
        Reaction { progress, action: Action::Spawn(command) }
    }

    fn on_refreshed(&mut self, refreshed: bool) -> (reaction: Reaction)
        requires
            old(self).phase == Phase::Refreshing,
        ensures
            final(self).follows(*old(self), Event::Ran(refreshed), reaction),
    {
        let mut progress: Vec<String> = Vec::new();
        if !refreshed {
            progress.push(String::from_str("Partition table refresh failed"));
        }
        assert(texts(progress@) =~= refresh_report(refreshed));
        let base = match &self.stem {
            Some(stem) => sanitize_label(stem.as_str()),
            None => String::new(),
        };
        if base.as_str().is_empty() {
            return self.succeed(progress);
        }
        let command = fstype_query(self.device.as_str());
        self.label = base;
        self.phase = Phase::Querying;
        Reaction { progress, action: Action::QueryPartitions(command) }
    }

    fn on_partitions(&mut self, output: Lsblk) -> (reaction: Reaction)
        requires
            old(self).phase == Phase::Querying,
        ensures
            final(self).follows(*old(self), Event::Partitions(output), reaction),
    {
        let records = match &output {
            Lsblk::Records(records) => records,
            Lsblk::NotRun => {
                return self.report_and_succeed("run lsblk for fstype", Ghost(output));
            },
            Lsblk::Failed(_) => {
                return self.report_and_succeed("lsblk failed for fstype", Ghost(output));
            },
            Lsblk::Unparsable => {
                return self.report_and_succeed("parse lsblk fstype output", Ghost(output));
            },
        };
        match label_target(records) {
            Some((partition, fstype)) => {
                let (label, tool, args) = label_command(
                    partition.as_str(),
                    fstype.as_str(),
                    self.label.as_str(),
                );
                let command = elevated_command(tool, &args, self.elevator, self.is_root);
                proof {
                    let plan = label_plan(partition@, fstype@, self.label@);
                    assert(seq![tool@] + texts(args@) =~= plan.1);
                }
                self.label = label;
                self.phase = Phase::Labeling;
                Reaction { progress: Vec::new(), action: Action::Label(command) }
            },
            None => {
                let reaction = self.succeed(Vec::new());
                assert(texts(reaction.progress@) =~= Seq::<Seq<char>>::empty());
                reaction
            },
        }
    }

    fn report_and_succeed(&mut self, report: &str, Ghost(output): Ghost<Lsblk>) -> (reaction:
        Reaction)
        requires
            report@ == query_report(output),
        ensures
            final(self).succeeded(*old(self), reaction, seq![query_report(output)]),
    {
        let progress = vec![String::from_str(report)];
        assert(texts(progress@) =~= seq![query_report(output)]);
        self.succeed(progress)
    }

    fn on_labeled(&mut self, status: Option<bool>) -> (reaction: Reaction)
        requires
            old(self).phase == Phase::Labeling,
        ensures
            final(self).follows(*old(self), Event::Labeled(status), reaction),
    {
        let report = match status {
            Some(true) => joined("Label set to ", self.label.as_str()),
            Some(false) => String::from_str("Labeling failed"),
            None => String::from_str("Labeling tool not available"),
        };
        let progress = vec![report];
        assert(texts(progress@) =~= seq![label_report(status, self.label@)]);
        self.succeed(progress)
    }

    /// Answers one event of a write.
    ///
    /// The write moves through its phases in a fixed order: the image
    /// header is classified, the privilege is settled, the block copy is
    /// started, its diagnostic stream is cut into progress lines, its end is
    /// awaited, the device is synced, the partition table is refreshed, and
    /// a partition is labelled. A failure up to the end of the block copy
    /// ends the write with an error; nothing after it can fail the write.
    /// An event that does not fit the phase changes nothing and is answered
    /// with `Action::Rejected`.
    pub fn advance(&mut self, event: Event) -> (reaction: Reaction)
        ensures
            final(self).follows(*old(self), event, reaction),
    {
        match (self.phase, event) {
            (Phase::CheckingImage, Event::Header(read)) => self.on_header(read),
            (Phase::ProbingPrivilege, Event::Privilege { is_root, has_pkexec, has_sudo }) => {
                self.on_privilege(is_root, has_pkexec, has_sudo)
            },
            (Phase::Spawning, Event::Spawned(started)) => {
                if started {
                    self.go(Phase::Copying, Action::ReadOutput)
                } else {
                    self.fail(FlashError::SpawnFailed)
                }
            },
            (Phase::Copying, Event::Output(chunk)) => {
                let progress = self.splitter.feed(chunk.as_str());
                Reaction { progress, action: Action::ReadOutput }
            },
            (Phase::Copying, Event::OutputEnded(complete)) => {
                if complete {
                    let progress = self.splitter.finish();
                    self.phase = Phase::Waiting;
                    Reaction { progress, action: Action::Wait }
                } else {
                    self.fail(FlashError::StreamFailed)
                }
            },
            (Phase::Waiting, Event::Exited(status)) => match status {
                Some(true) => {
                    let command = vec![String::from_str("sync")];
                    assert(texts(command@) =~= seq!["sync"@]);
                    self.go(Phase::Syncing, Action::Run(command))
                },
                Some(false) => self.fail(FlashError::WriteFailed),
                None => self.fail(FlashError::WaitFailed),
            },
            (Phase::Syncing, Event::Ran(_)) => {
                let command = partprobe_command(self.device.as_str(), self.elevator, self.is_root);
                self.go(Phase::Refreshing, Action::Run(command))
            },
            (Phase::Refreshing, Event::Ran(refreshed)) => self.on_refreshed(refreshed),
            (Phase::Querying, Event::Partitions(output)) => self.on_partitions(output),
            (Phase::Labeling, Event::Labeled(status)) => self.on_labeled(status),
            _ => Reaction { progress: Vec::new(), action: Action::Rejected },
        }
    }
}

/// An image that is not classified `Hybrid` is never written: the write ends
/// with an error as soon as its header is seen, and no block copy is
/// started.
pub proof fn lemma_unsafe_image_is_refused(
    before: Flash,
    header: Vec<u8>,
    after: Flash,
    reaction: Reaction,
)
    requires
        before.phase == Phase::CheckingImage,
        classify(header@) != IsoKind::Hybrid,
        after.follows(before, Event::Header(HeaderRead::Bytes(header)), reaction),
    ensures
        after.phase == Phase::Finished,
        reaction.action matches Action::Done(Err(_)),
        !(reaction.action is Spawn),
        classify(header@) == IsoKind::NonHybrid ==> reaction.action matches Action::Done(
            Err(FlashError::UnsafeImage),
        ),
        classify(header@) == IsoKind::Unknown ==> reaction.action matches Action::Done(
            Err(FlashError::IndeterminateImage),
        ),
{
}

/// A write that has ended stays ended: every further event is rejected and
/// asks for no action.
pub proof fn lemma_finished_is_final(before: Flash, event: Event, after: Flash, reaction: Reaction)
    requires
        before.phase == Phase::Finished,
        after.follows(before, event, reaction),
    ensures
        after.phase == Phase::Finished,
        reaction.action is Rejected,
        after.same_but_phase(before),
{
}

/// The block copy is started only in answer to the privilege probe, and the
/// privilege is probed only after a header classified `Hybrid`.
pub proof fn lemma_spawn_needs_hybrid(before: Flash, event: Event, after: Flash, reaction: Reaction)
    requires
        after.follows(before, event, reaction),
    ensures
        reaction.action is Spawn ==> before.phase == Phase::ProbingPrivilege,
        after.phase == Phase::ProbingPrivilege && before.phase != Phase::ProbingPrivilege ==> {
            &&& before.phase == Phase::CheckingImage
            &&& event matches Event::Header(HeaderRead::Bytes(header))
            &&& classify(header@) == IsoKind::Hybrid
        },
{
}

/// The place of a phase in the course of a write.
pub open spec fn phase_rank(phase: Phase) -> nat {
    match phase {
        Phase::CheckingImage => 0,
        Phase::ProbingPrivilege => 1,
        Phase::Spawning => 2,
        Phase::Copying => 3,
        Phase::Waiting => 4,
        Phase::Syncing => 5,
        Phase::Refreshing => 6,
        Phase::Querying => 7,
        Phase::Labeling => 8,
        Phase::Finished => 9,
    }
}

/// A write never goes back to an earlier phase. It reports its result
/// exactly when it ends, and it can only fail up to the end of the block
/// copy: once the copy has ended well, nothing fails the write.
pub proof fn lemma_write_moves_forward(before: Flash, event: Event, after: Flash, reaction: Reaction)
    requires
        after.follows(before, event, reaction),
    ensures
        phase_rank(before.phase) <= phase_rank(after.phase),
        reaction.action is Done <==> before.phase != Phase::Finished && after.phase
            == Phase::Finished,
        reaction.action matches Action::Done(Err(_)) ==> phase_rank(before.phase) <= phase_rank(
            Phase::Waiting,
        ),
        reaction.action is Rejected ==> after.phase == before.phase && after.same_but_phase(before),
        after.same_job(before),
{
}

/// How the stream is cut into pieces does not matter: feeding two pieces one
/// after the other gives the lines, in order, and the unfinished text that
/// feeding them as one piece gives.
pub proof fn lemma_split_lines_of_pieces(pending: Seq<char>, first: Seq<char>, second: Seq<char>)
    ensures
        split_lines(pending, first + second).0 == split_lines(pending, first).0 + split_lines(
            split_lines(pending, first).1,
            second,
        ).0,
        split_lines(pending, first + second).1 == split_lines(
            split_lines(pending, first).1,
            second,
        ).1,
    decreases second.len(),
{
    let mid = split_lines(pending, first);
    if second.len() == 0 {
        assert(first + second =~= first);
        assert(mid.0 + Seq::<Seq<char>>::empty() =~= mid.0);
    } else {
        lemma_split_lines_of_pieces(pending, first, second.drop_last());
        assert((first + second).drop_last() =~= first + second.drop_last());
        let front = split_lines(mid.1, second.drop_last());
        assert(mid.0 + (front.0 + line_of(front.1)) =~= (mid.0 + front.0) + line_of(front.1));
    }
}

/// A course of a write: each state follows from the one before by the
/// event and with the reaction at the same place.
pub open spec fn is_course(states: Seq<Flash>, events: Seq<Event>, reactions: Seq<Reaction>) -> bool {
    &&& states.len() == events.len() + 1
    &&& reactions.len() == events.len()
    &&& forall|i: int|
        0 <= i < events.len() ==> states[i + 1].follows(states[i], #[trigger] events[i], reactions[i])
}

/// Whatever is reported to a write whose image is not classified `Hybrid`,
/// and for however long, no block copy is ever started: the write ends with
/// the header, and stays ended.
pub proof fn lemma_unsafe_image_never_spawns(
    states: Seq<Flash>,
    events: Seq<Event>,
    reactions: Seq<Reaction>,
    header: Vec<u8>,
)
    requires
        is_course(states, events, reactions),
        events.len() > 0,
        states[0].phase == Phase::CheckingImage,
        events[0] == Event::Header(HeaderRead::Bytes(header)),
        classify(header@) != IsoKind::Hybrid,
    ensures
        forall|i: int| 0 <= i < reactions.len() ==> !((#[trigger] reactions[i]).action is Spawn),
        forall|i: int| 1 <= i < states.len() ==> (#[trigger] states[i]).phase == Phase::Finished,
{
    assert forall|i: int| 1 <= i < states.len() implies (#[trigger] states[i]).phase
        == Phase::Finished by {
        lemma_ended_after(states, events, reactions, i);
    }
    assert forall|i: int| 0 <= i < reactions.len() implies !((#[trigger] reactions[i]).action
        is Spawn) by {
        let _ = events[i];
        if i > 0 {
            lemma_ended_after(states, events, reactions, i);
        }
    }
}

/// In a course whose first step ends the write, every later state is
/// `Finished`.
proof fn lemma_ended_after(
    states: Seq<Flash>,
    events: Seq<Event>,
    reactions: Seq<Reaction>,
    i: int,
)
    requires
        is_course(states, events, reactions),
        1 <= i < states.len(),
        states[0].phase == Phase::CheckingImage,
        events[0] matches Event::Header(HeaderRead::Bytes(header)) && classify(header@)
            != IsoKind::Hybrid,
    ensures
        states[i].phase == Phase::Finished,
    decreases i,
{
    let _ = events[i - 1];
    if i > 1 {
        lemma_ended_after(states, events, reactions, i - 1);
    }
}

} // verus!
