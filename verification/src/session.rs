//! The session: what the user has chosen, where the session stands, and how
//! it answers keys and the news of a running write.
//!
//! The session never does input or output. Where a key needs some, the
//! answer is a `Request` that names it; the front end does it and reports
//! back through the method that the request names.

use vstd::prelude::*;
use vstd::string::StringExecFns;
use crate::device::{
    device_path_of, disk_views, list, listed, lsblk_failure_text, Disk, DiskView, Lsblk,
};
use crate::flash::{dd_bytes, header_failure, header_failure_text, parse_dd_bytes, HeaderRead};
use crate::iso::{classify, detect, IsoKind};
use crate::text::{joined, from_chars, push_char, str_eq, texts, to_chars, trim, trimmed};

verus! {

/// An entry of the file picker.
#[derive(Debug, Clone)]
pub struct FileEntry {
    /// Name shown; `..` for the parent directory.
    pub name: String,
    /// Full path.
    pub path: String,
    pub is_dir: bool,
}

/// The text of a `FileEntry`.
pub struct FileEntryView {
    pub name: Seq<char>,
    pub path: Seq<char>,
    pub is_dir: bool,
}

impl View for FileEntry {
    type V = FileEntryView;

    open spec fn view(&self) -> FileEntryView {
        FileEntryView { name: self.name@, path: self.path@, is_dir: self.is_dir }
    }
}

/// The texts of a sequence of entries.
pub open spec fn entry_views(entries: Seq<FileEntry>) -> Seq<FileEntryView> {
    Seq::new(entries.len(), |i: int| entries[i]@)
}

/// Where the session stands.
#[derive(Debug, Clone, Copy, PartialEq, Eq, Structural)]
pub enum Step {
    /// Choosing the image.
    Image,
    /// Choosing the target device.
    Device,
    /// Reviewing the choice.
    Confirm,
    /// A write is running.
    Flashing,
    /// The write has ended; its result is shown.
    Result,
    /// The session has failed; the status says why.
    Error,
}

/// Tells the front end to leave.
#[derive(Debug, Clone, Copy, PartialEq, Eq, Structural)]
pub enum AppExit {
    Quit,
}

/// How a write ended.
#[derive(Debug, Clone)]
pub struct FlashResult {
    pub ok: bool,
    pub message: String,
}

/// The text of a `FlashResult`.
pub struct FlashResultView {
    pub ok: bool,
    pub message: Seq<char>,
}

impl View for FlashResult {
    type V = FlashResultView;

    open spec fn view(&self) -> FlashResultView {
        FlashResultView { ok: self.ok, message: self.message@ }
    }
}

/// A key as the session sees it.
#[derive(Debug, Clone, Copy, PartialEq, Eq, Structural)]
pub enum KeyCode {
    Enter,
    Backspace,
    Up,
    Down,
    Char(char),
    /// Any key that the session does not react to.
    Other,
}

/// A key press: the key, and whether Control was held.
#[derive(Debug, Clone, Copy, PartialEq, Eq, Structural)]
pub struct Key {
    pub code: KeyCode,
    pub ctrl: bool,
}

/// What the front end has to do after a key.
#[derive(Debug)]
pub enum Request {
    /// Nothing.
    Nothing,
    /// Leave.
    Exit(AppExit),
    /// Find out whether this path is a regular file, read its header if it
    /// is, and report through `App::image_checked`.
    CheckImage(String),
    /// Read the header of the image at this path and report through
    /// `App::refresh_iso_kind`.
    ClassifyImage(String),
    /// Read this directory and report through `App::directory_entered`.
    OpenDirectory(String),
    /// Read the parent of the current directory, if it has one, and report
    /// through `App::directory_entered`.
    OpenParent,
    /// Ask for the block devices and report through `App::devices_listed`
    /// with this flag.
    ListDevices { toggled: bool },
    /// Find the size of the image, call `App::start_flash`, and run the
    /// write of this image to this device on a worker.
    StartFlash { image: String, device: String },
}

/// The text of a `Request`.
pub enum RequestView {
    Nothing,
    Exit(AppExit),
    CheckImage(Seq<char>),
    ClassifyImage(Seq<char>),
    OpenDirectory(Seq<char>),
    OpenParent,
    ListDevices { toggled: bool },
    StartFlash { image: Seq<char>, device: Seq<char> },
}

impl View for Request {
    type V = RequestView;

    open spec fn view(&self) -> RequestView {
        match *self {
            Request::Nothing => RequestView::Nothing,
            Request::Exit(exit) => RequestView::Exit(exit),
            Request::CheckImage(path) => RequestView::CheckImage(path@),
            Request::ClassifyImage(path) => RequestView::ClassifyImage(path@),
            Request::OpenDirectory(path) => RequestView::OpenDirectory(path@),
            Request::OpenParent => RequestView::OpenParent,
            Request::ListDevices { toggled } => RequestView::ListDevices { toggled },
            Request::StartFlash { image, device } => RequestView::StartFlash {
                image: image@,
                device: device@,
            },
        }
    }
}

/// The state of a session.
pub struct App {
    pub step: Step,
    /// The image path as typed or picked.
    pub image_input: String,
    /// The directory that the file picker shows.
    pub cwd: String,
    pub entries: Vec<FileEntry>,
    pub entry_selected: usize,
    pub iso_kind: IsoKind,
    /// What to tell the user about the image; empty if nothing yet.
    pub iso_info: String,
    pub devices: Vec<Disk>,
    pub selected: usize,
    pub selected_device: Option<Disk>,
    /// A message for the user; empty if there is none.
    pub status: String,
    /// Whether a confirmed write is carried out; a dry run otherwise.
    pub execute: bool,
    pub show_all_disks: bool,
    /// The latest progress line of the write.
    pub flash_progress: String,
    pub flash_result: Option<FlashResult>,
    /// The size of the image, if known.
    pub flash_total: Option<u64>,
    /// The bytes written so far, by the latest progress line that said so.
    pub flash_done: u64,
}

/// The text of an `App`.
pub struct AppView {
    pub step: Step,
    pub image_input: Seq<char>,
    pub cwd: Seq<char>,
    pub entries: Seq<FileEntryView>,
    pub entry_selected: usize,
    pub iso_kind: IsoKind,
    pub iso_info: Seq<char>,
    pub devices: Seq<DiskView>,
    pub selected: usize,
    pub selected_device: Option<DiskView>,
    pub status: Seq<char>,
    pub execute: bool,
    pub show_all_disks: bool,
    pub flash_progress: Seq<char>,
    pub flash_result: Option<FlashResultView>,
    pub flash_total: Option<u64>,
    pub flash_done: u64,
}

impl View for App {
    type V = AppView;

    open spec fn view(&self) -> AppView {
        AppView {
            step: self.step,
            image_input: self.image_input@,
            cwd: self.cwd@,
            entries: entry_views(self.entries@),
            entry_selected: self.entry_selected,
            iso_kind: self.iso_kind,
            iso_info: self.iso_info@,
            devices: disk_views(self.devices@),
            selected: self.selected,
            selected_device: match self.selected_device {
                Some(disk) => Some(disk@),
                None => None,
            },
            status: self.status@,
            execute: self.execute,
            show_all_disks: self.show_all_disks,
            flash_progress: self.flash_progress@,
            flash_result: match self.flash_result {
                Some(result) => Some(result@),
                None => None,
            },
            flash_total: self.flash_total,
            flash_done: self.flash_done,
        }
    }
}

/// The text of an optional string.
pub open spec fn opt_text(s: Option<String>) -> Option<Seq<char>> {
    match s {
        Some(s) => Some(s@),
        None => None,
    }
}

/// The image path that an input stands for: the input without surrounding
/// whitespace, if anything is left.
pub open spec fn image_path_of(input: Seq<char>) -> Option<Seq<char>> {
    if trimmed(input).len() == 0 {
        None
    } else {
        Some(trimmed(input))
    }
}

/// The index of the first device with the path `path`.
pub open spec fn first_with_path(devices: Seq<DiskView>, path: Seq<char>) -> Option<int>
    decreases devices.len(),
{
    if devices.len() == 0 {
        None
    } else {
        match first_with_path(devices.drop_last(), path) {
            Some(i) => Some(i),
            None => if device_path_of(devices.last().name) == path {
                Some(devices.len() - 1)
            } else {
                None
            },
        }
    }
}

/// The status that a new session starts with.
pub open spec fn initial_status(image_rejected: bool, no_devices: bool) -> Seq<char> {
    let first = if image_rejected {
        "Provided --image path must point to an existing file."@
    } else {
        Seq::empty()
    };
    if no_devices {
        let gap = if image_rejected {
            "  "@
        } else {
            Seq::empty()
        };
        first + gap + "No devices detected. Press r to rescan or a to show all."@
    } else {
        first
    }
}

/// A new session.
pub open spec fn initial(
    image: Option<Seq<char>>,
    image_is_file: bool,
    device: Option<Seq<char>>,
    execute: bool,
    devices: Seq<DiskView>,
    cwd: Seq<char>,
    entries: Seq<FileEntryView>,
) -> AppView {
    let preselected = match device {
        Some(path) => first_with_path(devices, path),
        None => None,
    };
    AppView {
        step: if image.is_some() && image_is_file {
            Step::Device
        } else {
            Step::Image
        },
        image_input: match image {
            Some(path) => path,
            None => Seq::empty(),
        },
        cwd,
        entries,
        entry_selected: 0,
        iso_kind: IsoKind::Unknown,
        iso_info: Seq::empty(),
        devices,
        selected: match preselected {
            Some(i) => i as usize,
            None => 0,
        },
        selected_device: match preselected {
            Some(i) => Some(devices[i]),
            None => None,
        },
        status: initial_status(image.is_some() && !image_is_file, devices.len() == 0),
        execute,
        show_all_disks: false,
        flash_progress: Seq::empty(),
        flash_result: None,
        flash_total: None,
        flash_done: 0,
    }
}

/// The session after its image was looked at: `is_file` says whether the
/// path is a regular file.
pub open spec fn validated(a: AppView, is_file: bool) -> AppView {
    if image_path_of(a.image_input).is_some() && is_file {
        AppView { status: Seq::empty(), ..a }
    } else {
        AppView {
            status: "Image path must point to a file."@,
            iso_kind: IsoKind::Unknown,
            iso_info: Seq::empty(),
            ..a
        }
    }
}

/// What the user is told about an image of kind `kind`.
pub open spec fn kind_info(kind: IsoKind) -> Seq<char> {
    match kind {
        IsoKind::Hybrid => "Hybrid ISO detected (raw write)."@,
        IsoKind::NonHybrid => "Non-hybrid ISO (unsupported)."@,
        IsoKind::Unknown => "ISO type unknown."@,
    }
}

/// The session after the header of its image was read, or could not be.
pub open spec fn refreshed(a: AppView, read: HeaderRead) -> AppView {
    match image_path_of(a.image_input) {
        None => AppView { iso_kind: IsoKind::Unknown, iso_info: Seq::empty(), ..a },
        Some(path) => match read {
            HeaderRead::Bytes(header) => AppView {
                iso_kind: classify(header@),
                iso_info: kind_info(classify(header@)),
                ..a
            },
            _ => AppView {
                iso_kind: IsoKind::Unknown,
                iso_info: "ISO check failed: "@ + header_failure_text(read, path),
                ..a
            },
        },
    }
}

/// The session after the image was checked: `found` is `None` if the path
/// is no regular file, and what reading its header gave otherwise. The
/// answer counts only while the image is chosen; at any other step the
/// session stays as it is.
pub open spec fn checked(a: AppView, found: Option<HeaderRead>) -> AppView {
    if a.step != Step::Image {
        a
    } else {
        match found {
            Some(read) if image_path_of(a.image_input).is_some() => AppView {
                step: Step::Device,
                ..refreshed(validated(a, true), read)
            },
            _ => validated(a, false),
        }
    }
}

/// The session after the file picker has entered the directory `cwd` with
/// the entries `entries`. The picker moves only while the image is chosen;
/// at any other step the session stays as it is.
pub open spec fn entered(a: AppView, cwd: Seq<char>, entries: Seq<FileEntryView>) -> AppView {
    if a.step != Step::Image {
        a
    } else {
        AppView { cwd, entries, entry_selected: 0, ..a }
    }
}

/// The session after the block devices were asked for; `toggled` says
/// whether the question followed a switch between all and removable disks.
/// The answer counts only while the device is chosen; at any other step the
/// session stays as it is, device list included.
pub open spec fn relisted(a: AppView, output: Lsblk, toggled: bool) -> AppView {
    if a.step != Step::Device {
        a
    } else {
        match output {
            Lsblk::Records(records) => {
                let devices = listed(records@, a.show_all_disks);
                AppView {
                    devices,
                    selected: 0,
                    status: if devices.len() == 0 {
                        "No devices detected."@
                    } else if !toggled {
                        "Devices re-scanned."@
                    } else if a.show_all_disks {
                        "Showing all disks (be careful)."@
                    } else {
                        "Showing removable disks only."@
                    },
                    ..a
                }
            },
            _ => AppView {
                devices: Seq::empty(),
                selected: 0,
                status: if toggled {
                    "Disk list failed: "@ + lsblk_failure_text(output)
                } else {
                    "Rescan failed: "@ + lsblk_failure_text(output)
                },
                ..a
            },
        }
    }
}

/// The byte count after a run of progress lines: that of the last line
/// that starts with one, or `done` if none does.
pub open spec fn last_bytes(done: u64, lines: Seq<Seq<char>>) -> u64
    decreases lines.len(),
{
    if lines.len() == 0 {
        done
    } else {
        match dd_bytes(lines.last()) {
            Some(bytes) => bytes,
            None => last_bytes(done, lines.drop_last()),
        }
    }
}

/// The text of the news of how a write ended.
pub open spec fn outcome_text(outcome: Option<Result<(), String>>) -> Option<Result<(), Seq<char>>> {
    match outcome {
        Some(Ok(_)) => Some(Ok(())),
        Some(Err(text)) => Some(Err(text@)),
        None => None,
    }
}

/// The session after the news of a running write: the progress lines that
/// came, in order, and then the result, if it has come.
pub open spec fn polled(a: AppView, lines: Seq<Seq<char>>, outcome: Option<Result<(), Seq<char>>>) -> AppView {
    if a.step != Step::Flashing {
        a
    } else {
        let b = AppView {
            flash_done: last_bytes(a.flash_done, lines),
            flash_progress: if lines.len() > 0 {
                lines.last()
            } else {
                a.flash_progress
            },
            ..a
        };
        match outcome {
            None => b,
            Some(Ok(_)) => AppView {
                flash_result: Some(
                    FlashResultView { ok: true, message: "Flash completed successfully."@ },
                ),
                step: Step::Result,
                ..b
            },
            Some(Err(text)) => AppView {
                flash_result: Some(FlashResultView { ok: false, message: text }),
                step: Step::Result,
                ..b
            },
        }
    }
}

/// Whether a write may start: the choice is under review and the image is
/// classified `Hybrid`. An image that is not classified blocks a write as
/// one without a partition table does.
pub open spec fn may_start(a: AppView) -> bool {
    a.step == Step::Confirm && a.iso_kind == IsoKind::Hybrid
}

/// The status that tells why an image of kind `kind`, which is not
/// `Hybrid`, cannot be written.
pub open spec fn blocked_status(kind: IsoKind) -> Seq<char> {
    match kind {
        IsoKind::Unknown => "Unable to determine ISO type."@,
        _ => "ISO has no partition table; hybrid ISO required."@,
    }
}

/// The session after a write has started.
pub open spec fn started(a: AppView, total: Option<u64>) -> AppView {
    if may_start(a) {
        AppView {
            flash_progress: "Starting..."@,
            flash_done: 0,
            flash_total: total,
            step: Step::Flashing,
            ..a
        }
    } else {
        a
    }
}

/// The first progress line of a write.
pub open spec fn flash_banner(image: Seq<char>, device: Seq<char>) -> Seq<char> {
    "Flashing "@ + image + " -> "@ + device
}

/// The message of a dry run.
pub open spec fn dry_run_message(image: Seq<char>, device: Seq<char>) -> Seq<char> {
    "Dry run: would flash "@ + image + " to "@ + device
}

/// The answer to a key while the image is chosen.
pub open spec fn image_key(a: AppView, key: Key) -> (AppView, RequestView) {
    match key.code {
        KeyCode::Enter => match image_path_of(a.image_input) {
            Some(path) => (a, RequestView::CheckImage(path)),
            None => if a.entry_selected < a.entries.len() {
                let entry = a.entries[a.entry_selected as int];
                if entry.is_dir {
                    (a, RequestView::OpenDirectory(entry.path))
                } else {
                    let picked = AppView { image_input: entry.path, ..a };
                    match image_path_of(entry.path) {
                        Some(path) => (picked, RequestView::CheckImage(path)),
                        None => (validated(picked, false), RequestView::Nothing),
                    }
                }
            } else {
                (a, RequestView::Nothing)
            },
        },
        KeyCode::Backspace => if a.image_input.len() > 0 {
            (AppView { image_input: a.image_input.drop_last(), ..a }, RequestView::Nothing)
        } else {
            (a, RequestView::OpenParent)
        },
        KeyCode::Up => if a.entry_selected > 0 {
            (AppView { entry_selected: (a.entry_selected - 1) as usize, ..a }, RequestView::Nothing)
        } else {
            (a, RequestView::Nothing)
        },
        KeyCode::Down => if a.entry_selected + 1 < a.entries.len() {
            (AppView { entry_selected: (a.entry_selected + 1) as usize, ..a }, RequestView::Nothing)
        } else {
            (a, RequestView::Nothing)
        },
        KeyCode::Char(c) => if key.ctrl {
            if c == 'u' {
                (AppView { image_input: Seq::empty(), ..a }, RequestView::Nothing)
            } else {
                (a, RequestView::Nothing)
            }
        } else {
            (AppView { image_input: a.image_input.push(c), ..a }, RequestView::Nothing)
        },
        KeyCode::Other => (a, RequestView::Nothing),
    }
}

/// The answer to a key while the device is chosen.
pub open spec fn device_key(a: AppView, key: Key) -> (AppView, RequestView) {
    match key.code {
        KeyCode::Up => if a.selected > 0 {
            (AppView { selected: (a.selected - 1) as usize, ..a }, RequestView::Nothing)
        } else {
            (a, RequestView::Nothing)
        },
        KeyCode::Down => if a.selected + 1 < a.devices.len() {
            (AppView { selected: (a.selected + 1) as usize, ..a }, RequestView::Nothing)
        } else {
            (a, RequestView::Nothing)
        },
        KeyCode::Char(c) => if c == 'r' {
            (a, RequestView::ListDevices { toggled: false })
        } else if c == 'a' {
            (
                AppView { show_all_disks: !a.show_all_disks, ..a },
                RequestView::ListDevices { toggled: true },
            )
        } else if c == 'b' {
            (AppView { step: Step::Image, ..a }, RequestView::Nothing)
        } else {
            (a, RequestView::Nothing)
        },
        KeyCode::Enter => if a.selected < a.devices.len() {
            let chosen = AppView {
                selected_device: Some(a.devices[a.selected as int]),
                step: Step::Confirm,
                ..a
            };
            if a.iso_kind == IsoKind::Unknown {
                match image_path_of(a.image_input) {
                    Some(path) => (chosen, RequestView::ClassifyImage(path)),
                    None => (AppView { iso_info: Seq::empty(), ..chosen }, RequestView::Nothing),
                }
            } else {
                (chosen, RequestView::Nothing)
            }
        } else {
            (
                AppView { status: "No removable devices found."@, step: Step::Error, ..a },
                RequestView::Nothing,
            )
        },
        _ => (a, RequestView::Nothing),
    }
}

/// The answer to a key while the choice is reviewed. The key `f` goes on
/// only for an image classified `Hybrid`: any other kind ends the session
/// with an error, for a dry run as for a write. For a `Hybrid` image with a
/// path and a device, it asks for the write, or gives the result of a dry
/// run at once.
pub open spec fn confirm_key(a: AppView, key: Key) -> (AppView, RequestView) {
    match key.code {
        KeyCode::Char(c) => if c == 'f' {
            if a.iso_kind != IsoKind::Hybrid {
                (
                    AppView { status: blocked_status(a.iso_kind), step: Step::Error, ..a },
                    RequestView::Nothing,
                )
            } else {
                match (image_path_of(a.image_input), a.selected_device) {
                    (Some(image), Some(disk)) => if a.execute {
                        (a, RequestView::StartFlash { image, device: device_path_of(disk.name) })
                    } else {
                        (
                            AppView {
                                flash_result: Some(
                                    FlashResultView {
                                        ok: true,
                                        message: dry_run_message(image, device_path_of(disk.name)),
                                    },
                                ),
                                step: Step::Result,
                                ..a
                            },
                            RequestView::Nothing,
                        )
                    },
                    _ => (a, RequestView::Nothing),
                }
            }
        } else if c == 'b' {
            (AppView { step: Step::Device, ..a }, RequestView::Nothing)
        } else {
            (a, RequestView::Nothing)
        },
        _ => (a, RequestView::Nothing),
    }
}

/// The answer to a key: the session after it, and what the front end has
/// to do. `q` leaves at every step; any other key goes to the step's own
/// keys. While a write runs and after the session has ended, no key but
/// `q` does anything.
pub open spec fn key_effect(a: AppView, key: Key) -> (AppView, RequestView) {
    if key.code == KeyCode::Char('q') {
        (a, RequestView::Exit(AppExit::Quit))
    } else {
        match a.step {
            Step::Image => image_key(a, key),
            Step::Device => device_key(a, key),
            Step::Confirm => confirm_key(a, key),
            _ => (a, RequestView::Nothing),
        }
    }
}

impl App {
    /// A new session.
    ///
    /// `image` is the image given on the command line and `image_is_file`
    /// says whether it is a regular file; with such an image the session
    /// starts at the choice of the device, otherwise at the choice of the
    /// image. `device` is a device path given on the command line: the first
    /// of `devices` with that path is preselected. `cwd` and `entries` are
    /// the directory that the file picker shows first.
    pub fn new(
        image: Option<String>,
        image_is_file: bool,
        device: Option<String>,
        execute: bool,
        devices: Vec<Disk>,
        cwd: String,
        entries: Vec<FileEntry>,
    ) -> (app: App)
        ensures
            app@ == initial(
                opt_text(image),
                image_is_file,
                opt_text(device),
                execute,
                disk_views(devices@),
                cwd@,
                entry_views(entries@),
            ),
    {
        let mut selected: usize = 0;
        let mut selected_device: Option<Disk> = None;
        match &device {
            Some(path) => {
                let mut i: usize = 0;
                assert(disk_views(devices@).take(0) =~= Seq::<DiskView>::empty());
                while i < devices.len()
                    invariant
                        i <= devices@.len(),
                        match first_with_path(disk_views(devices@).take(i as int), path@) {
                            Some(at) => {
                                &&& at < i
                                &&& selected == at
                                &&& selected_device matches Some(disk)
                                &&& disk@ == devices@[at]@
                            },
                            None => selected == 0 && selected_device.is_none(),
                        },
                    decreases devices@.len() - i,
                {
                    proof {
                        let next = disk_views(devices@).take(i + 1);
                        assert(next.drop_last() =~= disk_views(devices@).take(i as int));
                        assert(next.last() == devices@[i as int]@);
                    }
                    if selected_device.is_none() {
                        let here = devices[i].device_path();
                        if str_eq(here.as_str(), path.as_str()) {
                            selected = i;
                            selected_device = Some(devices[i].duplicate());
                        }
                    }
                    i += 1;
                }
                assert(disk_views(devices@).take(devices@.len() as int) =~= disk_views(devices@));
            },
            None => {},
        }
        let rejected = image.is_some() && !image_is_file;
        let step = if image.is_some() && image_is_file {
            Step::Device
        } else {
            Step::Image
        };
        let mut status = String::new();
        if rejected {
            status.append("Provided --image path must point to an existing file.");
        }
        if devices.len() == 0 {
            if rejected {
                status.append("  ");
            }
            status.append("No devices detected. Press r to rescan or a to show all.");
        }
        assert(status@ =~= initial_status(rejected, devices@.len() == 0));
        let image_input = match image {
            Some(path) => path,
            None => String::new(),
        };
        App {
            step,
            image_input,
            cwd,
            entries,
            entry_selected: 0,
            iso_kind: IsoKind::Unknown,
            iso_info: String::new(),
            devices,
            selected,
            selected_device,
            status,
            execute,
            show_all_disks: false,
            flash_progress: String::new(),
            flash_result: None,
            flash_total: None,
            flash_done: 0,
        }
    }

    /// The image path: the input without surrounding whitespace, or `None`
    /// if nothing is left.
    pub fn image_path(&self) -> (path: Option<String>)
        ensures
            opt_text(path) == image_path_of(self.image_input@),
    {
        let path = trim(self.image_input.as_str());
        if path.as_str().is_empty() {
            None
        } else {
            Some(path)
        }
    }

    /// Records whether the image path names a regular file; `is_file` is
    /// what the front end found for `image_path()`.
    ///
    /// With a path that is a file the status is cleared and the result is
    /// `true`. Otherwise the status says that the path must point to a
    /// file, the image counts as unclassified, and the result is `false`.
    /// The step does not change.
    pub fn validate_image(&mut self, is_file: bool) -> (valid: bool)
        ensures
            valid == (image_path_of(old(self).image_input@).is_some() && is_file),
            final(self)@ == validated(old(self)@, is_file),
    {
        if self.image_path().is_some() && is_file {
            self.status = String::new();
            true
        } else {
            self.status = String::from_str("Image path must point to a file.");
            self.iso_kind = IsoKind::Unknown;
            self.iso_info = String::new();
            false
        }
    }

    /// Classifies the image from what reading its header gave, and records
    /// the kind and a line about it. Without an image path the image
    /// counts as unclassified; so it does when the header could not be
    /// read, and the line then says why.
    pub fn refresh_iso_kind(&mut self, read: &HeaderRead)
        ensures
            final(self)@ == refreshed(old(self)@, *read),
    {
        match self.image_path() {
            None => {
                self.iso_kind = IsoKind::Unknown;
                self.iso_info = String::new();
            },
            Some(path) => match read {
                HeaderRead::Bytes(header) => {
                    let kind = detect(header.as_slice());
                    self.iso_kind = kind;
                    self.iso_info = match kind {
                        IsoKind::Hybrid => String::from_str("Hybrid ISO detected (raw write)."),
                        IsoKind::NonHybrid => String::from_str("Non-hybrid ISO (unsupported)."),
                        IsoKind::Unknown => String::from_str("ISO type unknown."),
                    };
                },
                HeaderRead::OpenFailed => {
                    let why = header_failure(false, path.as_str());
                    self.iso_kind = IsoKind::Unknown;
                    self.iso_info = joined("ISO check failed: ", why.as_str());
                },
                HeaderRead::ReadFailed => {
                    let why = header_failure(true, path.as_str());
                    self.iso_kind = IsoKind::Unknown;
                    self.iso_info = joined("ISO check failed: ", why.as_str());
                },
            },
        }
    }

    /// Takes the answer to `Request::CheckImage`: `found` is `None` if the
    /// path is no regular file, and what reading its header gave otherwise.
    /// An image that is a file is classified and the session moves on to the
    /// choice of the device.
    ///
    /// The answer is accepted only while the image is chosen. At any other
    /// step nothing changes and the result is `false`.
    pub fn image_checked(&mut self, found: &Option<HeaderRead>) -> (accepted: bool)
        ensures
            accepted == (old(self).step == Step::Image),
            final(self)@ == checked(old(self)@, *found),
    {
        match self.step {
            Step::Image => {},
            _ => {
                return false;
            },
        }
        match found {
            Some(read) => {
                if self.validate_image(true) {
                    self.refresh_iso_kind(read);
                    self.step = Step::Device;
                }
            },
            None => {
                self.validate_image(false);
            },
        }
        true
    }

    /// Takes the answer to `Request::OpenDirectory` or `Request::OpenParent`:
    /// the file picker now shows `entries` of `cwd`, the first one selected.
    ///
    /// The answer is accepted only while the image is chosen. At any other
    /// step nothing changes and the result is `false`.
    pub fn directory_entered(&mut self, cwd: String, entries: Vec<FileEntry>) -> (accepted: bool)
        ensures
            accepted == (old(self).step == Step::Image),
            final(self)@ == entered(old(self)@, cwd@, entry_views(entries@)),
    {
        match self.step {
            Step::Image => {},
            _ => {
                return false;
            },
        }
        self.cwd = cwd;
        self.entries = entries;
        self.entry_selected = 0;
        true
    }

    /// Takes the answer to `Request::ListDevices`. The device list becomes
    /// what `list` makes of `output` under the current choice between all
    /// and removable disks, or empty where that fails; the status tells the
    /// user what happened; the first device is selected.
    ///
    /// The answer is accepted only while the device is chosen. At any other
    /// step nothing changes and the result is `false`.
    pub fn devices_listed(&mut self, output: &Lsblk, toggled: bool) -> (accepted: bool)
        ensures
            accepted == (old(self).step == Step::Device),
            final(self)@ == relisted(old(self)@, *output, toggled),
    {
        match self.step {
            Step::Device => {},
            _ => {
                return false;
            },
        }
        match list(output, self.show_all_disks) {
            Ok(devices) => {
                self.status = if devices.len() == 0 {
                    String::from_str("No devices detected.")
                } else if !toggled {
                    String::from_str("Devices re-scanned.")
                } else if self.show_all_disks {
                    String::from_str("Showing all disks (be careful).")
                } else {
                    String::from_str("Showing removable disks only.")
                };
                self.devices = devices;
            },
            Err(why) => {
                self.devices = Vec::new();
                assert(disk_views(self.devices@) =~= Seq::<DiskView>::empty());
                self.status = if toggled {
                    joined("Disk list failed: ", why.as_str())
                } else {
                    joined("Rescan failed: ", why.as_str())
                };
            },
        }
        self.selected = 0;
        true
    }

    /// Marks the start of the write of `image` to `device`; `total` is the
    /// size of the image, if known.
    ///
    /// A write starts only from the review of the choice, and only for an
    /// image classified `Hybrid`. The session then moves to `Flashing` and
    /// the result is the first progress line. Otherwise, and so for an
    /// image that is not classified, nothing changes and the result is
    /// `None`: the front end must not run the write.
    pub fn start_flash(&mut self, image: &str, device: &str, total: Option<u64>) -> (banner: Option<
        String,
    >)
        ensures
            final(self)@ == started(old(self)@, total),
            opt_text(banner) == if may_start(old(self)@) {
                Some(flash_banner(image@, device@))
            } else {
                None
            },
    {
        let reviewing = match self.step {
            Step::Confirm => true,
            _ => false,
        };
        let hybrid = match self.iso_kind {
            IsoKind::Hybrid => true,
            _ => false,
        };
        if !reviewing || !hybrid {
            return None;
        }
        self.flash_progress = String::from_str("Starting...");
        self.flash_done = 0;
        self.flash_total = total;
        self.step = Step::Flashing;
        let mut banner = joined("Flashing ", image);
        banner.append(" -> ");
        banner.append(device);
        Some(banner)
    }

    /// Takes the news of the running write: the progress lines that came
    /// since the last call, in order, and the result, if it has come.
    ///
    /// Each line becomes the latest progress line, and a line that starts
    /// with a byte count sets the bytes written. The result is looked at
    /// only after all lines; with it the session moves to `Result`. Outside
    /// `Flashing` the call changes nothing.
    pub fn poll_flash(&mut self, lines: &Vec<String>, outcome: Option<Result<(), String>>)
        ensures
            final(self)@ == polled(old(self)@, texts(lines@), outcome_text(outcome)),
    {
        match self.step {
            Step::Flashing => {},
            _ => {
                return ;
            },
        }
        let ghost start = self@;
        let mut i: usize = 0;
        assert(texts(lines@).take(0) =~= Seq::<Seq<char>>::empty());
        while i < lines.len()
            invariant
                i <= lines@.len(),
                self@ == (AppView {
                    flash_done: last_bytes(start.flash_done, texts(lines@).take(i as int)),
                    flash_progress: if i > 0 {
                        lines@[i - 1]@
                    } else {
                        start.flash_progress
                    },
                    ..start
                }),
            decreases lines@.len() - i,
        {
            proof {
                let next = texts(lines@).take(i + 1);
                assert(next.drop_last() =~= texts(lines@).take(i as int));
                assert(next.last() == lines@[i as int]@);
            }
            match parse_dd_bytes(lines[i].as_str()) {
                Some(bytes) => {
                    self.flash_done = bytes;
                },
                None => {},
            }
            self.flash_progress = lines[i].clone();
            i += 1;
        }
        assert(texts(lines@).take(lines@.len() as int) =~= texts(lines@));
        match outcome {
            Some(Ok(())) => {
                self.flash_result = Some(
                    FlashResult {
                        ok: true,
                        message: String::from_str("Flash completed successfully."),
                    },
                );
                self.step = Step::Result;
            },
            Some(Err(why)) => {
                self.flash_result = Some(FlashResult { ok: false, message: why });
                self.step = Step::Result;
            },
            None => {},
        }
    }
}

/// The share of the image that is written, in percent, as a gauge shows
/// it: nothing without a known, positive size; otherwise a hundred times the
/// bytes written (at most the largest 64-bit number), divided by the size,
/// in the low 16 bits. The share is not clamped: it passes 100 when more was
/// written than the size said.
pub open spec fn percent_of(done: u64, total: Option<u64>) -> u16 {
    match total {
        Some(total) if total > 0 => {
            let scaled: u64 = if done * 100 > u64::MAX {
                u64::MAX
            } else {
                (done * 100) as u64
            };
            (scaled / total) as u16
        },
        _ => 0,
    }
}

/// The share of the image that is written, in percent. It is at most 100
/// as long as no more is written than the size says.
pub fn progress_percent(app: &App) -> (percent: u16)
    ensures
        percent == percent_of(app.flash_done, app.flash_total),
        app.flash_total matches Some(total) && total > 0 && app.flash_done <= total ==> percent
            <= 100,
{
    match app.flash_total {
        Some(total) => {
            if total == 0 {
                0
            } else {
                let scaled: u64 = match app.flash_done.checked_mul(100) {
                    Some(scaled) => scaled,
                    None => u64::MAX,
                };
                let share: u64 = scaled / total;
                assert(app.flash_done <= total ==> share <= 100) by (nonlinear_arith)
                    requires
                        total > 0,
                        share == scaled / total,
                        scaled <= app.flash_done * 100,
                ;
                #[verifier::truncate]
                (share as u16)
            }
        },
        None => 0,
    }
}

/// The line about the image for the review of the choice: what the
/// classification recorded, or a line for the kind if it recorded nothing.
pub fn iso_info_line(app: &App) -> (line: String)
    ensures
        line@ == if app.iso_info@.len() > 0 {
            app.iso_info@
        } else {
            match app.iso_kind {
                IsoKind::Hybrid => "Hybrid ISO detected (raw write)."@,
                IsoKind::NonHybrid => "Non-hybrid ISO (unsupported)."@,
                IsoKind::Unknown => "Unknown ISO type."@,
            }
        },
{
    if app.iso_info.as_str().is_empty() {
        match app.iso_kind {
            IsoKind::Hybrid => String::from_str("Hybrid ISO detected (raw write)."),
            IsoKind::NonHybrid => String::from_str("Non-hybrid ISO (unsupported)."),
            IsoKind::Unknown => String::from_str("Unknown ISO type."),
        }
    } else {
        app.iso_info.clone()
    }
}

fn handle_image_step(app: &mut App, key: Key) -> (request: Request)
    ensures
        final(app)@ == image_key(old(app)@, key).0,
        request@ == image_key(old(app)@, key).1,
{
    match key.code {
        KeyCode::Enter => match app.image_path() {
            Some(path) => Request::CheckImage(path),
            None => {
                if app.entry_selected < app.entries.len() {
                    let is_dir = app.entries[app.entry_selected].is_dir;
                    let path = app.entries[app.entry_selected].path.clone();
                    if is_dir {
                        Request::OpenDirectory(path)
                    } else {
                        app.image_input = path;
                        match app.image_path() {
                            Some(path) => Request::CheckImage(path),
                            None => {
                                app.validate_image(false);
                                Request::Nothing
                            },
                        }
                    }
                } else {
                    Request::Nothing
                }
            },
        },
        KeyCode::Backspace => {
            let chars = to_chars(app.image_input.as_str());
            if chars.len() > 0 {
                app.image_input = from_chars(&chars, 0, chars.len() - 1);
                assert(app.image_input@ =~= old(app).image_input@.drop_last());
                Request::Nothing
            } else {
                Request::OpenParent
            }
        },
        KeyCode::Up => {
            if app.entry_selected > 0 {
                app.entry_selected = app.entry_selected - 1;
            }
            Request::Nothing
        },
        KeyCode::Down => {
            if app.entry_selected < app.entries.len() && app.entry_selected + 1
                < app.entries.len() {
                app.entry_selected = app.entry_selected + 1;
            }
            Request::Nothing
        },
        KeyCode::Char(c) => {
            if key.ctrl {
                if c == 'u' {
                    app.image_input = String::new();
                }
            } else {
                push_char(&mut app.image_input, c);
            }
            Request::Nothing
        },
        KeyCode::Other => Request::Nothing,
    }
}

fn handle_device_step(app: &mut App, key: Key) -> (request: Request)
    ensures
        final(app)@ == device_key(old(app)@, key).0,
        request@ == device_key(old(app)@, key).1,
{
    match key.code {
        KeyCode::Up => {
            if app.selected > 0 {
                app.selected = app.selected - 1;
            }
            Request::Nothing
        },
        KeyCode::Down => {
            if app.selected < app.devices.len() && app.selected + 1 < app.devices.len() {
                app.selected = app.selected + 1;
            }
            Request::Nothing
        },
        KeyCode::Char(c) => {
            if c == 'r' {
                Request::ListDevices { toggled: false }
            } else if c == 'a' {
                app.show_all_disks = !app.show_all_disks;
                Request::ListDevices { toggled: true }
            } else if c == 'b' {
                app.step = Step::Image;
                Request::Nothing
            } else {
                Request::Nothing
            }
        },
        KeyCode::Enter => {
            if app.selected < app.devices.len() {
                app.selected_device = Some(app.devices[app.selected].duplicate());
                app.step = Step::Confirm;
                let unclassified = match app.iso_kind {
                    IsoKind::Unknown => true,
                    _ => false,
                };
                if unclassified {
                    match app.image_path() {
                        Some(path) => Request::ClassifyImage(path),
                        None => {
                            app.iso_info = String::new();
                            Request::Nothing
                        },
                    }
                } else {
                    Request::Nothing
                }
            } else {
                app.status = String::from_str("No removable devices found.");
                app.step = Step::Error;
                Request::Nothing
            }
        },
        _ => Request::Nothing,
    }
}

fn handle_confirm_step(app: &mut App, key: Key) -> (request: Request)
    ensures
        final(app)@ == confirm_key(old(app)@, key).0,
        request@ == confirm_key(old(app)@, key).1,
{
    match key.code {
        KeyCode::Char(c) => {
            if c == 'f' {
                match app.iso_kind {
                    IsoKind::Hybrid => {},
                    IsoKind::NonHybrid => {
                        app.status = String::from_str(
                            "ISO has no partition table; hybrid ISO required.",
                        );
                        app.step = Step::Error;
                        return Request::Nothing;
                    },
                    IsoKind::Unknown => {
                        app.status = String::from_str("Unable to determine ISO type.");
                        app.step = Step::Error;
                        return Request::Nothing;
                    },
                }
                let image = app.image_path();
                let device = match &app.selected_device {
                    Some(disk) => Some(disk.device_path()),
                    None => None,
                };
                match (image, device) {
                    (Some(image), Some(device)) => {
                        if app.execute {
                            Request::StartFlash { image, device }
                        } else {
                            let mut message = joined("Dry run: would flash ", image.as_str());
                            message.append(" to ");
                            message.append(device.as_str());
                            app.flash_result = Some(FlashResult { ok: true, message });
                            app.step = Step::Result;
                            Request::Nothing
                        }
                    },
                    _ => Request::Nothing,
                }
            } else if c == 'b' {
                app.step = Step::Device;
                Request::Nothing
            } else {
                Request::Nothing
            }
        },
        _ => Request::Nothing,
    }
}

/// Answers a key.
///
/// `q` asks the front end to leave, at every step. Any other key goes to
/// the keys of the current step; the result names what the front end has to
/// do, if anything. While a write runs, and once the session has ended, no
/// other key does anything.
pub fn handle_key(app: &mut App, key: Key) -> (request: Request)
    ensures
        final(app)@ == key_effect(old(app)@, key).0,
        request@ == key_effect(old(app)@, key).1,
{
    match key.code {
        KeyCode::Char(c) => {
            if c == 'q' {
                return Request::Exit(AppExit::Quit);
            }
        },
        _ => {},
    }
    match app.step {
        Step::Image => handle_image_step(app, key),
        Step::Device => handle_device_step(app, key),
        Step::Confirm => handle_confirm_step(app, key),
        _ => Request::Nothing,
    }
}

/// No key starts a write, or gives the success of a dry run, for an image
/// that is not classified `Hybrid`, and no key changes the device list. A
/// write is asked for only from the review of the choice, with execution
/// switched on. Under review, the key `f` ends the session with an error
/// for an image without partition table and for one that is not classified
/// alike.
pub proof fn lemma_keys_do_not_start_unsafe_writes(a: AppView, key: Key)
    ensures
        key_effect(a, key).0.devices == a.devices,
        key_effect(a, key).1 is StartFlash ==> a.step == Step::Confirm && a.execute && a.iso_kind
            == IsoKind::Hybrid,
        a.iso_kind != IsoKind::Hybrid ==> key_effect(a, key).0.flash_result == a.flash_result,
        key_effect(a, key).0.step == Step::Flashing ==> a.step == Step::Flashing,
        a.iso_kind != IsoKind::Hybrid && a.step == Step::Confirm && key.code == KeyCode::Char(
            'f',
        ) ==> {
            &&& key_effect(a, key).0.step == Step::Error
            &&& key_effect(a, key).0.status == blocked_status(a.iso_kind)
            &&& key_effect(a, key).0.flash_result == a.flash_result
            &&& key_effect(a, key).1 is Nothing
        },
{
}

/// A session whose image is not classified `Hybrid` cannot be moved into a
/// write: the attempt leaves it as it is, device list included.
pub proof fn lemma_unsafe_image_is_not_started(a: AppView, total: Option<u64>)
    requires
        a.iso_kind != IsoKind::Hybrid,
    ensures
        started(a, total) == a,
{
}

/// What the front end reports back counts only at the step that asked for
/// it: the answer to an image check and a directory while the image is
/// chosen, a device listing while the device is chosen. While a write runs
/// and once the session has ended, none of them changes anything.
pub proof fn lemma_reports_count_at_their_step(
    a: AppView,
    found: Option<HeaderRead>,
    cwd: Seq<char>,
    entries: Seq<FileEntryView>,
    output: Lsblk,
    toggled: bool,
)
    ensures
        a.step != Step::Image ==> checked(a, found) == a && entered(a, cwd, entries) == a,
        a.step != Step::Device ==> relisted(a, output, toggled) == a,
        checked(a, found).step == a.step || (a.step == Step::Image && checked(a, found).step
            == Step::Device),
        entered(a, cwd, entries).step == a.step,
        relisted(a, output, toggled).step == a.step,
{
}

/// The news of a write changes nothing unless a write is running.
pub proof fn lemma_poll_is_idle_outside_flashing(
    a: AppView,
    lines: Seq<Seq<char>>,
    outcome: Option<Result<(), Seq<char>>>,
)
    requires
        a.step != Step::Flashing,
    ensures
        polled(a, lines, outcome) == a,
{
}

/// The steps that a key can lead to. The choice of the image is left only
/// by the answer to an image check; from the choice of the device a key
/// leads back to the image, on to the review, or to an error; from the
/// review it leads back to the device, to the result of a dry run, or to an
/// error. No key leads into or out of a running write, and no key but `q`
/// does anything once the session has ended.
pub proof fn lemma_key_steps(a: AppView, key: Key)
    ensures
        ({
            let next = key_effect(a, key).0.step;
            match a.step {
                Step::Image => next == Step::Image,
                Step::Device => next == Step::Device || next == Step::Image || next
                    == Step::Confirm || next == Step::Error,
                Step::Confirm => next == Step::Confirm || next == Step::Device || next
                    == Step::Result || next == Step::Error,
                _ => key_effect(a, key).0 == a,
            }
        }),
        key_effect(a, key).0.step == Step::Result && a.step != Step::Result ==> !a.execute
            && a.iso_kind == IsoKind::Hybrid,
{
}

/// A write is entered only from the review of the choice, and left only
/// with its result.
pub proof fn lemma_write_is_entered_from_review(
    a: AppView,
    total: Option<u64>,
    lines: Seq<Seq<char>>,
    outcome: Option<Result<(), Seq<char>>>,
)
    ensures
        started(a, total).step == Step::Flashing ==> a.step == Step::Confirm || a.step
            == Step::Flashing,
        a.step == Step::Flashing ==> started(a, total) == a,
        a.step == Step::Flashing ==> polled(a, lines, outcome).step == (if outcome.is_some() {
            Step::Result
        } else {
            Step::Flashing
        }),
{
}

/// The byte count after two runs of progress lines is the count after
/// them as one run.
pub proof fn lemma_last_bytes_of_runs(done: u64, first: Seq<Seq<char>>, second: Seq<Seq<char>>)
    ensures
        last_bytes(last_bytes(done, first), second) == last_bytes(done, first + second),
    decreases second.len(),
{
    if second.len() == 0 {
        assert(first + second =~= first);
    } else {
        lemma_last_bytes_of_runs(done, first, second.drop_last());
        assert((first + second).drop_last() =~= first + second.drop_last());
    }
}

/// However the progress lines are spread over the polls, the session ends
/// up the same: two polls, the result coming with the second if at all,
/// leave the session as one poll with all the lines does.
pub proof fn lemma_polls_compose(
    a: AppView,
    first: Seq<Seq<char>>,
    second: Seq<Seq<char>>,
    outcome: Option<Result<(), Seq<char>>>,
)
    ensures
        polled(polled(a, first, None), second, outcome) == polled(a, first + second, outcome),
{
    lemma_last_bytes_of_runs(a.flash_done, first, second);
    if second.len() == 0 {
        assert(first + second =~= first);
    }
}

} // verus!
