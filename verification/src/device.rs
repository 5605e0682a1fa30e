//! Block devices as `lsblk` reports them, and the choice of write targets.
//!
//! The caller runs `lsblk --json` and hands over its records; this module
//! decides which of them are offered as targets and which partition of a
//! freshly written device gets a label.

use vstd::prelude::*;
use vstd::string::StringExecFns;
use crate::label::{family_of, label_family};
use crate::text::{joined, str_eq, texts, trim, trimmed};

verus! {

/// A disk that can be chosen as the target of a write.
#[derive(Debug, Clone)]
pub struct Disk {
    /// Device name without directory, such as `sdb`.
    pub name: String,
    /// Model as reported, empty if unknown.
    pub model: String,
    /// Size as reported, empty if unknown.
    pub size: String,
}

/// The text of a `Disk`.
pub struct DiskView {
    pub name: Seq<char>,
    pub model: Seq<char>,
    pub size: Seq<char>,
}

impl View for Disk {
    type V = DiskView;

    open spec fn view(&self) -> DiskView {
        DiskView { name: self.name@, model: self.model@, size: self.size@ }
    }
}

/// The path of the device called `name`.
pub open spec fn device_path_of(name: Seq<char>) -> Seq<char> {
    "/dev/"@ + name
}

impl Disk {
    /// The path of the device: `/dev/` followed by its name.
    pub fn device_path(&self) -> (path: String)
        ensures
            path@ == device_path_of(self.name@),
    {
        joined("/dev/", self.name.as_str())
    }

    /// Whether `other` is the same device: two disks are the same device
    /// when they have the same path, whatever their model and size say.
    pub fn same_device(&self, other: &Disk) -> (same: bool)
        ensures
            same == (device_path_of(self.name@) == device_path_of(other.name@)),
            same == (self.name@ == other.name@),
    {
        proof {
            if device_path_of(self.name@) == device_path_of(other.name@) {
                lemma_device_path_is_injective(self.name@, other.name@);
            }
        }
        str_eq(self.device_path().as_str(), other.device_path().as_str())
    }

    /// A copy with the same text.
    pub fn duplicate(&self) -> (copy: Disk)
        ensures
            copy@ == self@,
    {
        Disk { name: self.name.clone(), model: self.model.clone(), size: self.size.clone() }
    }
}

/// A partition below a device record: what `lsblk` lists under `children`.
#[derive(Debug, Clone)]
pub struct LsblkChild {
    /// The partition as `lsblk` names it. Partitions are read only from the
    /// partition query, which asks for full paths (option `-p`): the name
    /// is the partition's device path, such as `/dev/sdb1`, and is used as
    /// it stands.
    pub name: String,
    /// The file-system type, if the partition has one.
    pub fstype: Option<String>,
}

/// One top-level record of `lsblk --json`.
#[derive(Debug, Clone)]
pub struct LsblkDevice {
    /// The device as `lsblk` names it: without directory, such as `sdb`,
    /// in the listing of target disks; the full path in the partition
    /// query, where it is not read.
    pub name: String,
    pub model: Option<String>,
    pub size: Option<String>,
    /// The removable flag, if reported.
    pub rm: Option<bool>,
    /// The record's `type` column: `disk`, `part`, `loop`, ...
    pub devtype: String,
    pub fstype: Option<String>,
    pub children: Vec<LsblkChild>,
}

/// The text of an optional column; a missing one reads as empty.
pub open spec fn text_or_empty(column: Option<String>) -> Seq<char> {
    match column {
        Some(text) => text@,
        None => Seq::empty(),
    }
}

/// Whether a record is offered as a target: it is a disk, and it is
/// removable unless all disks are asked for.
pub open spec fn is_listed(dev: LsblkDevice, show_all: bool) -> bool {
    dev.devtype@ == "disk"@ && (show_all || dev.rm == Some(true))
}

/// The disk that a record describes.
pub open spec fn disk_of(dev: LsblkDevice) -> DiskView {
    DiskView {
        name: dev.name@,
        model: text_or_empty(dev.model),
        size: text_or_empty(dev.size),
    }
}

/// The disks offered from `records`, in the order of the records.
pub open spec fn listed(records: Seq<LsblkDevice>, show_all: bool) -> Seq<DiskView>
    decreases records.len(),
{
    if records.len() == 0 {
        Seq::empty()
    } else if is_listed(records.last(), show_all) {
        listed(records.drop_last(), show_all).push(disk_of(records.last()))
    } else {
        listed(records.drop_last(), show_all)
    }
}

/// The texts of a sequence of disks.
pub open spec fn disk_views(disks: Seq<Disk>) -> Seq<DiskView> {
    Seq::new(disks.len(), |i: int| disks[i]@)
}

/// The device paths of a sequence of disks, as a set.
pub open spec fn device_paths(disks: Seq<DiskView>) -> Set<Seq<char>> {
    Set::new(
        |path: Seq<char>|
            exists|i: int| 0 <= i < disks.len() && path == device_path_of(#[trigger] disks[i].name),
    )
}

fn owned_or_empty(column: &Option<String>) -> (text: String)
    ensures
        text@ == text_or_empty(*column),
{
    match column {
        Some(text) => text.clone(),
        None => String::new(),
    }
}

/// The disks among `records` that are offered as targets.
///
/// Only records of type `disk` count. With `show_all` false, only those
/// flagged removable are kept; with `show_all` true, every disk is. A missing
/// model or size becomes an empty string.
pub fn select_disks(records: &Vec<LsblkDevice>, show_all: bool) -> (disks: Vec<Disk>)
    ensures
        disk_views(disks@) == listed(records@, show_all),
{
    let mut disks: Vec<Disk> = Vec::new();
    let mut i: usize = 0;
    while i < records.len()
        invariant
            i <= records@.len(),
            disk_views(disks@) == listed(records@.take(i as int), show_all),
        decreases records@.len() - i,
    {
        let dev = &records[i];
        let removable = match dev.rm {
            Some(flag) => flag,
            None => false,
        };
        proof {
            let next = records@.take(i + 1);
            assert(next.drop_last() =~= records@.take(i as int));
            assert(next.last() == records@[i as int]);
        }
        if str_eq(dev.devtype.as_str(), "disk") && (show_all || removable) {
            let ghost before = disks@;
            disks.push(
                Disk {
                    name: dev.name.clone(),
                    model: owned_or_empty(&dev.model),
                    size: owned_or_empty(&dev.size),
                },
            );
            assert(disk_views(disks@) =~= disk_views(before).push(disk_of(records@[i as int])));
        }
        i += 1;
    }
    assert(records@.take(records@.len() as int) =~= records@);
    disks
}

/// What came of asking `lsblk` for the block devices.
#[derive(Debug, Clone)]
pub enum Lsblk {
    /// The records it printed.
    Records(Vec<LsblkDevice>),
    /// The command could not be run.
    NotRun,
    /// The command ended with a failure status; the text is what it wrote
    /// to its diagnostic stream.
    Failed(String),
    /// The command's output could not be read as device records.
    Unparsable,
}

/// The message for a query that gave no records; `output` is not `Records`.
pub open spec fn lsblk_failure_text(output: Lsblk) -> Seq<char> {
    match output {
        Lsblk::Failed(diagnostics) => if trimmed(diagnostics@).len() == 0 {
            "lsblk failed"@
        } else {
            "lsblk failed: "@ + trimmed(diagnostics@)
        },
        Lsblk::Unparsable => "parse lsblk output"@,
        _ => "run lsblk"@,
    }
}

/// Lists the disks that are offered as targets.
///
/// The listing succeeds exactly when the query gave records; it then holds
/// the disks chosen by `select_disks`. Any other outcome of the query is an
/// error with one message.
pub fn list(output: &Lsblk, show_all: bool) -> (disks: Result<Vec<Disk>, String>)
    ensures
        match *output {
            Lsblk::Records(records) => disks matches Ok(found) && disk_views(found@) == listed(
                records@,
                show_all,
            ),
            _ => disks matches Err(text) && text@ == lsblk_failure_text(*output),
        },
{
    match output {
        Lsblk::Records(records) => Ok(select_disks(records, show_all)),
        Lsblk::NotRun => Err(String::from_str("run lsblk")),
        Lsblk::Failed(diagnostics) => {
            let detail = trim(diagnostics.as_str());
            if detail.as_str().is_empty() {
                Err(String::from_str("lsblk failed"))
            } else {
                Err(joined("lsblk failed: ", detail.as_str()))
            }
        },
        Lsblk::Unparsable => Err(String::from_str("parse lsblk output")),
    }
}

/// The command line that asks for the block devices.
pub fn list_query() -> (command: Vec<String>)
    ensures
        texts(command@) == seq!["lsblk"@, "--json"@, "-o"@, "NAME,MODEL,SIZE,RM,TYPE"@],
{
    let command = vec![
        String::from_str("lsblk"),
        String::from_str("--json"),
        String::from_str("-o"),
        String::from_str("NAME,MODEL,SIZE,RM,TYPE"),
    ];
    assert(texts(command@) =~= seq!["lsblk"@, "--json"@, "-o"@, "NAME,MODEL,SIZE,RM,TYPE"@]);
    command
}

/// Every disk offered when only removable disks are asked for is also
/// offered when all disks are.
pub proof fn lemma_removable_listing_is_subset(records: Seq<LsblkDevice>, disk: DiskView)
    requires
        listed(records, false).contains(disk),
    ensures
        listed(records, true).contains(disk),
    decreases records.len(),
{
    if records.len() > 0 {
        let rest = listed(records.drop_last(), false);
        let i = choose|i: int| 0 <= i < listed(records, false).len() && listed(records, false)[i] == disk;
        if is_listed(records.last(), false) && i == rest.len() {
            let all = listed(records, true);
            assert(all[all.len() - 1] == disk);
        } else {
            assert(rest[i] == disk);
            lemma_removable_listing_is_subset(records.drop_last(), disk);
            let all_rest = listed(records.drop_last(), true);
            let j = choose|j: int| 0 <= j < all_rest.len() && all_rest[j] == disk;
            assert(listed(records, true)[j] == disk);
        }
    }
}

/// The device paths offered when only removable disks are asked for are
/// among the device paths offered when all disks are.
pub proof fn lemma_removable_paths_are_subset(records: Seq<LsblkDevice>)
    ensures
        device_paths(listed(records, false)).subset_of(device_paths(listed(records, true))),
{
    let some = listed(records, false);
    let all = listed(records, true);
    assert forall|path: Seq<char>| device_paths(some).contains(path) implies device_paths(
        all,
    ).contains(path) by {
        let i = choose|i: int| 0 <= i < some.len() && path == device_path_of(#[trigger] some[i].name);
        assert(some.contains(some[i]));
        lemma_removable_listing_is_subset(records, some[i]);
        let j = choose|j: int| 0 <= j < all.len() && all[j] == some[i];
        assert(path == device_path_of(all[j].name));
    }
}

/// Whether `part` can be had from `whole` by leaving entries out, the rest
/// staying in order.
pub open spec fn is_subsequence(part: Seq<DiskView>, whole: Seq<DiskView>) -> bool
    decreases whole.len(),
{
    if part.len() == 0 {
        true
    } else if whole.len() == 0 {
        false
    } else if part.last() == whole.last() && is_subsequence(part.drop_last(), whole.drop_last()) {
        true
    } else {
        is_subsequence(part, whole.drop_last())
    }
}

/// The listing of the removable disks is the listing of all disks with the
/// other disks left out: the disks that stay keep their order.
pub proof fn lemma_removable_listing_keeps_order(records: Seq<LsblkDevice>)
    ensures
        is_subsequence(listed(records, false), listed(records, true)),
        listed(records, false).len() <= listed(records, true).len(),
    decreases records.len(),
{
    if records.len() > 0 {
        lemma_removable_listing_keeps_order(records.drop_last());
        let some = listed(records.drop_last(), false);
        let all = listed(records.drop_last(), true);
        let disk = disk_of(records.last());
        if is_listed(records.last(), false) {
            assert(some.push(disk).drop_last() =~= some);
            assert(all.push(disk).drop_last() =~= all);
        } else if is_listed(records.last(), true) {
            assert(all.push(disk).drop_last() =~= all);
        }
    }
}

/// Every listed disk comes from a record that is listed.
proof fn lemma_listed_has_record(records: Seq<LsblkDevice>, show_all: bool, i: int)
    requires
        0 <= i < listed(records, show_all).len(),
    ensures
        exists|k: int|
            0 <= k < records.len() && is_listed(#[trigger] records[k], show_all) && disk_of(
                records[k],
            ) == listed(records, show_all)[i],
    decreases records.len(),
{
    let rest = listed(records.drop_last(), show_all);
    if is_listed(records.last(), show_all) && i == rest.len() {
        assert(is_listed(records[records.len() - 1], show_all));
    } else {
        lemma_listed_has_record(records.drop_last(), show_all, i);
        let k = choose|k: int|
            0 <= k < records.drop_last().len() && is_listed(
                #[trigger] records.drop_last()[k],
                show_all,
            ) && disk_of(records.drop_last()[k]) == rest[i];
        assert(records[k] == records.drop_last()[k]);
    }
}

/// Every listed record has its disk in the listing.
proof fn lemma_record_is_listed(records: Seq<LsblkDevice>, show_all: bool, k: int)
    requires
        0 <= k < records.len(),
        is_listed(records[k], show_all),
    ensures
        listed(records, show_all).contains(disk_of(records[k])),
    decreases records.len(),
{
    let rest = listed(records.drop_last(), show_all);
    if k == records.len() - 1 {
        let all = listed(records, show_all);
        assert(all[all.len() - 1] == disk_of(records[k]));
    } else {
        lemma_record_is_listed(records.drop_last(), show_all, k);
        let j = choose|j: int| 0 <= j < rest.len() && rest[j] == disk_of(records[k]);
        assert(listed(records, show_all)[j] == disk_of(records[k]));
    }
}

/// Two device paths are equal only if the names are.
pub proof fn lemma_device_path_is_injective(a: Seq<char>, b: Seq<char>)
    requires
        device_path_of(a) == device_path_of(b),
    ensures
        a == b,
{
    let prefix = "/dev/"@;
    assert(a =~= device_path_of(a).subrange(prefix.len() as int, device_path_of(a).len() as int));
    assert(b =~= device_path_of(b).subrange(prefix.len() as int, device_path_of(b).len() as int));
}

/// Where some disk is not removable and shares its name with no removable
/// disk, the device paths of the removable listing are a strict subset of
/// those of the full listing: the path of that disk is in the one and not in
/// the other.
pub proof fn lemma_removable_paths_are_strict_subset(records: Seq<LsblkDevice>, fixed: int)
    requires
        0 <= fixed < records.len(),
        is_listed(records[fixed], true),
        forall|k: int|
            0 <= k < records.len() && is_listed(#[trigger] records[k], false) ==> records[k].name@
                != records[fixed].name@,
    ensures
        device_paths(listed(records, false)).subset_of(device_paths(listed(records, true))),
        device_paths(listed(records, true)).contains(device_path_of(records[fixed].name@)),
        !device_paths(listed(records, false)).contains(device_path_of(records[fixed].name@)),
{
    lemma_removable_paths_are_subset(records);
    let path = device_path_of(records[fixed].name@);
    let all = listed(records, true);
    let some = listed(records, false);
    lemma_record_is_listed(records, true, fixed);
    let j = choose|j: int| 0 <= j < all.len() && all[j] == disk_of(records[fixed]);
    assert(path == device_path_of(all[j].name));
    if device_paths(some).contains(path) {
        let i = choose|i: int| 0 <= i < some.len() && path == device_path_of(#[trigger] some[i].name);
        lemma_listed_has_record(records, false, i);
        let k = choose|k: int|
            0 <= k < records.len() && is_listed(#[trigger] records[k], false) && disk_of(
                records[k],
            ) == some[i];
        lemma_device_path_is_injective(records[k].name@, records[fixed].name@);
    }
}

/// The index of the first child whose file system can be labelled.
pub open spec fn first_labelable(children: Seq<LsblkChild>) -> Option<int>
    decreases children.len(),
{
    if children.len() == 0 {
        None
    } else {
        match first_labelable(children.drop_last()) {
            Some(i) => Some(i),
            None => if is_labelable(children.last()) {
                Some(children.len() - 1)
            } else {
                None
            },
        }
    }
}

/// Whether a partition has a file system that can be labelled.
pub open spec fn is_labelable(child: LsblkChild) -> bool {
    match child.fstype {
        Some(fstype) => label_family(fstype@).is_some(),
        None => false,
    }
}

/// The partition to label, as its device path and file-system type: the
/// first labelable child of the last disk record that has one. The path is
/// the child's name, which the partition query reports in full.
pub open spec fn label_target_of(records: Seq<LsblkDevice>) -> Option<(Seq<char>, Seq<char>)>
    decreases records.len(),
{
    if records.len() == 0 {
        None
    } else {
        let dev = records.last();
        match first_labelable(dev.children@) {
            Some(i) if dev.devtype@ == "disk"@ => Some(
                (dev.children@[i].name@, text_or_empty(dev.children@[i].fstype)),
            ),
            _ => label_target_of(records.drop_last()),
        }
    }
}

/// The text of an optional pair of strings.
pub open spec fn pair_text(pair: Option<(String, String)>) -> Option<(Seq<char>, Seq<char>)> {
    match pair {
        Some((a, b)) => Some((a@, b@)),
        None => None,
    }
}

/// The first child of `children` whose file system can be labelled.
fn find_labelable(children: &Vec<LsblkChild>) -> (found: Option<usize>)
    ensures
        match found {
            Some(i) => first_labelable(children@) == Some(i as int) && i < children@.len()
                && is_labelable(children@[i as int]),
            None => first_labelable(children@).is_none(),
        },
{
    let mut i: usize = 0;
    while i < children.len()
        invariant
            i <= children@.len(),
            first_labelable(children@.take(i as int)).is_none(),
        decreases children@.len() - i,
    {
        proof {
            let next = children@.take(i + 1);
            assert(next.drop_last() =~= children@.take(i as int));
            assert(next.last() == children@[i as int]);
        }
        let labelable = match &children[i].fstype {
            Some(fstype) => family_of(fstype.as_str()).is_some(),
            None => false,
        };
        if labelable {
            proof {
                lemma_first_labelable_extends(children@, i + 1);
            }
            return Some(i);
        }
        i += 1;
    }
    assert(children@.take(children@.len() as int) =~= children@);
    None
}

/// Once a prefix has a labelable child, longer prefixes have the same first
/// one.
proof fn lemma_first_labelable_extends(children: Seq<LsblkChild>, n: int)
    requires
        0 <= n <= children.len(),
        first_labelable(children.take(n)).is_some(),
    ensures
        first_labelable(children) == first_labelable(children.take(n)),
    decreases children.len() - n,
{
    if n < children.len() {
        let next = children.take(n + 1);
        assert(next.drop_last() =~= children.take(n));
        lemma_first_labelable_extends(children, n + 1);
    } else {
        assert(children.take(n) =~= children);
    }
}

/// Picks the partition to label on a device that was just written.
///
/// `records` is what the partition query reports for the device, with
/// every name a full device path. Among the records of type `disk`, the
/// last one with a labelable child decides; its first such child is the
/// target. The result is the partition's device path, which is the
/// child's name as reported, and its file-system type, or `None` if no
/// child can be labelled.
pub fn label_target(records: &Vec<LsblkDevice>) -> (target: Option<(String, String)>)
    ensures
        pair_text(target) == label_target_of(records@),
{
    let mut target: Option<(String, String)> = None;
    let mut i: usize = 0;
    while i < records.len()
        invariant
            i <= records@.len(),
            pair_text(target) == label_target_of(records@.take(i as int)),
        decreases records@.len() - i,
    {
        let dev = &records[i];
        proof {
            let next = records@.take(i + 1);
            assert(next.drop_last() =~= records@.take(i as int));
            assert(next.last() == records@[i as int]);
        }
        if str_eq(dev.devtype.as_str(), "disk") {
            match find_labelable(&dev.children) {
                Some(at) => {
                    let child = &dev.children[at];
                    let fstype = match &child.fstype {
                        Some(fstype) => fstype.clone(),
                        None => String::new(),
                    };
                    target = Some((child.name.clone(), fstype));
                },
                None => {},
            }
        }
        i += 1;
    }
    assert(records@.take(records@.len() as int) =~= records@);
    target
}

} // verus!
