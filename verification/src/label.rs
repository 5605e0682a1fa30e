//! Partition labels derived from an image's file name.
//!
//! A label is the file stem reduced to letters, digits, hyphens and
//! underscores, cut to the length that the target file system allows. Each
//! file-system family has its own labelling tool.

use vstd::prelude::*;
use vstd::string::StringExecFns;
use crate::text::{from_chars, push_char, str_eq, to_chars};

verus! {

/// A character that a label keeps: an ASCII letter or digit, a hyphen or an
/// underscore.
pub open spec fn is_label_char(c: char) -> bool {
    ('a' <= c <= 'z') || ('A' <= c <= 'Z') || ('0' <= c <= '9') || c == '-' || c == '_'
}

/// An ASCII whitespace character: space, tab, line feed, form feed or
/// carriage return.
pub open spec fn is_ascii_space(c: char) -> bool {
    c == ' ' || c == '\t' || c == '\n' || c == '\x0C' || c == '\r'
}

/// What one character contributes to a label: itself if it is kept, an
/// underscore if it is ASCII whitespace, nothing otherwise.
pub open spec fn label_piece(c: char) -> Seq<char> {
    if is_label_char(c) {
        seq![c]
    } else if is_ascii_space(c) {
        seq!['_']
    } else {
        Seq::empty()
    }
}

/// The label text made from `s`: the pieces of its characters, in order.
pub open spec fn sanitized(s: Seq<char>) -> Seq<char>
    decreases s.len(),
{
    if s.len() == 0 {
        Seq::empty()
    } else {
        sanitized(s.drop_last()) + label_piece(s.last())
    }
}

/// Whether every character of `s` is one that a label keeps.
pub open spec fn is_label_text(s: Seq<char>) -> bool {
    forall|i: int| 0 <= i < s.len() ==> is_label_char(#[trigger] s[i])
}

/// Reduces `input` to label text: letters, digits, `-` and `_` stay, ASCII
/// whitespace becomes `_`, everything else is dropped.
pub fn sanitize_label(input: &str) -> (out: String)
    ensures
        out@ == sanitized(input@),
        is_label_text(out@),
{
    let mut out = String::new();
    for ch in it: input.chars()
        invariant
            it.seq() == input@,
            out@ == sanitized(input@.take(it.index() as int)),
    {
        proof {
            let next = input@.take(it.index() + 1);
            assert(next.drop_last() =~= input@.take(it.index() as int));
            assert(next.last() == ch);
        }
        if (ch >= 'a' && ch <= 'z') || (ch >= 'A' && ch <= 'Z') || (ch >= '0' && ch <= '9')
            || ch == '-' || ch == '_' {
            push_char(&mut out, ch);
            assert(out@ =~= sanitized(input@.take(it.index() as int)) + seq![ch]);
        } else if ch == ' ' || ch == '\t' || ch == '\n' || ch == '\x0C' || ch == '\r' {
            push_char(&mut out, '_');
            assert(out@ =~= sanitized(input@.take(it.index() as int)) + seq!['_']);
        } else {
            assert(out@ =~= sanitized(input@.take(it.index() as int)) + Seq::<char>::empty());
        }
    }
    proof {
        assert(input@.take(input@.len() as int) =~= input@);
        lemma_sanitized_is_label_text(input@);
    }
    out
}

/// Sanitized text holds only characters that a label keeps.
pub proof fn lemma_sanitized_is_label_text(s: Seq<char>)
    ensures
        is_label_text(sanitized(s)),
    decreases s.len(),
{
    if s.len() > 0 {
        lemma_sanitized_is_label_text(s.drop_last());
    }
}

/// Sanitizing leaves label text as it is.
pub proof fn lemma_label_text_is_fixed(s: Seq<char>)
    requires
        is_label_text(s),
    ensures
        sanitized(s) == s,
    decreases s.len(),
{
    if s.len() > 0 {
        lemma_label_text_is_fixed(s.drop_last());
        assert(s.drop_last() + seq![s.last()] =~= s);
    }
}

/// Sanitizing is idempotent: sanitizing sanitized text changes nothing.
pub proof fn lemma_sanitize_idempotent(s: Seq<char>)
    ensures
        sanitized(sanitized(s)) == sanitized(s),
{
    lemma_sanitized_is_label_text(s);
    lemma_label_text_is_fixed(sanitized(s));
}

/// The first `max_len` characters of `s`, or all of `s` if it has fewer.
pub open spec fn truncated(s: Seq<char>, max_len: nat) -> Seq<char> {
    if s.len() <= max_len {
        s
    } else {
        s.take(max_len as int)
    }
}

/// Cuts `input` to at most `max_len` characters. The cut falls between
/// characters, never inside the bytes of one.
pub fn truncate_label(input: &str, max_len: usize) -> (out: String)
    ensures
        out@ == truncated(input@, max_len as nat),
{
    let chars = to_chars(input);
    let keep = if chars.len() <= max_len {
        chars.len()
    } else {
        max_len
    };
    let out = from_chars(&chars, 0, keep);
    assert(out@ =~= truncated(input@, max_len as nat));
    out
}

/// A truncated label has at most `max_len` characters and is made of the
/// leading characters of the input, each one whole; a label that already
/// fits is returned unchanged.
pub proof fn lemma_truncated_bounds(s: Seq<char>, max_len: nat)
    ensures
        truncated(s, max_len).len() <= max_len,
        truncated(s, max_len).is_prefix_of(s),
        s.len() <= max_len ==> truncated(s, max_len) == s,
{
}

/// The file-system families that can be labelled.
#[derive(Debug, Clone, Copy, PartialEq, Eq, Structural)]
pub enum LabelFamily {
    Fat,
    Ntfs,
    Ext,
}

/// The family of a file-system type as `lsblk` names it, if it can be
/// labelled.
pub open spec fn label_family(fstype: Seq<char>) -> Option<LabelFamily> {
    if fstype == "vfat"@ || fstype == "fat"@ || fstype == "fat16"@ || fstype == "fat32"@ {
        Some(LabelFamily::Fat)
    } else if fstype == "ntfs"@ {
        Some(LabelFamily::Ntfs)
    } else if fstype == "ext2"@ || fstype == "ext3"@ || fstype == "ext4"@ {
        Some(LabelFamily::Ext)
    } else {
        None
    }
}

/// The longest label, in characters, that a family accepts.
pub open spec fn max_label_len(family: LabelFamily) -> nat {
    match family {
        LabelFamily::Fat => 11,
        LabelFamily::Ntfs => 32,
        LabelFamily::Ext => 16,
    }
}

/// The labelling tool of a family.
pub open spec fn label_tool(family: LabelFamily) -> Seq<char> {
    match family {
        LabelFamily::Fat => "fatlabel"@,
        LabelFamily::Ntfs => "ntfslabel"@,
        LabelFamily::Ext => "e2label"@,
    }
}

/// The family of `fstype`, if it can be labelled.
pub fn family_of(fstype: &str) -> (family: Option<LabelFamily>)
    ensures
        family == label_family(fstype@),
{
    if str_eq(fstype, "vfat") || str_eq(fstype, "fat") || str_eq(fstype, "fat16") || str_eq(
        fstype,
        "fat32",
    ) {
        Some(LabelFamily::Fat)
    } else if str_eq(fstype, "ntfs") {
        Some(LabelFamily::Ntfs)
    } else if str_eq(fstype, "ext2") || str_eq(fstype, "ext3") || str_eq(fstype, "ext4") {
        Some(LabelFamily::Ext)
    } else {
        None
    }
}

/// Whether a file system of type `fstype` can be labelled: the FAT variants,
/// NTFS, and ext2 to ext4.
pub fn is_supported_fstype(fstype: &str) -> (supported: bool)
    ensures
        supported == label_family(fstype@).is_some(),
{
    family_of(fstype).is_some()
}

/// The label, the tool and the tool's arguments for labelling `partition`.
///
/// For a supported file system the label is `base` cut to the family's
/// maximum, and the arguments are the partition and the label. For any other
/// type the label is `base`, the tool is `false`, and there are no arguments.
pub fn label_command(partition: &str, fstype: &str, base: &str) -> (out: (
    String,
    &'static str,
    Vec<String>,
))
    ensures
        match label_family(fstype@) {
            Some(family) => {
                &&& out.0@ == truncated(base@, max_label_len(family))
                &&& out.1@ == label_tool(family)
                &&& out.2@.len() == 2
                &&& out.2@[0]@ == partition@
                &&& out.2@[1]@ == out.0@
            },
            None => {
                &&& out.0@ == base@
                &&& out.1@ == "false"@
                &&& out.2@.len() == 0
            },
        },
{
    match family_of(fstype) {
        Some(LabelFamily::Fat) => {
            let label = truncate_label(base, 11);
            let args = vec![String::from_str(partition), label.clone()];
            (label, "fatlabel", args)
        },
        Some(LabelFamily::Ntfs) => {
            let label = truncate_label(base, 32);
            let args = vec![String::from_str(partition), label.clone()];
            (label, "ntfslabel", args)
        },
        Some(LabelFamily::Ext) => {
            let label = truncate_label(base, 16);
            let args = vec![String::from_str(partition), label.clone()];
            (label, "e2label", args)
        },
        None => (String::from_str(base), "false", Vec::new()),
    }
}

} // verus!
