use flashr_tui::label::{
    family_of, is_supported_fstype, label_command, sanitize_label, truncate_label, LabelFamily,
};

#[test]
fn sanitize_maps_spaces_and_drops_punctuation() {
    assert_eq!(sanitize_label("My ISO v1!"), "My_ISO_v1");
}

#[test]
fn sanitize_keeps_hyphen_and_underscore() {
    assert_eq!(sanitize_label("ubuntu-22.04_desktop"), "ubuntu-2204_desktop");
}

#[test]
fn sanitize_maps_every_ascii_whitespace_to_underscore() {
    assert_eq!(sanitize_label("a b\tc\nd\x0Ce\rf"), "a_b_c_d_e_f");
}

#[test]
fn sanitize_drops_non_ascii_characters() {
    assert_eq!(sanitize_label("Übuntu\u{00A0}é9"), "buntu9");
    assert_eq!(sanitize_label("\u{0B}x"), "x");
}

#[test]
fn sanitize_of_empty_and_of_rejected_text_is_empty() {
    assert_eq!(sanitize_label(""), "");
    assert_eq!(sanitize_label("!!!...@@@"), "");
}

#[test]
fn sanitize_is_idempotent_on_samples() {
    for sample in ["My ISO v1!", "", "a  b", "already_clean-1", "tab\there", "ÄÖÜ x"] {
        let once = sanitize_label(sample);
        let twice = sanitize_label(&once);
        assert_eq!(once, twice, "sample {sample:?}");
    }
}

#[test]
fn truncate_cuts_to_the_limit() {
    assert_eq!(truncate_label("ubuntu-22.04-desktop", 11), "ubuntu-22.0");
    assert_eq!(truncate_label("ubuntu-22.04-desktop", 16), "ubuntu-22.04-des");
}

#[test]
fn truncate_leaves_short_labels_unchanged() {
    assert_eq!(truncate_label("debian", 11), "debian");
    assert_eq!(truncate_label("elevenchars", 11), "elevenchars");
    assert_eq!(truncate_label("", 11), "");
}

#[test]
fn truncate_counts_characters_not_bytes() {
    let label = "ééééééééééééé";
    let cut = truncate_label(label, 11);
    assert_eq!(cut.chars().count(), 11);
    assert_eq!(cut.len(), 22);
    assert!(label.starts_with(&cut));
    assert_eq!(truncate_label("日本語のラベル", 3), "日本語");
}

#[test]
fn truncate_to_zero_is_empty() {
    assert_eq!(truncate_label("abc", 0), "");
}

#[test]
fn supported_fstypes_are_fat_ntfs_and_ext() {
    for fstype in ["vfat", "fat", "fat16", "fat32", "ntfs", "ext2", "ext3", "ext4"] {
        assert!(is_supported_fstype(fstype), "{fstype}");
    }
    for fstype in ["", "btrfs", "exfat", "xfs", "VFAT", "ext", "ext5", "iso9660", "vfat "] {
        assert!(!is_supported_fstype(fstype), "{fstype}");
    }
}

#[test]
fn family_of_tells_the_families_apart() {
    assert_eq!(family_of("fat32"), Some(LabelFamily::Fat));
    assert_eq!(family_of("ntfs"), Some(LabelFamily::Ntfs));
    assert_eq!(family_of("ext3"), Some(LabelFamily::Ext));
    assert_eq!(family_of("swap"), None);
}

#[test]
fn label_command_for_fat_cuts_to_11() {
    let (label, tool, args) = label_command("/dev/sdb1", "vfat", "ubuntu-2204-desktop");
    assert_eq!(label, "ubuntu-2204");
    assert_eq!(tool, "fatlabel");
    assert_eq!(args, vec!["/dev/sdb1".to_string(), "ubuntu-2204".to_string()]);
}

#[test]
fn label_command_for_ntfs_cuts_to_32() {
    let base = "a".repeat(40);
    let (label, tool, args) = label_command("/dev/sdb1", "ntfs", &base);
    assert_eq!(label, "a".repeat(32));
    assert_eq!(tool, "ntfslabel");
    assert_eq!(args, vec!["/dev/sdb1".to_string(), "a".repeat(32)]);
}

#[test]
fn label_command_for_ext_cuts_to_16() {
    let (label, tool, args) = label_command("/dev/sdc2", "ext4", "archlinux-2024-01-01");
    assert_eq!(label, "archlinux-2024-0");
    assert_eq!(tool, "e2label");
    assert_eq!(args, vec!["/dev/sdc2".to_string(), "archlinux-2024-0".to_string()]);
}

#[test]
fn label_command_for_other_types_runs_false() {
    let (label, tool, args) = label_command("/dev/sdb1", "btrfs", "some-long-label-that-stays");
    assert_eq!(label, "some-long-label-that-stays");
    assert_eq!(tool, "false");
    assert!(args.is_empty());
}
