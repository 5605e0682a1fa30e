use flashr_tui::device::{Lsblk, LsblkChild, LsblkDevice};
use flashr_tui::flash::{
    dd_command, elevated_command, find_elevator, fstype_query, header_failure, parse_dd_bytes,
    partprobe_command, Action, Elevator, Event, Flash, FlashError, HeaderRead, LineSplitter, Phase,
    Reaction,
};

fn hybrid_header() -> Vec<u8> {
    let mut buf = vec![0u8; 520];
    buf[510] = 0x55;
    buf[511] = 0xAA;
    buf[446] = 0x80;
    buf
}

fn new_flash(stem: Option<&str>) -> Flash {
    Flash::new(
        "/tmp/My ISO v1!.iso".to_string(),
        "/dev/sdb".to_string(),
        stem.map(|s| s.to_string()),
    )
}

fn written_disk() -> Vec<LsblkDevice> {
    vec![LsblkDevice {
        name: "/dev/sdb".to_string(),
        model: None,
        size: None,
        rm: None,
        devtype: "disk".to_string(),
        fstype: None,
        children: vec![
            LsblkChild { name: "/dev/sdb1".to_string(), fstype: Some("iso9660".to_string()) },
            LsblkChild { name: "/dev/sdb2".to_string(), fstype: Some("vfat".to_string()) },
        ],
    }]
}

fn expect_done_err(reaction: &Reaction) -> &FlashError {
    match &reaction.action {
        Action::Done(Err(error)) => error,
        other => panic!("expected a failure, got {other:?}"),
    }
}

fn copied_flash(stem: Option<&str>) -> Flash {
    let mut flash = new_flash(stem);
    flash.advance(Event::Header(HeaderRead::Bytes(hybrid_header())));
    flash.advance(Event::Privilege { is_root: false, has_pkexec: false, has_sudo: true });
    flash.advance(Event::Spawned(true));
    flash.advance(Event::OutputEnded(true));
    flash.advance(Event::Exited(Some(true)));
    flash.advance(Event::Ran(true));
    assert_eq!(flash.phase, Phase::Refreshing);
    flash
}

#[test]
fn parse_dd_bytes_reads_the_leading_count() {
    assert_eq!(parse_dd_bytes("104857600 bytes (105 MB) copied"), Some(104857600));
    assert_eq!(parse_dd_bytes("0+1 records in"), Some(0));
    assert_eq!(parse_dd_bytes("42"), Some(42));
    assert_eq!(parse_dd_bytes("007x"), Some(7));
}

#[test]
fn parse_dd_bytes_without_leading_digit_is_none() {
    assert_eq!(parse_dd_bytes("bytes 104857600"), None);
    assert_eq!(parse_dd_bytes(""), None);
    assert_eq!(parse_dd_bytes(" 12"), None);
    assert_eq!(parse_dd_bytes("-5"), None);
    assert_eq!(parse_dd_bytes("+5"), None);
    assert_eq!(parse_dd_bytes("\u{FF11}\u{FF12}"), None);
}

#[test]
fn parse_dd_bytes_at_the_edge_of_64_bits() {
    assert_eq!(parse_dd_bytes("18446744073709551615"), Some(u64::MAX));
    assert_eq!(parse_dd_bytes("18446744073709551616"), None);
    assert_eq!(parse_dd_bytes("99999999999999999999999 bytes"), None);
    assert_eq!(parse_dd_bytes("00000000000000000000000000012 bytes"), Some(12));
}

#[test]
fn find_elevator_prefers_pkexec() {
    assert_eq!(find_elevator(true, true), Some(Elevator::Pkexec));
    assert_eq!(find_elevator(true, false), Some(Elevator::Pkexec));
    assert_eq!(find_elevator(false, true), Some(Elevator::Sudo));
    assert_eq!(find_elevator(false, false), None);
}

#[test]
fn elevator_names() {
    assert_eq!(Elevator::Pkexec.name(), "pkexec");
    assert_eq!(Elevator::Sudo.name(), "sudo");
}

#[test]
fn elevated_command_is_bare_for_root() {
    let args = vec!["/dev/sdb".to_string()];
    assert_eq!(
        elevated_command("partprobe", &args, Some(Elevator::Sudo), true),
        vec!["partprobe", "/dev/sdb"]
    );
    assert_eq!(elevated_command("sync", &Vec::new(), None, true), vec!["sync"]);
}

#[test]
fn elevated_command_is_prefixed_when_not_root() {
    let args = vec!["a".to_string(), "b".to_string()];
    assert_eq!(
        elevated_command("tool", &args, Some(Elevator::Pkexec), false),
        vec!["pkexec", "tool", "a", "b"]
    );
    assert_eq!(
        elevated_command("tool", &args, Some(Elevator::Sudo), false),
        vec!["sudo", "tool", "a", "b"]
    );
}

#[test]
fn elevated_command_without_tool_is_bare() {
    let args = vec!["a".to_string()];
    assert_eq!(elevated_command("tool", &args, None, false), vec!["tool", "a"]);
}

#[test]
fn dd_command_has_block_size_progress_and_sync() {
    assert_eq!(
        dd_command("/tmp/a.iso", "/dev/sdb", None, true),
        vec!["dd", "if=/tmp/a.iso", "of=/dev/sdb", "bs=4M", "status=progress", "oflag=sync"]
    );
    assert_eq!(
        dd_command("/tmp/a.iso", "/dev/sdb", Some(Elevator::Sudo), false),
        vec![
            "sudo",
            "dd",
            "if=/tmp/a.iso",
            "of=/dev/sdb",
            "bs=4M",
            "status=progress",
            "oflag=sync"
        ]
    );
}

#[test]
fn partprobe_and_fstype_query_name_the_device() {
    assert_eq!(
        partprobe_command("/dev/sdb", Some(Elevator::Pkexec), false),
        vec!["pkexec", "partprobe", "/dev/sdb"]
    );
    assert_eq!(
        fstype_query("/dev/sdb"),
        vec!["lsblk", "--json", "-o", "NAME,FSTYPE", "-p", "/dev/sdb"]
    );
}

#[test]
fn splitter_cuts_on_both_line_ends_and_trims() {
    let mut splitter = LineSplitter::new();
    let lines = splitter.feed("  100 bytes copied \r200 bytes copied\n\n  \r\n tail");
    assert_eq!(lines, vec!["100 bytes copied", "200 bytes copied"]);
    assert_eq!(splitter.pending, " tail");
    assert_eq!(splitter.finish(), vec!["tail"]);
    assert_eq!(splitter.pending, "");
    assert!(splitter.finish().is_empty());
}

#[test]
fn splitter_keeps_unfinished_text_across_chunks() {
    let mut splitter = LineSplitter::new();
    assert!(splitter.feed("1048").is_empty());
    assert!(splitter.feed("57600 by").is_empty());
    assert_eq!(splitter.feed("tes\r2"), vec!["104857600 bytes"]);
    assert_eq!(splitter.feed("\n"), vec!["2"]);
    assert!(splitter.feed("").is_empty());
    assert!(splitter.finish().is_empty());
}

#[test]
fn splitter_drops_blank_last_line() {
    let mut splitter = LineSplitter::new();
    assert!(splitter.feed(" \t ").is_empty());
    assert!(splitter.finish().is_empty());
}

#[test]
fn header_failure_messages() {
    assert_eq!(header_failure(false, "/tmp/a.iso"), "open ISO image: /tmp/a.iso");
    assert_eq!(header_failure(true, "/tmp/a.iso"), "read ISO header");
}

#[test]
fn flash_error_messages() {
    assert_eq!(FlashError::Io("open ISO image: x".to_string()).message(), "open ISO image: x");
    assert_eq!(
        FlashError::UnsafeImage.message(),
        "ISO has no partition table; hybrid ISO required"
    );
    assert_eq!(FlashError::IndeterminateImage.message(), "Unable to determine ISO type");
    assert_eq!(
        FlashError::ElevationUnavailable.message(),
        "Root privileges required for flashing. Install pkexec or sudo, or run with: sudo flashr-tui --execute"
    );
    assert_eq!(FlashError::SpawnFailed.message(), "run dd (do you have permission?)");
    assert_eq!(FlashError::StreamFailed.message(), "read dd output");
    assert_eq!(FlashError::WaitFailed.message(), "wait for dd");
    assert_eq!(FlashError::WriteFailed.message(), "dd failed");
}

#[test]
fn flash_starts_by_checking_the_image() {
    let flash = new_flash(None);
    assert_eq!(flash.phase, Phase::CheckingImage);
    assert_eq!(flash.image, "/tmp/My ISO v1!.iso");
    assert_eq!(flash.device, "/dev/sdb");
    assert_eq!(flash.elevator, None);
    assert_eq!(flash.label, "");
}

#[test]
fn flash_refuses_an_image_without_partition_table() {
    let mut flash = new_flash(Some("x"));
    let reaction = flash.advance(Event::Header(HeaderRead::Bytes(vec![0u8; 520])));
    assert!(matches!(expect_done_err(&reaction), FlashError::UnsafeImage));
    assert!(reaction.progress.is_empty());
    assert_eq!(flash.phase, Phase::Finished);
    let later = flash.advance(Event::Privilege { is_root: true, has_pkexec: true, has_sudo: true });
    assert!(matches!(later.action, Action::Rejected));
    let later = flash.advance(Event::Spawned(true));
    assert!(matches!(later.action, Action::Rejected));
    assert_eq!(flash.phase, Phase::Finished);
}

#[test]
fn flash_refuses_an_image_too_short_to_classify() {
    let mut flash = new_flash(None);
    let reaction = flash.advance(Event::Header(HeaderRead::Bytes(vec![0u8; 100])));
    assert!(matches!(expect_done_err(&reaction), FlashError::IndeterminateImage));
    assert_eq!(flash.phase, Phase::Finished);
}

#[test]
fn flash_reports_an_image_that_cannot_be_opened_or_read() {
    let mut flash = new_flash(None);
    let reaction = flash.advance(Event::Header(HeaderRead::OpenFailed));
    assert_eq!(expect_done_err(&reaction).message(), "open ISO image: /tmp/My ISO v1!.iso");
    assert!(matches!(expect_done_err(&reaction), FlashError::Io(_)));

    let mut flash = new_flash(None);
    let reaction = flash.advance(Event::Header(HeaderRead::ReadFailed));
    assert_eq!(expect_done_err(&reaction).message(), "read ISO header");
    assert_eq!(flash.phase, Phase::Finished);
}

#[test]
fn flash_needs_an_elevation_tool_when_not_root() {
    let mut flash = new_flash(None);
    let reaction = flash.advance(Event::Header(HeaderRead::Bytes(hybrid_header())));
    assert!(matches!(reaction.action, Action::ProbePrivilege));
    let reaction =
        flash.advance(Event::Privilege { is_root: false, has_pkexec: false, has_sudo: false });
    assert!(matches!(expect_done_err(&reaction), FlashError::ElevationUnavailable));
    assert!(reaction.progress.is_empty());
    assert_eq!(flash.phase, Phase::Finished);
}

#[test]
fn flash_as_root_spawns_bare_dd_without_notice() {
    let mut flash = new_flash(None);
    flash.advance(Event::Header(HeaderRead::Bytes(hybrid_header())));
    let reaction =
        flash.advance(Event::Privilege { is_root: true, has_pkexec: true, has_sudo: true });
    assert!(reaction.progress.is_empty());
    match reaction.action {
        Action::Spawn(command) => assert_eq!(
            command,
            vec![
                "dd",
                "if=/tmp/My ISO v1!.iso",
                "of=/dev/sdb",
                "bs=4M",
                "status=progress",
                "oflag=sync"
            ]
        ),
        other => panic!("expected a spawn, got {other:?}"),
    }
    assert!(flash.is_root);
    assert_eq!(flash.elevator, None);
    assert_eq!(flash.phase, Phase::Spawning);
}

#[test]
fn flash_full_run_with_label() {
    let mut flash = new_flash(Some("My ISO v1!"));
    let reaction = flash.advance(Event::Header(HeaderRead::Bytes(hybrid_header())));
    assert!(matches!(reaction.action, Action::ProbePrivilege));
    assert_eq!(flash.phase, Phase::ProbingPrivilege);

    let reaction =
        flash.advance(Event::Privilege { is_root: false, has_pkexec: true, has_sudo: true });
    assert_eq!(
        reaction.progress,
        vec!["Not running as root; using 'pkexec' for privilege elevation"]
    );
    match reaction.action {
        Action::Spawn(command) => {
            assert_eq!(command[0], "pkexec");
            assert_eq!(command[1], "dd");
            assert_eq!(command.len(), 7);
        }
        other => panic!("expected a spawn, got {other:?}"),
    }

    let reaction = flash.advance(Event::Spawned(true));
    assert!(matches!(reaction.action, Action::ReadOutput));
    assert_eq!(flash.phase, Phase::Copying);

    let reaction = flash.advance(Event::Output("4194304 bytes (4.2 MB) copied\r8388".to_string()));
    assert_eq!(reaction.progress, vec!["4194304 bytes (4.2 MB) copied"]);
    assert!(matches!(reaction.action, Action::ReadOutput));
    let reaction = flash.advance(Event::Output("608 bytes (8.4 MB) copied\n2+0 records in".to_string()));
    assert_eq!(reaction.progress, vec!["8388608 bytes (8.4 MB) copied"]);

    let reaction = flash.advance(Event::OutputEnded(true));
    assert_eq!(reaction.progress, vec!["2+0 records in"]);
    assert!(matches!(reaction.action, Action::Wait));
    assert_eq!(flash.phase, Phase::Waiting);

    let reaction = flash.advance(Event::Exited(Some(true)));
    match reaction.action {
        Action::Run(command) => assert_eq!(command, vec!["sync"]),
        other => panic!("expected sync, got {other:?}"),
    }
    assert_eq!(flash.phase, Phase::Syncing);

    let reaction = flash.advance(Event::Ran(true));
    match reaction.action {
        Action::Run(command) => assert_eq!(command, vec!["pkexec", "partprobe", "/dev/sdb"]),
        other => panic!("expected partprobe, got {other:?}"),
    }
    assert_eq!(flash.phase, Phase::Refreshing);

    let reaction = flash.advance(Event::Ran(true));
    match reaction.action {
        Action::QueryPartitions(command) => assert_eq!(
            command,
            vec!["lsblk", "--json", "-o", "NAME,FSTYPE", "-p", "/dev/sdb"]
        ),
        other => panic!("expected a query, got {other:?}"),
    }
    assert_eq!(flash.label, "My_ISO_v1");
    assert_eq!(flash.phase, Phase::Querying);

    let reaction = flash.advance(Event::Partitions(Lsblk::Records(written_disk())));
    match reaction.action {
        Action::Label(command) => {
            assert_eq!(command, vec!["pkexec", "fatlabel", "/dev/sdb2", "My_ISO_v1"])
        }
        other => panic!("expected labelling, got {other:?}"),
    }
    assert_eq!(flash.phase, Phase::Labeling);

    let reaction = flash.advance(Event::Labeled(Some(true)));
    assert_eq!(reaction.progress, vec!["Label set to My_ISO_v1"]);
    assert!(matches!(reaction.action, Action::Done(Ok(()))));
    assert_eq!(flash.phase, Phase::Finished);
}

#[test]
fn flash_fails_when_dd_cannot_start() {
    let mut flash = new_flash(None);
    flash.advance(Event::Header(HeaderRead::Bytes(hybrid_header())));
    flash.advance(Event::Privilege { is_root: true, has_pkexec: false, has_sudo: false });
    let reaction = flash.advance(Event::Spawned(false));
    assert!(matches!(expect_done_err(&reaction), FlashError::SpawnFailed));
    assert_eq!(flash.phase, Phase::Finished);
}

#[test]
fn flash_fails_when_the_stream_breaks() {
    let mut flash = new_flash(None);
    flash.advance(Event::Header(HeaderRead::Bytes(hybrid_header())));
    flash.advance(Event::Privilege { is_root: true, has_pkexec: false, has_sudo: false });
    flash.advance(Event::Spawned(true));
    let sent = flash.advance(Event::Output("1 byte\rpartial".to_string()));
    assert_eq!(sent.progress, vec!["1 byte"]);
    let reaction = flash.advance(Event::OutputEnded(false));
    assert!(matches!(expect_done_err(&reaction), FlashError::StreamFailed));
    assert!(reaction.progress.is_empty());
}

#[test]
fn flash_fails_on_exit_status_and_on_failed_wait() {
    for (status, wait_failed) in [(Some(false), false), (None, true)] {
        let mut flash = new_flash(None);
        flash.advance(Event::Header(HeaderRead::Bytes(hybrid_header())));
        flash.advance(Event::Privilege { is_root: true, has_pkexec: false, has_sudo: false });
        flash.advance(Event::Spawned(true));
        flash.advance(Event::OutputEnded(true));
        let reaction = flash.advance(Event::Exited(status));
        if wait_failed {
            assert!(matches!(expect_done_err(&reaction), FlashError::WaitFailed));
        } else {
            assert!(matches!(expect_done_err(&reaction), FlashError::WriteFailed));
        }
        assert_eq!(flash.phase, Phase::Finished);
    }
}

#[test]
fn flash_skips_labelling_without_a_usable_stem() {
    for stem in [None, Some("!!!"), Some("")] {
        let mut flash = copied_flash(stem);
        let reaction = flash.advance(Event::Ran(true));
        assert!(matches!(reaction.action, Action::Done(Ok(()))), "stem {stem:?}");
        assert!(reaction.progress.is_empty());
        assert_eq!(flash.phase, Phase::Finished);
    }
}

#[test]
fn flash_succeeds_when_the_partition_query_finds_nothing() {
    let mut flash = copied_flash(Some("debian"));
    flash.advance(Event::Ran(true));
    let reaction = flash.advance(Event::Partitions(Lsblk::Records(Vec::new())));
    assert!(matches!(reaction.action, Action::Done(Ok(()))));
    assert!(reaction.progress.is_empty());
    assert_eq!(flash.phase, Phase::Finished);
}

#[test]
fn flash_reports_a_failed_partition_query_without_failing() {
    for (output, line) in [
        (Lsblk::NotRun, "run lsblk for fstype"),
        (Lsblk::Failed("lsblk: bad device".to_string()), "lsblk failed for fstype"),
        (Lsblk::Unparsable, "parse lsblk fstype output"),
    ] {
        let mut flash = copied_flash(Some("debian"));
        flash.advance(Event::Ran(true));
        let reaction = flash.advance(Event::Partitions(output));
        assert!(matches!(reaction.action, Action::Done(Ok(()))));
        assert_eq!(reaction.progress, vec![line]);
        assert_eq!(flash.phase, Phase::Finished);
    }
}

#[test]
fn flash_reports_a_failed_partition_refresh_without_failing() {
    let mut flash = copied_flash(Some("debian"));
    let reaction = flash.advance(Event::Ran(false));
    assert_eq!(reaction.progress, vec!["Partition table refresh failed"]);
    assert!(matches!(reaction.action, Action::QueryPartitions(_)));
    assert_eq!(flash.phase, Phase::Querying);

    let mut flash = copied_flash(None);
    let reaction = flash.advance(Event::Ran(false));
    assert_eq!(reaction.progress, vec!["Partition table refresh failed"]);
    assert!(matches!(reaction.action, Action::Done(Ok(()))));
    assert_eq!(flash.phase, Phase::Finished);
}

#[test]
fn flash_goes_on_when_the_sync_fails() {
    let mut flash = new_flash(None);
    flash.advance(Event::Header(HeaderRead::Bytes(hybrid_header())));
    flash.advance(Event::Privilege { is_root: true, has_pkexec: false, has_sudo: false });
    flash.advance(Event::Spawned(true));
    flash.advance(Event::OutputEnded(true));
    flash.advance(Event::Exited(Some(true)));
    let reaction = flash.advance(Event::Ran(false));
    assert!(reaction.progress.is_empty());
    match reaction.action {
        Action::Run(command) => assert_eq!(command, vec!["partprobe", "/dev/sdb"]),
        other => panic!("expected partprobe, got {other:?}"),
    }
    assert_eq!(flash.phase, Phase::Refreshing);
}

#[test]
fn flash_reports_labelling_trouble_without_failing() {
    for (status, line) in
        [(Some(false), "Labeling failed"), (None, "Labeling tool not available")]
    {
        let mut flash = copied_flash(Some("debian-12.5.0-amd64-netinst"));
        flash.advance(Event::Ran(true));
        let reaction = flash.advance(Event::Partitions(Lsblk::Records(written_disk())));
        match reaction.action {
            Action::Label(command) => {
                assert_eq!(command, vec!["sudo", "fatlabel", "/dev/sdb2", "debian-1250"])
            }
            other => panic!("expected labelling, got {other:?}"),
        }
        assert_eq!(flash.label, "debian-1250");
        let reaction = flash.advance(Event::Labeled(status));
        assert_eq!(reaction.progress, vec![line]);
        assert!(matches!(reaction.action, Action::Done(Ok(()))));
    }
}

#[test]
fn flash_rejects_events_that_do_not_fit_the_phase() {
    let mut flash = new_flash(None);
    for event in [
        Event::Spawned(true),
        Event::Output("x\n".to_string()),
        Event::OutputEnded(true),
        Event::Exited(Some(true)),
        Event::Ran(true),
        Event::Partitions(Lsblk::NotRun),
        Event::Labeled(Some(true)),
        Event::Privilege { is_root: true, has_pkexec: true, has_sudo: true },
    ] {
        let reaction = flash.advance(event);
        assert!(matches!(reaction.action, Action::Rejected));
        assert!(reaction.progress.is_empty());
        assert_eq!(flash.phase, Phase::CheckingImage);
    }
    flash.advance(Event::Header(HeaderRead::Bytes(hybrid_header())));
    let reaction = flash.advance(Event::Header(HeaderRead::Bytes(hybrid_header())));
    assert!(matches!(reaction.action, Action::Rejected));
    assert_eq!(flash.phase, Phase::ProbingPrivilege);
}

#[test]
fn splitter_does_not_care_how_the_stream_is_cut() {
    let stream = " 1 a\r\n2 b \r  \n\r3 c\n tail ";
    let mut whole = LineSplitter::new();
    let expected = whole.feed(stream);
    assert_eq!(expected, vec!["1 a", "2 b", "3 c"]);
    let chars: Vec<char> = stream.chars().collect();
    for cut in 0..=chars.len() {
        let first: String = chars[..cut].iter().collect();
        let second: String = chars[cut..].iter().collect();
        let mut pieces = LineSplitter::new();
        let mut lines = pieces.feed(&first);
        lines.extend(pieces.feed(&second));
        assert_eq!(lines, expected, "cut {cut}");
        assert_eq!(pieces.pending, whole.pending, "cut {cut}");
    }
}

#[test]
fn flash_labels_the_first_supported_partition_by_its_own_path() {
    let disk = LsblkDevice {
        name: "/dev/sdb".to_string(),
        model: None,
        size: None,
        rm: None,
        devtype: "disk".to_string(),
        fstype: None,
        children: vec![
            LsblkChild { name: "/dev/sdb1".to_string(), fstype: None },
            LsblkChild { name: "/dev/sdb2".to_string(), fstype: Some("vfat".to_string()) },
            LsblkChild { name: "/dev/sdb3".to_string(), fstype: Some("ext4".to_string()) },
        ],
    };
    for status in [Some(true), Some(false), None] {
        let mut flash = copied_flash(Some("ubuntu-22.04.3 desktop"));
        let reaction = flash.advance(Event::Ran(true));
        match reaction.action {
            Action::QueryPartitions(command) => assert!(command.contains(&"-p".to_string())),
            other => panic!("expected a query, got {other:?}"),
        }
        let reaction = flash.advance(Event::Partitions(Lsblk::Records(vec![disk.clone()])));
        match reaction.action {
            Action::Label(command) => {
                assert_eq!(command, vec!["sudo", "fatlabel", "/dev/sdb2", "ubuntu-2204"])
            }
            other => panic!("expected labelling, got {other:?}"),
        }
        let reaction = flash.advance(Event::Labeled(status));
        assert_eq!(reaction.progress.len(), 1);
        assert!(matches!(reaction.action, Action::Done(Ok(()))));
    }
}

#[test]
fn flash_labels_as_root_without_elevation() {
    let mut flash = new_flash(Some("arch"));
    flash.advance(Event::Header(HeaderRead::Bytes(hybrid_header())));
    flash.advance(Event::Privilege { is_root: true, has_pkexec: true, has_sudo: true });
    flash.advance(Event::Spawned(true));
    flash.advance(Event::OutputEnded(true));
    flash.advance(Event::Exited(Some(true)));
    flash.advance(Event::Ran(true));
    flash.advance(Event::Ran(true));
    let reaction = flash.advance(Event::Partitions(Lsblk::Records(written_disk())));
    match reaction.action {
        Action::Label(command) => assert_eq!(command, vec!["fatlabel", "/dev/sdb2", "arch"]),
        other => panic!("expected labelling, got {other:?}"),
    }
}
