use ini_proc::lifecycle::{Command, EmmcChecker, Event, Phase, ProcessOutcome};
use ini_proc::storage::{Emmc, FsStats};

const TABLE_WITHOUT_DATA: &str = "rootfs / rootfs rw 0 0\n/dev/mmcblk1p1 /media vfat rw 0 0\n";
const TABLE_WITH_DATA: &str = "rootfs / rootfs rw 0 0\n/dev/mmcblk0p9 /data ext4 rw,noatime 0 0\n";

fn record() -> Emmc {
    Emmc::new(
        "/dev/mmcblk0p9".to_string(),
        "/data".to_string(),
        "events".to_string(),
        "record".to_string(),
    )
}

/// 8 GB, half free, writable.
fn roomy(read_only: bool) -> FsStats {
    FsStats { blocks: 2 * 1024 * 1024, blocks_free: 1024 * 1024, block_size: 4096, read_only }
}

fn is_prepare(c: &Command) -> bool {
    matches!(c, Command::PrepareDevice { device, mount_point } if device == "/dev/mmcblk0p9" && mount_point == "/data")
}

/// From power-up to a verified writable mount.
fn bring_up(ch: &mut EmmcChecker, e: &mut Emmc) {
    assert!(is_prepare(&ch.next(e, Event::Start)));
    assert!(matches!(ch.next(e, Event::Prepared), Command::Fsck(d) if d == "/dev/mmcblk0p9"));
    assert!(matches!(ch.next(e, Event::Exited(ProcessOutcome::Exited(0))), Command::Mount { .. }));
    assert!(matches!(ch.next(e, Event::Exited(ProcessOutcome::Exited(0))), Command::Pause(500)));
    assert!(matches!(ch.next(e, Event::Paused), Command::ProbeFs(m) if m == "/data"));
    assert!(matches!(ch.next(e, Event::FsStats(Some(roomy(false)))), Command::ReadMountTable));
    assert_eq!(e.remount_fail_count, 0);
    assert!(e.inner.mount_status);
}

#[test]
fn scenario_missing_mount_escalates_to_reformat() {
    let mut e = record();
    let mut ch = EmmcChecker::new();
    bring_up(&mut ch, &mut e);
    let c = ch.next(&mut e, Event::MountTable(Some(TABLE_WITHOUT_DATA.to_string())));
    assert!(is_prepare(&c));
    assert_eq!(ch.phase, Phase::RetryPrepare);
    for failures in 0..3u32 {
        assert_eq!(e.remount_fail_count, failures);
        assert!(matches!(ch.next(&mut e, Event::Prepared), Command::Fsck(_)));
        assert!(matches!(ch.next(&mut e, Event::Exited(ProcessOutcome::Exited(0))), Command::Mount { .. }));
        assert!(matches!(ch.next(&mut e, Event::Exited(ProcessOutcome::Exited(32))), Command::Sleep(5)));
        assert!(is_prepare(&ch.next(&mut e, Event::Woke)));
    }
    assert_eq!(e.remount_fail_count, 3);
    assert!(matches!(ch.next(&mut e, Event::Prepared), Command::Mkfs(d) if d == "/dev/mmcblk0p9"));
    assert!(matches!(ch.next(&mut e, Event::Exited(ProcessOutcome::Exited(0))), Command::Mount { .. }));
    assert_eq!(e.remount_fail_count, 0);
    assert!(matches!(ch.next(&mut e, Event::Exited(ProcessOutcome::Exited(1))), Command::Sleep(5)));
    assert_eq!(e.remount_fail_count, 1);
    assert!(is_prepare(&ch.next(&mut e, Event::Woke)));
    assert!(matches!(ch.next(&mut e, Event::Prepared), Command::Fsck(_)));
}

#[test]
fn unreadable_mount_table_goes_to_repair() {
    let mut e = record();
    let mut ch = EmmcChecker::new();
    bring_up(&mut ch, &mut e);
    assert!(is_prepare(&ch.next(&mut e, Event::MountTable(None))));
}

#[test]
fn scenario_low_space_reclaims_exactly_once_per_cycle() {
    let mut e = record();
    let mut ch = EmmcChecker::new();
    bring_up(&mut ch, &mut e);
    let dirs = ch.next(&mut e, Event::MountTable(Some(TABLE_WITH_DATA.to_string())));
    match dirs {
        Command::CreateDirs(d) => assert_eq!(
            d,
            vec![
                "/data/events",
                "/data/record",
                "/data/log",
                "/data/record/video_device0",
                "/data/record/video_device1",
                "/data/record/video_device2",
                "/data/record/video_device3",
            ]
        ),
        other => panic!("unexpected {:?}", other),
    }
    assert!(matches!(ch.next(&mut e, Event::DirsCreated(true)), Command::ProbeFs(_)));
    // 400 MB in 4 KB blocks, 100 MB free.
    let small = FsStats { blocks: 102400, blocks_free: 25600, block_size: 4096, read_only: false };
    assert!(matches!(ch.next(&mut e, Event::FsStats(Some(small))), Command::Reclaim(r) if r == "/data"));
    assert_eq!(e.inner.total_size, 409600);
    assert_eq!(e.inner.free_size, 102400);
    assert_eq!(e.inner.used_size, 307200);
    assert!(matches!(ch.next(&mut e, Event::Reclaimed), Command::Sleep(60)));
    assert_eq!(ch.phase, Phase::Idle { next: ini_proc::lifecycle::EmmcStateType::CheckMount });
}

#[test]
fn read_only_health_pass_goes_to_repair() {
    let mut e = record();
    let mut ch = EmmcChecker::new();
    bring_up(&mut ch, &mut e);
    ch.next(&mut e, Event::MountTable(Some(TABLE_WITH_DATA.to_string())));
    ch.next(&mut e, Event::DirsCreated(true));
    assert!(matches!(ch.next(&mut e, Event::FsStats(Some(roomy(true)))), Command::Sleep(5)));
    assert_eq!(e.remount_fail_count, 0);
    assert!(is_prepare(&ch.next(&mut e, Event::Woke)));
}

#[test]
fn unknown_health_goes_to_repair() {
    let mut e = record();
    let mut ch = EmmcChecker::new();
    bring_up(&mut ch, &mut e);
    ch.next(&mut e, Event::MountTable(Some(TABLE_WITH_DATA.to_string())));
    ch.next(&mut e, Event::DirsCreated(true));
    assert!(matches!(ch.next(&mut e, Event::FsStats(None)), Command::Sleep(5)));
    assert!(e.inner.mount_status);
}

#[test]
fn directory_failure_retries_provisioning() {
    let mut e = record();
    let mut ch = EmmcChecker::new();
    bring_up(&mut ch, &mut e);
    ch.next(&mut e, Event::MountTable(Some(TABLE_WITH_DATA.to_string())));
    assert!(matches!(ch.next(&mut e, Event::DirsCreated(false)), Command::CreateDirs(_)));
    assert_eq!(ch.phase, Phase::CheckDirs);
    assert!(matches!(ch.next(&mut e, Event::DirsCreated(true)), Command::ProbeFs(_)));
}

#[test]
fn fsck_exit_codes() {
    let cases: [(ProcessOutcome, bool, u32); 7] = [
        (ProcessOutcome::Exited(0), true, 0),
        (ProcessOutcome::Exited(1), true, 0),
        (ProcessOutcome::Exited(2), true, 0),
        (ProcessOutcome::Exited(3), false, 0),
        (ProcessOutcome::Exited(4), false, 1),
        (ProcessOutcome::Exited(8), false, 1),
        (ProcessOutcome::Killed, false, 0),
    ];
    for (outcome, mounts, count) in cases {
        let mut e = record();
        let mut ch = EmmcChecker::new();
        ch.next(&mut e, Event::Start);
        ch.next(&mut e, Event::Prepared);
        let c = ch.next(&mut e, Event::Exited(outcome));
        assert_eq!(matches!(c, Command::Mount { .. }), mounts, "{:?}", outcome);
        assert_eq!(matches!(c, Command::Sleep(5)), !mounts, "{:?}", outcome);
        assert_eq!(e.remount_fail_count, count, "{:?}", outcome);
    }
}

#[test]
fn utilities_that_do_not_start_are_not_counted() {
    let mut e = record();
    let mut ch = EmmcChecker::new();
    ch.next(&mut e, Event::Start);
    ch.next(&mut e, Event::Prepared);
    assert!(matches!(ch.next(&mut e, Event::Exited(ProcessOutcome::NotStarted)), Command::Sleep(5)));
    assert_eq!(e.remount_fail_count, 0);
    ch.next(&mut e, Event::Woke);
    ch.next(&mut e, Event::Prepared);
    ch.next(&mut e, Event::Exited(ProcessOutcome::Exited(0)));
    assert!(matches!(ch.next(&mut e, Event::Exited(ProcessOutcome::NotStarted)), Command::Sleep(5)));
    assert_eq!(e.remount_fail_count, 0);
}

#[test]
fn mount_that_stays_read_only_counts_as_failure() {
    let mut e = record();
    let mut ch = EmmcChecker::new();
    ch.next(&mut e, Event::Start);
    ch.next(&mut e, Event::Prepared);
    ch.next(&mut e, Event::Exited(ProcessOutcome::Exited(0)));
    ch.next(&mut e, Event::Exited(ProcessOutcome::Exited(0)));
    ch.next(&mut e, Event::Paused);
    assert!(matches!(ch.next(&mut e, Event::FsStats(Some(roomy(true)))), Command::Sleep(5)));
    assert_eq!(e.remount_fail_count, 1);
}

#[test]
fn unexpected_event_repeats_the_pending_command() {
    let mut e = record();
    let mut ch = EmmcChecker::new();
    ch.next(&mut e, Event::Start);
    assert!(is_prepare(&ch.next(&mut e, Event::Paused)));
    assert_eq!(ch.phase, Phase::RetryPrepare);
    assert_eq!(e.remount_fail_count, 0);
}
