use ini_proc::clear::{emmc_clear, ClearCommand, ClearError, ClearStep};
use ini_proc::storage::{emmc_get_remove_status, Emmc};

fn mounted_record(mnt: &str) -> Emmc {
    let mut e = Emmc::new("/dev/mmcblk0p9".to_string(), mnt.to_string(), "events".to_string(), "record".to_string());
    e.inner.mount_status = true;
    e
}

/// Runs a job to its end; `ok` says how each removal path goes.
fn run_job(e: &mut Emmc, mode: i32, ok: impl Fn(&str) -> bool) -> (Result<(), ClearError>, Vec<String>, usize) {
    let mut job = emmc_clear(e, mode).expect("job starts");
    assert!(emmc_get_remove_status(e));
    let mut removed = Vec::new();
    let mut syncs = 0;
    let mut last = None;
    loop {
        match job.next(e, last) {
            ClearCommand::Run(ClearStep::Remove(p)) => {
                assert!(emmc_get_remove_status(e));
                last = Some(ok(&p));
                removed.push(p);
            }
            ClearCommand::Run(ClearStep::Sync) => {
                syncs += 1;
                last = Some(true);
            }
            ClearCommand::Done(r) => return (r, removed, syncs),
        }
    }
}

#[test]
fn scenario_clear_all_aggregates_errors() {
    let mut e = mounted_record("/data");
    let (r, removed, syncs) = run_job(&mut e, 3, |p| p.starts_with("/data/record/"));
    assert_eq!(r, Err(ClearError::ClearFailed));
    assert!(!emmc_get_remove_status(&e));
    assert_eq!(syncs, 3);
    assert_eq!(
        removed,
        vec![
            "/data/record/*.h265",
            "/data/record/*.h264",
            "/data/record/*/*.h265",
            "/data/record/*/*.h264",
            "/data/events/*.jpeg",
            "/data/events/*.jpg",
            "/data/events/*/*.jpeg",
            "/data/events/*/*.jpg",
            "/data/events/*.h265",
            "/data/events/*.h264",
            "/data/events/*/*.h265",
            "/data/events/*/*.h264",
        ]
    );
}

#[test]
fn clear_single_modes_succeed() {
    let mut e = mounted_record("/data");
    let (r, removed, syncs) = run_job(&mut e, 0, |_| true);
    assert_eq!(r, Ok(()));
    assert_eq!(removed.len(), 4);
    assert_eq!(syncs, 1);
    assert!(!emmc_get_remove_status(&e));
    let (r, removed, _) = run_job(&mut e, 1, |_| true);
    assert_eq!(r, Ok(()));
    assert_eq!(removed[0], "/data/events/*.jpeg");
    let (r, removed, _) = run_job(&mut e, 2, |_| true);
    assert_eq!(r, Ok(()));
    assert_eq!(removed[3], "/data/events/*/*.h264");
}

#[test]
fn failed_sync_fails_the_clear() {
    let mut e = mounted_record("/data");
    let mut job = emmc_clear(&mut e, 0).unwrap();
    let mut last = None;
    loop {
        match job.next(&mut e, last) {
            ClearCommand::Run(ClearStep::Remove(_)) => last = Some(true),
            ClearCommand::Run(ClearStep::Sync) => last = Some(false),
            ClearCommand::Done(r) => {
                assert_eq!(r, Err(ClearError::ClearFailed));
                break;
            }
        }
    }
    assert!(!emmc_get_remove_status(&e));
}

#[test]
fn clear_rejects_bad_mode_and_unmounted_volume() {
    let mut e = mounted_record("/data");
    assert_eq!(emmc_clear(&mut e, 4).err(), Some(ClearError::ModeOutOfRange));
    assert_eq!(emmc_clear(&mut e, -1).err(), Some(ClearError::ModeOutOfRange));
    assert!(!emmc_get_remove_status(&e));
    e.inner.mount_status = false;
    assert_eq!(emmc_clear(&mut e, 0).err(), Some(ClearError::NotMounted));
    assert_eq!(emmc_clear(&mut e, 7).err(), Some(ClearError::ModeOutOfRange));
    assert!(!emmc_get_remove_status(&e));
}

#[test]
fn overlong_paths_are_not_removed() {
    // A 385-byte mount point: "<mnt>/record/*.h265" takes 399 bytes, "<mnt>/record/*/*.h265" 401.
    let mnt = format!("/{}", "m".repeat(384));
    let mut e = mounted_record(&mnt);
    let (r, removed, syncs) = run_job(&mut e, 0, |_| true);
    assert_eq!(r, Err(ClearError::ClearFailed));
    assert_eq!(syncs, 1);
    assert!(removed.iter().all(|p| p.len() <= 400));
    assert_eq!(removed.len(), 2);
    assert!(!emmc_get_remove_status(&e));
}
