use ini::Ini;
use ini_proc::config::{ini_get_ini_config, ini_setting_default, FW_VERSION};
use ini_proc::storage::{
    emmc_get_events_path, emmc_get_info, emmc_get_mount_status, emmc_get_recoder_base_path,
    emmc_get_recoder_path, emmc_get_remove_status, emmc_init, emmc_update_info, join_path,
    needs_reclaim, Emmc, EmmcStatus, FsStats,
};

fn record() -> Emmc {
    Emmc::new(
        "/dev/mmcblk0p9".to_string(),
        "/data".to_string(),
        "events".to_string(),
        "record".to_string(),
    )
}

fn mounted_record() -> Emmc {
    let mut e = record();
    e.inner.mount_status = true;
    e
}

fn system_config(keys: &[(&str, &str)]) -> Ini {
    let mut conf = Ini::new();
    for (k, v) in keys {
        conf.with_section(Some("system")).set(*k, *v);
    }
    conf
}

#[test]
fn fresh_record_is_unmounted_and_read_only() {
    let e = record();
    assert_eq!(
        emmc_get_info(&e),
        Some(EmmcStatus { mount_status: false, is_read_only: true, total_size: 0, free_size: 0, used_size: 0 })
    );
    assert_eq!(emmc_get_mount_status(&e), Some(false));
    assert!(!emmc_get_remove_status(&e));
    assert_eq!(e.remount_fail_count, 0);
    assert_eq!(
        e.attributes.video_device_dir,
        vec!["video_device0", "video_device1", "video_device2", "video_device3"]
    );
}

#[test]
fn events_path_falls_back_while_unmounted() {
    let e = record();
    assert_eq!(emmc_get_events_path(&e), Some("/tmp/events".to_string()));
    let m = mounted_record();
    assert_eq!(emmc_get_events_path(&m), Some("/data/events".to_string()));
}

#[test]
fn recordings_path_needs_mount_and_channel_in_range() {
    let e = record();
    for chn in 0..6 {
        assert_eq!(emmc_get_recoder_path(&e, chn), None);
    }
    let m = mounted_record();
    assert_eq!(emmc_get_recoder_path(&m, 0), Some("/data/record/video_device0".to_string()));
    assert_eq!(emmc_get_recoder_path(&m, 1), Some("/data/record/video_device1".to_string()));
    assert_eq!(emmc_get_recoder_path(&m, 3), Some("/data/record/video_device3".to_string()));
    assert_eq!(emmc_get_recoder_path(&m, 4), None);
    assert_eq!(emmc_get_recoder_path(&m, usize::MAX), None);
}

#[test]
fn recordings_base_path_needs_mount() {
    assert_eq!(emmc_get_recoder_base_path(&record()), None);
    assert_eq!(emmc_get_recoder_base_path(&mounted_record()), Some("/data/record".to_string()));
}

#[test]
fn join_path_puts_one_slash_between() {
    assert_eq!(join_path("/data", "log"), "/data/log");
    assert_eq!(join_path("", ""), "/");
}

#[test]
fn init_reads_the_four_system_keys() {
    let conf = system_config(&[
        ("emmcdevname", "/dev/mmcblk0p9"),
        ("emmcdevmnt", "/data"),
        ("emmceventsdir", "events"),
        ("emmcrecorddir", "record"),
    ]);
    let e = emmc_init(&conf).expect("all keys present");
    assert_eq!(e.attributes.emmc_devname, "/dev/mmcblk0p9");
    assert_eq!(e.attributes.emmc_mntpoint, "/data");
    assert_eq!(e.attributes.emmc_eventsdir, "events");
    assert_eq!(e.attributes.emmc_recorddir, "record");
    assert_eq!(e.attributes.tmp_events_dir, "/tmp/events");
    assert!(!e.inner.mount_status);
}

#[test]
fn init_fails_on_a_missing_key() {
    let conf = system_config(&[
        ("emmcdevname", "/dev/mmcblk0p9"),
        ("emmcdevmnt", "/data"),
        ("emmceventsdir", "events"),
    ]);
    assert!(emmc_init(&conf).is_none());
    let mut other = Ini::new();
    other.with_section(Some("network")).set("emmcrecorddir", "record");
    assert!(emmc_init(&other).is_none());
}

#[test]
fn config_lookup_by_section_and_key() {
    let conf = system_config(&[("emmcdevmnt", "/data")]);
    assert_eq!(ini_get_ini_config(&conf, "system", "emmcdevmnt"), Some("/data".to_string()));
    assert_eq!(ini_get_ini_config(&conf, "system", "missing"), None);
    assert_eq!(ini_get_ini_config(&conf, "network", "emmcdevmnt"), None);
}

#[test]
fn health_sample_computes_kilobytes() {
    let mut e = record();
    let stats = FsStats { blocks: 1000, blocks_free: 250, block_size: 4096, read_only: false };
    assert_eq!(emmc_update_info(&mut e, Some(stats)), Some(false));
    assert_eq!(
        e.inner,
        EmmcStatus { mount_status: true, is_read_only: false, total_size: 4000, free_size: 1000, used_size: 3000 }
    );
    let odd = FsStats { blocks: 3, blocks_free: 1, block_size: 1000, read_only: true };
    assert_eq!(emmc_update_info(&mut e, Some(odd)), Some(true));
    assert_eq!(
        e.inner,
        EmmcStatus { mount_status: true, is_read_only: true, total_size: 2, free_size: 0, used_size: 2 }
    );
}

#[test]
fn failed_health_sample_keeps_the_stale_snapshot() {
    let mut e = record();
    let stats = FsStats { blocks: 1000, blocks_free: 250, block_size: 4096, read_only: false };
    emmc_update_info(&mut e, Some(stats));
    let before = e.inner;
    assert_eq!(emmc_update_info(&mut e, None), None);
    assert_eq!(e.inner, before);
    let inconsistent = FsStats { blocks: 10, blocks_free: 20, block_size: 4096, read_only: false };
    assert_eq!(emmc_update_info(&mut e, Some(inconsistent)), None);
    assert_eq!(e.inner, before);
    let huge = FsStats { blocks: u64::MAX, blocks_free: 0, block_size: u64::MAX, read_only: false };
    assert_eq!(emmc_update_info(&mut e, Some(huge)), None);
    assert_eq!(e.inner, before);
}

#[test]
fn low_space_threshold_is_inclusive() {
    let mut st = EmmcStatus { mount_status: true, is_read_only: false, total_size: 524288, free_size: 0, used_size: 524288 };
    assert!(needs_reclaim(&st));
    st.total_size = 524289;
    assert!(!needs_reclaim(&st));
}

#[test]
fn default_configuration_holds_the_storage_keys() {
    let conf = ini_setting_default();
    assert_eq!(ini_get_ini_config(&conf, "system", "emmcdevname"), Some("/dev/mmcblk0p9".to_string()));
    assert_eq!(ini_get_ini_config(&conf, "system", "emmcdevmnt"), Some("/data".to_string()));
    assert_eq!(ini_get_ini_config(&conf, "system", "FW_VERSION"), Some(FW_VERSION.to_string()));
    assert_eq!(ini_get_ini_config(&conf, "gb28181", "alertId"), Some("0".to_string()));
    assert_eq!(conf.general_section().get("soc"), Some("mc6357"));
    assert_eq!(conf.len(), 6);
    let e = emmc_init(&conf).expect("defaults carry the storage keys");
    assert_eq!(e.attributes.emmc_recorddir, "record");
}
