//! The shared storage record: fixed attributes from configuration, the
//! status snapshot refreshed by every health pass, the remount-failure
//! counter and the bulk-removal flag, with the read-only accessors.

use vstd::prelude::*;
use crate::config::{ini_get_ini_config, ini_values};

verus! {

/// Number of per-channel recording directories.
pub const VIDEO_DEVICE_MAX_COUNT: usize = 4;
/// Seconds between health passes while the volume is healthy.
pub const CHECK_INTERVAL_NORMAL: u64 = 60;
/// Seconds to wait after a failed pass before the next repair attempt.
pub const CHECK_INTERVAL_ERROR: u64 = 5;
/// Capacity, in KB, at or below which a health pass reclaims one file.
pub const LOW_SPACE_THRESHOLD_KB: u64 = 1024 * 512;

/// `a/b`.
pub open spec fn path_join(a: Seq<char>, b: Seq<char>) -> Seq<char> {
    a + "/"@ + b
}

pub open spec fn digit_text(n: int) -> Seq<char> {
    if n == 0 {
        "0"@
    } else if n == 1 {
        "1"@
    } else if n == 2 {
        "2"@
    } else {
        "3"@
    }
}

/// Name of the recording directory of channel `chn`: `video_device{chn}`.
pub open spec fn channel_dir_name(chn: int) -> Seq<char> {
    "video_device"@ + digit_text(chn)
}

/// Fallback directory for events while the volume is not mounted.
pub open spec fn tmp_events_dir() -> Seq<char> {
    "/tmp/events"@
}

/// Live view of the volume, recomputed by each successful health pass.
#[derive(Debug, Clone, Copy, PartialEq, Eq, Structural)]
pub struct EmmcStatus {
    pub mount_status: bool,
    pub is_read_only: bool,
    /// Capacity in KB.
    pub total_size: u64,
    /// Free space in KB.
    pub free_size: u64,
    /// `total_size - free_size`, in KB.
    pub used_size: u64,
}

/// Fixed description of the volume, set once from configuration.
#[derive(Debug, Clone)]
pub struct EmmcAttributes {
    pub emmc_devname: String,
    pub emmc_mntpoint: String,
    pub emmc_eventsdir: String,
    pub emmc_recorddir: String,
    pub video_device_dir: Vec<String>,
    pub tmp_events_dir: String,
}

/// The shared storage record.
#[derive(Debug)]
pub struct Emmc {
    pub inner: EmmcStatus,
    pub attributes: EmmcAttributes,
    /// Consecutive failed mount or repair attempts.
    pub remount_fail_count: u32,
    /// A bulk removal is under way.
    pub remove_status: bool,
}

impl Emmc {
    /// The per-channel directory names are `video_device0` .. `video_device3`.
    pub open spec fn wf(&self) -> bool {
        &&& self.attributes.video_device_dir@.len() == VIDEO_DEVICE_MAX_COUNT
        &&& forall|i: int|
            0 <= i < VIDEO_DEVICE_MAX_COUNT ==> #[trigger] self.attributes.video_device_dir@[i]@
                == channel_dir_name(i)
    }

    pub open spec fn mounted(&self) -> bool {
        self.inner.mount_status
    }

    /// Where events go: the fallback directory while unmounted, else
    /// `mount_point/events_dir`.
    pub open spec fn events_path(&self) -> Seq<char> {
        if !self.inner.mount_status {
            self.attributes.tmp_events_dir@
        } else {
            path_join(self.attributes.emmc_mntpoint@, self.attributes.emmc_eventsdir@)
        }
    }

    /// `mount_point/records_dir`.
    pub open spec fn records_base(&self) -> Seq<char> {
        path_join(self.attributes.emmc_mntpoint@, self.attributes.emmc_recorddir@)
    }

    /// `mount_point/records_dir/video_device{chn}`.
    pub open spec fn channel_path(&self, chn: int) -> Seq<char> {
        path_join(self.records_base(), channel_dir_name(chn))
    }

    /// The attributes and the initial status that start-up gives.
    pub open spec fn is_fresh(
        &self,
        devname: Seq<char>,
        mntpoint: Seq<char>,
        eventsdir: Seq<char>,
        recorddir: Seq<char>,
    ) -> bool {
        &&& self.wf()
        &&& self.attributes.emmc_devname@ == devname
        &&& self.attributes.emmc_mntpoint@ == mntpoint
        &&& self.attributes.emmc_eventsdir@ == eventsdir
        &&& self.attributes.emmc_recorddir@ == recorddir
        &&& self.attributes.tmp_events_dir@ == tmp_events_dir()
        &&& self.inner == EmmcStatus {
            mount_status: false,
            is_read_only: true,
            total_size: 0,
            free_size: 0,
            used_size: 0,
        }
        &&& self.remount_fail_count == 0
        &&& !self.remove_status
    }
}

/// `a/b` as a new string.
pub fn join_path(a: &str, b: &str) -> (r: String)
    ensures
        r@ == path_join(a@, b@),
{
    let mut s = String::from_str(a);
    s.append("/");
    s.append(b);
    s
}

fn channel_dir(chn: usize) -> (r: String)
    requires
        chn < VIDEO_DEVICE_MAX_COUNT,
    ensures
        r@ == channel_dir_name(chn as int),
{
    let mut s = String::from_str("video_device");
    let digit = if chn == 0 {
        "0"
    } else if chn == 1 {
        "1"
    } else if chn == 2 {
        "2"
    } else {
        "3"
    };
    s.append(digit);
    s
}

/// The per-channel recording directory names, in channel order.
pub fn channel_dirs() -> (r: Vec<String>)
    ensures
        r@.len() == VIDEO_DEVICE_MAX_COUNT,
        forall|i: int| 0 <= i < VIDEO_DEVICE_MAX_COUNT ==> #[trigger] r@[i]@ == channel_dir_name(i),
{
    let mut v: Vec<String> = Vec::new();
    let mut chn: usize = 0;
    while chn < VIDEO_DEVICE_MAX_COUNT
        invariant
            chn <= VIDEO_DEVICE_MAX_COUNT,
            v@.len() == chn,
            forall|i: int| 0 <= i < chn ==> #[trigger] v@[i]@ == channel_dir_name(i),
        decreases VIDEO_DEVICE_MAX_COUNT - chn,
    {
        v.push(channel_dir(chn));
        chn += 1;
    }
    v
}

impl Emmc {
    /// The record that start-up builds from the four configured values:
    /// unmounted, read-only, no capacity known, no failures, no removal.
    pub fn new(devname: String, mntpoint: String, eventsdir: String, recorddir: String) -> (r: Emmc)
        ensures
            r.is_fresh(devname@, mntpoint@, eventsdir@, recorddir@),
    {
        Emmc {
            inner: EmmcStatus {
                mount_status: false,
                is_read_only: true,
                total_size: 0,
                free_size: 0,
                used_size: 0,
            },
            attributes: EmmcAttributes {
                emmc_devname: devname,
                emmc_mntpoint: mntpoint,
                emmc_eventsdir: eventsdir,
                emmc_recorddir: recorddir,
                video_device_dir: channel_dirs(),
                tmp_events_dir: String::from_str("/tmp/events"),
            },
            remount_fail_count: 0,
            remove_status: false,
        }
    }
}

/// The configuration value `system/key`, if present.
pub open spec fn system_value(conf: ini::Ini, key: Seq<char>) -> Option<Seq<char>> {
    if ini_values(conf).contains_key((Some("system"@), key)) {
        Some(ini_values(conf)[(Some("system"@), key)])
    } else {
        None
    }
}

/// Builds the storage record from the `system` section of the configuration:
/// `None` exactly when one of `emmcdevname`, `emmcdevmnt`, `emmceventsdir`,
/// `emmcrecorddir` is missing.
pub fn emmc_init(conf: &ini::Ini) -> (r: Option<Emmc>)
    ensures
        r is Some <==> {
            &&& system_value(*conf, "emmcdevname"@) is Some
            &&& system_value(*conf, "emmcdevmnt"@) is Some
            &&& system_value(*conf, "emmceventsdir"@) is Some
            &&& system_value(*conf, "emmcrecorddir"@) is Some
        },
        r is Some ==> r->0.is_fresh(
            system_value(*conf, "emmcdevname"@)->0,
            system_value(*conf, "emmcdevmnt"@)->0,
            system_value(*conf, "emmceventsdir"@)->0,
            system_value(*conf, "emmcrecorddir"@)->0,
        ),
{
    let devname = ini_get_ini_config(conf, "system", "emmcdevname");
    let mntpoint = ini_get_ini_config(conf, "system", "emmcdevmnt");
    let eventsdir = ini_get_ini_config(conf, "system", "emmceventsdir");
    let recorddir = ini_get_ini_config(conf, "system", "emmcrecorddir");
    match (devname, mntpoint, eventsdir, recorddir) {
        (Some(d), Some(m), Some(e), Some(r)) => Some(Emmc::new(d, m, e, r)),
        _ => None,
    }
}

/// Where events are written: the fallback directory while unmounted, else
/// `mount_point/events_dir`.
pub fn emmc_get_events_path(emmc: &Emmc) -> (r: Option<String>)
    ensures
        r is Some,
        r->0@ == emmc.events_path(),
{
    if !emmc.inner.mount_status {
        Some(emmc.attributes.tmp_events_dir.clone())
    } else {
        Some(join_path(emmc.attributes.emmc_mntpoint.as_str(), emmc.attributes.emmc_eventsdir.as_str()))
    }
}

/// Recording directory of channel `chn`; `None` when the channel is out of
/// range or the volume is not mounted.
pub fn emmc_get_recoder_path(emmc: &Emmc, chn: usize) -> (r: Option<String>)
    requires
        emmc.wf(),
    ensures
        r is None <==> (chn >= VIDEO_DEVICE_MAX_COUNT || !emmc.mounted()),
        r is Some ==> r->0@ == emmc.channel_path(chn as int),
{
    if chn >= VIDEO_DEVICE_MAX_COUNT {
        return None;
    }
    if !emmc.inner.mount_status {
        None
    } else {
        let base = join_path(emmc.attributes.emmc_mntpoint.as_str(), emmc.attributes.emmc_recorddir.as_str());
        Some(join_path(base.as_str(), emmc.attributes.video_device_dir[chn].as_str()))
    }
}

/// `mount_point/records_dir`; `None` when the volume is not mounted.
pub fn emmc_get_recoder_base_path(emmc: &Emmc) -> (r: Option<String>)
    ensures
        r is None <==> !emmc.mounted(),
        r is Some ==> r->0@ == emmc.records_base(),
{
    if !emmc.inner.mount_status {
        None
    } else {
        Some(join_path(emmc.attributes.emmc_mntpoint.as_str(), emmc.attributes.emmc_recorddir.as_str()))
    }
}

/// Last known mount state.
pub fn emmc_get_mount_status(emmc: &Emmc) -> (r: Option<bool>)
    ensures
        r == Some(emmc.inner.mount_status),
{
    Some(emmc.inner.mount_status)
}

/// A copy of the status snapshot.
pub fn emmc_get_info(emmc: &Emmc) -> (r: Option<EmmcStatus>)
    ensures
        r == Some(emmc.inner),
{
    Some(emmc.inner)
}

/// Whether a bulk removal is under way.
pub fn emmc_get_remove_status(emmc: &Emmc) -> (r: bool)
    ensures
        r == emmc.remove_status,
{
    emmc.remove_status
}

/// Figures reported by a file-system statistics query on the mount point.
#[derive(Debug, Clone, Copy, PartialEq, Eq, Structural)]
pub struct FsStats {
    pub blocks: u64,
    pub blocks_free: u64,
    pub block_size: u64,
    pub read_only: bool,
}

/// `blocks * block_size` bytes, in KB.
pub open spec fn size_kb(blocks: u64, block_size: u64) -> int {
    (blocks * block_size) / 1024
}

/// A report is usable when its capacity fits in 64 bits of KB and its free
/// space does not exceed its capacity.
pub open spec fn stats_usable(s: FsStats) -> bool {
    &&& size_kb(s.blocks, s.block_size) <= u64::MAX
    &&& size_kb(s.blocks_free, s.block_size) <= size_kb(s.blocks, s.block_size)
}

/// The snapshot that a usable report gives: mounted, with its read-only flag
/// and its figures in KB.
pub open spec fn status_of(s: FsStats) -> EmmcStatus {
    EmmcStatus {
        mount_status: true,
        is_read_only: s.read_only,
        total_size: size_kb(s.blocks, s.block_size) as u64,
        free_size: size_kb(s.blocks_free, s.block_size) as u64,
        used_size: (size_kb(s.blocks, s.block_size) - size_kb(s.blocks_free, s.block_size)) as u64,
    }
}

/// Capacity low enough that a health pass reclaims one file.
pub open spec fn low_space(st: EmmcStatus) -> bool {
    st.total_size <= LOW_SPACE_THRESHOLD_KB
}

fn kb_of(blocks: u64, block_size: u64) -> (r: u128)
    ensures
        r == size_kb(blocks, block_size),
{
    let b = blocks as u128;
    let z = block_size as u128;
    assert(b * z <= u64::MAX * u64::MAX) by (nonlinear_arith)
        requires
            b <= u64::MAX,
            z <= u64::MAX,
    ;
    (b * z) / 1024
}

/// Health sampling under exclusive access: folds the outcome of a statistics
/// query into the snapshot. Returns the read-only flag, or `None` when the
/// query failed or its figures are unusable; then the snapshot is kept as it
/// was (stale, not reset).
pub fn emmc_update_info(emmc: &mut Emmc, stats: Option<FsStats>) -> (r: Option<bool>)
    ensures
        stats is Some && stats_usable(stats->0) ==> r == Some(stats->0.read_only)
            && final(emmc).inner == status_of(stats->0),
        !(stats is Some && stats_usable(stats->0)) ==> r is None && final(emmc).inner == old(emmc).inner,
        final(emmc).attributes == old(emmc).attributes,
        final(emmc).remount_fail_count == old(emmc).remount_fail_count,
        final(emmc).remove_status == old(emmc).remove_status,
{
    match stats {
        None => None,
        Some(s) => {
            let total = kb_of(s.blocks, s.block_size);
            let free = kb_of(s.blocks_free, s.block_size);
            if total > u64::MAX as u128 || free > total {
                return None;
            }
            emmc.inner = EmmcStatus {
                mount_status: true,
                is_read_only: s.read_only,
                total_size: total as u64,
                free_size: free as u64,
                used_size: (total - free) as u64,
            };
            Some(s.read_only)
        },
    }
}

/// Whether the snapshot calls for one reclamation pass.
pub fn needs_reclaim(st: &EmmcStatus) -> (r: bool)
    ensures
        r == low_space(*st),
{
    st.total_size <= LOW_SPACE_THRESHOLD_KB
}

} // verus!
