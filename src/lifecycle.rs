//! The mount-lifecycle state machine. It runs as a step function: given the
//! answer to the command it issued last, it updates the shared record and
//! names the next piece of outside work (read the mount table, create
//! directories, query statistics, run `fsck`/`mkfs`/`mount`, sleep).
//! The embedding loop performs each command and feeds the answer back.

use vstd::prelude::*;
use crate::mounts::{emmc_mounted_status, mount_listed};
use crate::provision::{emmc_create_mount_dirs, mount_dirs, texts};
use crate::storage::{
    emmc_update_info, low_space, needs_reclaim, status_of, stats_usable, Emmc, EmmcStatus, FsStats,
    CHECK_INTERVAL_ERROR, CHECK_INTERVAL_NORMAL,
};

verus! {

/// Consecutive failures after which a repair reformats instead of checking.
pub const REFORMAT_THRESHOLD: u32 = 3;
/// Milliseconds to let an unmount or a mount settle.
pub const SETTLE_MS: u64 = 500;

/// How an external utility ended.
#[derive(Debug, Clone, Copy, PartialEq, Eq, Structural)]
pub enum ProcessOutcome {
    /// It could not be started (or waited for).
    NotStarted,
    /// It exited with this status code.
    Exited(i32),
    /// It was killed by a signal.
    Killed,
}

/// The four states of the lifecycle.
#[derive(Debug, Clone, Copy, PartialEq, Eq, Structural)]
pub enum EmmcStateType {
    CheckMount,
    CheckDirs,
    UpdateInfo,
    MountRetry,
}

/// Where the machine stands: which answer it waits for.
#[derive(Debug, Clone, Copy, PartialEq, Eq, Structural)]
pub enum Phase {
    /// About to enter `next`, on whatever event comes (after a sleep, or at start).
    Idle { next: EmmcStateType },
    /// Waiting for the mount table.
    CheckMount,
    /// Waiting for directory creation.
    CheckDirs,
    /// Waiting for statistics of the health pass.
    UpdateInfo,
    /// Waiting for the reclamation pass of a health pass.
    UpdateReclaim { read_only: bool },
    /// Waiting for the device to be made writable and unmounted.
    RetryPrepare,
    /// Waiting for `mkfs` (`reformat`) or `fsck`.
    RetryRepair { reformat: bool },
    /// Waiting for `mount`.
    RetryMount,
    /// Waiting for the mount to settle.
    RetrySettle,
    /// Waiting for statistics after the mount.
    RetryVerify,
    /// Waiting for the reclamation pass after the mount.
    RetryReclaim { read_only: bool },
}

/// Outside work requested by the machine.
#[derive(Debug)]
pub enum Command {
    /// Read the mount table; answer `MountTable`.
    ReadMountTable,
    /// Create each listed directory that does not exist yet; answer `DirsCreated`.
    CreateDirs(Vec<String>),
    /// Query file-system statistics of this mount point; answer `FsStats`.
    ProbeFs(String),
    /// Delete the single oldest file under this root; answer `Reclaimed`.
    Reclaim(String),
    /// Force the device writable, force-unmount, let it settle; answer `Prepared`.
    PrepareDevice { device: String, mount_point: String },
    /// Check and repair the file system of this device; answer `Exited`.
    Fsck(String),
    /// Reformat this device; answer `Exited`.
    Mkfs(String),
    /// Mount the device without access-time updates; answer `Exited`.
    Mount { device: String, mount_point: String },
    /// Wait this many milliseconds; answer `Paused`.
    Pause(u64),
    /// Sleep up to this many seconds, waking early on a trigger; answer `Woke`.
    Sleep(u64),
}

/// The answer to a command.
#[derive(Debug)]
pub enum Event {
    /// First call, before any command.
    Start,
    /// The mount table's text, or `None` when it could not be read.
    MountTable(Option<String>),
    /// Whether every directory now exists.
    DirsCreated(bool),
    /// The statistics, or `None` when the query failed.
    FsStats(Option<FsStats>),
    Reclaimed,
    Prepared,
    Exited(ProcessOutcome),
    Paused,
    Woke,
}

/// A command as plain values.
pub enum CommandView {
    ReadMountTable,
    CreateDirs(Seq<Seq<char>>),
    ProbeFs(Seq<char>),
    Reclaim(Seq<char>),
    PrepareDevice(Seq<char>, Seq<char>),
    Fsck(Seq<char>),
    Mkfs(Seq<char>),
    Mount(Seq<char>, Seq<char>),
    Pause(u64),
    Sleep(u64),
}

impl View for Command {
    type V = CommandView;

    open spec fn view(&self) -> CommandView {
        match self {
            Command::ReadMountTable => CommandView::ReadMountTable,
            Command::CreateDirs(d) => CommandView::CreateDirs(texts(d@)),
            Command::ProbeFs(m) => CommandView::ProbeFs(m@),
            Command::Reclaim(m) => CommandView::Reclaim(m@),
            Command::PrepareDevice { device, mount_point } => CommandView::PrepareDevice(
                device@,
                mount_point@,
            ),
            Command::Fsck(d) => CommandView::Fsck(d@),
            Command::Mkfs(d) => CommandView::Mkfs(d@),
            Command::Mount { device, mount_point } => CommandView::Mount(device@, mount_point@),
            Command::Pause(ms) => CommandView::Pause(*ms),
            Command::Sleep(s) => CommandView::Sleep(*s),
        }
    }
}

/// What one step yields: the new phase, failure counter and snapshot, and the
/// command issued.
pub struct Transition {
    pub phase: Phase,
    pub count: u32,
    pub inner: EmmcStatus,
    pub cmd: CommandView,
}

/// The counter after one more failure (it stops at its largest value).
pub open spec fn bumped(n: u32) -> u32 {
    if n < u32::MAX {
        (n + 1) as u32
    } else {
        n
    }
}

/// The read-only flag that a statistics answer gives: `None` when the query
/// failed or its figures are unusable.
pub open spec fn probe_flag(s: Option<FsStats>) -> Option<bool> {
    if s is Some && stats_usable(s->0) {
        Some(s->0.read_only)
    } else {
        None
    }
}

/// The snapshot after a statistics answer (kept as it was on failure).
pub open spec fn probe_status(inner: EmmcStatus, s: Option<FsStats>) -> EmmcStatus {
    if s is Some && stats_usable(s->0) {
        status_of(s->0)
    } else {
        inner
    }
}

/// The command that a phase waits on the answer to.
pub open spec fn pending(phase: Phase, e: Emmc) -> CommandView {
    let dev = e.attributes.emmc_devname@;
    let mnt = e.attributes.emmc_mntpoint@;
    match phase {
        Phase::Idle { .. } => CommandView::ReadMountTable,
        Phase::CheckMount => CommandView::ReadMountTable,
        Phase::CheckDirs => CommandView::CreateDirs(mount_dirs(e)),
        Phase::UpdateInfo => CommandView::ProbeFs(mnt),
        Phase::UpdateReclaim { .. } => CommandView::Reclaim(mnt),
        Phase::RetryPrepare => CommandView::PrepareDevice(dev, mnt),
        Phase::RetryRepair { reformat } => if reformat {
            CommandView::Mkfs(dev)
        } else {
            CommandView::Fsck(dev)
        },
        Phase::RetryMount => CommandView::Mount(dev, mnt),
        Phase::RetrySettle => CommandView::Pause(SETTLE_MS),
        Phase::RetryVerify => CommandView::ProbeFs(mnt),
        Phase::RetryReclaim { .. } => CommandView::Reclaim(mnt),
    }
}

/// The phase in which a state waits for the answer to its first command.
pub open spec fn entry_phase(s: EmmcStateType) -> Phase {
    match s {
        EmmcStateType::CheckMount => Phase::CheckMount,
        EmmcStateType::CheckDirs => Phase::CheckDirs,
        EmmcStateType::UpdateInfo => Phase::UpdateInfo,
        EmmcStateType::MountRetry => Phase::RetryPrepare,
    }
}

/// Entering state `s`: issue its first command.
pub open spec fn enter(s: EmmcStateType, e: Emmc, count: u32, inner: EmmcStatus) -> Transition {
    Transition { phase: entry_phase(s), count, inner, cmd: pending(entry_phase(s), e) }
}

/// A failed repair attempt: sleep the error interval, then retry the repair.
pub open spec fn fail(count: u32, inner: EmmcStatus) -> Transition {
    Transition {
        phase: Phase::Idle { next: EmmcStateType::MountRetry },
        count,
        inner,
        cmd: CommandView::Sleep(CHECK_INTERVAL_ERROR),
    }
}

/// End of a health pass: writable sleeps the normal interval and checks the
/// mount again; read-only or unknown sleeps the error interval and repairs.
pub open spec fn after_update(flag: Option<bool>, count: u32, inner: EmmcStatus) -> Transition {
    if flag == Some(false) {
        Transition {
            phase: Phase::Idle { next: EmmcStateType::CheckMount },
            count,
            inner,
            cmd: CommandView::Sleep(CHECK_INTERVAL_NORMAL),
        }
    } else {
        fail(count, inner)
    }
}

/// End of a repair: a writable volume resets the counter and checks the
/// mount; read-only or unknown counts as a failure.
pub open spec fn after_verify(flag: Option<bool>, e: Emmc, count: u32, inner: EmmcStatus) -> Transition {
    if flag == Some(false) {
        enter(EmmcStateType::CheckMount, e, 0, inner)
    } else {
        fail(bumped(count), inner)
    }
}

/// One step of the lifecycle. An event that does not answer the pending
/// command changes nothing, and the pending command is issued again.
pub open spec fn step(phase: Phase, e: Emmc, ev: Event) -> Transition {
    let count = e.remount_fail_count;
    let inner = e.inner;
    let dev = e.attributes.emmc_devname@;
    let mnt = e.attributes.emmc_mntpoint@;
    let stay = Transition { phase, count, inner, cmd: pending(phase, e) };
    match phase {
        Phase::Idle { next } => enter(next, e, count, inner),
        Phase::CheckMount => match ev {
            Event::MountTable(t) => if t is Some && mount_listed(t->0@, dev, mnt) {
                enter(EmmcStateType::CheckDirs, e, count, inner)
            } else {
                enter(EmmcStateType::MountRetry, e, count, inner)
            },
            _ => stay,
        },
        Phase::CheckDirs => match ev {
            Event::DirsCreated(ok) => if ok {
                enter(EmmcStateType::UpdateInfo, e, count, inner)
            } else {
                enter(EmmcStateType::CheckDirs, e, count, inner)
            },
            _ => stay,
        },
        Phase::UpdateInfo => match ev {
            Event::FsStats(s) => {
                let flag = probe_flag(s);
                let inner2 = probe_status(inner, s);
                if flag is Some && low_space(inner2) {
                    Transition {
                        phase: Phase::UpdateReclaim { read_only: flag->0 },
                        count,
                        inner: inner2,
                        cmd: CommandView::Reclaim(mnt),
                    }
                } else {
                    after_update(flag, count, inner2)
                }
            },
            _ => stay,
        },
        Phase::UpdateReclaim { read_only } => match ev {
            Event::Reclaimed => after_update(Some(read_only), count, inner),
            _ => stay,
        },
        Phase::RetryPrepare => match ev {
            Event::Prepared => if count >= REFORMAT_THRESHOLD {
                Transition {
                    phase: Phase::RetryRepair { reformat: true },
                    count,
                    inner,
                    cmd: CommandView::Mkfs(dev),
                }
            } else {
                Transition {
                    phase: Phase::RetryRepair { reformat: false },
                    count,
                    inner,
                    cmd: CommandView::Fsck(dev),
                }
            },
            _ => stay,
        },
        Phase::RetryRepair { reformat } => match ev {
            Event::Exited(o) => if reformat {
                match o {
                    ProcessOutcome::Exited(code) => if code == 0 {
                        Transition { phase: Phase::RetryMount, count: 0, inner, cmd: CommandView::Mount(dev, mnt) }
                    } else {
                        fail(bumped(count), inner)
                    },
                    ProcessOutcome::Killed => fail(bumped(count), inner),
                    ProcessOutcome::NotStarted => fail(count, inner),
                }
            } else {
                match o {
                    ProcessOutcome::Exited(code) => if 0 <= code <= 2 {
                        Transition { phase: Phase::RetryMount, count, inner, cmd: CommandView::Mount(dev, mnt) }
                    } else if code >= 4 {
                        fail(bumped(count), inner)
                    } else {
                        fail(count, inner)
                    },
                    _ => fail(count, inner),
                }
            },
            _ => stay,
        },
        Phase::RetryMount => match ev {
            Event::Exited(o) => match o {
                ProcessOutcome::Exited(code) => if code == 0 {
                    Transition { phase: Phase::RetrySettle, count, inner, cmd: CommandView::Pause(SETTLE_MS) }
                } else {
                    fail(bumped(count), inner)
                },
                ProcessOutcome::Killed => fail(bumped(count), inner),
                ProcessOutcome::NotStarted => fail(count, inner),
            },
            _ => stay,
        },
        Phase::RetrySettle => match ev {
            Event::Paused => Transition { phase: Phase::RetryVerify, count, inner, cmd: CommandView::ProbeFs(mnt) },
            _ => stay,
        },
        Phase::RetryVerify => match ev {
            Event::FsStats(s) => {
                let flag = probe_flag(s);
                let inner2 = probe_status(inner, s);
                if flag is Some && low_space(inner2) {
                    Transition {
                        phase: Phase::RetryReclaim { read_only: flag->0 },
                        count,
                        inner: inner2,
                        cmd: CommandView::Reclaim(mnt),
                    }
                } else {
                    after_verify(flag, e, count, inner2)
                }
            },
            _ => stay,
        },
        Phase::RetryReclaim { read_only } => match ev {
            Event::Reclaimed => after_verify(Some(read_only), e, count, inner),
            _ => stay,
        },
    }
}

/// The remount-failure counter only moves in three ways in one step: it
/// stays, it grows by one on a failed attempt (which then sleeps the error
/// interval and retries), or it drops to zero on a successful reformat or a
/// mount verified writable. A repair reformats exactly when the counter has
/// reached the threshold, and checks non-destructively below it.
pub proof fn lemma_retry_counter(phase: Phase, e: Emmc, ev: Event)
    ensures
        ({
            let t = step(phase, e, ev);
            let c = e.remount_fail_count;
            &&& t.count == c || t.count == bumped(c) || t.count == 0
            &&& t.count > c ==> {
                &&& t.count == c + 1
                &&& t.phase == (Phase::Idle { next: EmmcStateType::MountRetry })
                &&& t.cmd == CommandView::Sleep(CHECK_INTERVAL_ERROR)
            }
            &&& t.count < c ==> {
                &&& t.count == 0
                &&& {
                    ||| phase == (Phase::RetryRepair { reformat: true }) && t.cmd is Mount
                    ||| (phase is RetryVerify || phase is RetryReclaim) && t.cmd is ReadMountTable
                }
            }
            &&& (phase == Phase::RetryPrepare && ev is Prepared) ==> {
                &&& t.cmd is Mkfs <==> c >= REFORMAT_THRESHOLD
                &&& t.cmd is Fsck <==> c < REFORMAT_THRESHOLD
            }
            &&& t.cmd is Mkfs ==> {
                ||| phase == Phase::RetryPrepare && c >= REFORMAT_THRESHOLD
                ||| phase == (Phase::RetryRepair { reformat: true })
            }
        }),
{
}

/// The background checker: the phase of the lifecycle.
#[derive(Debug)]
pub struct EmmcChecker {
    pub phase: Phase,
}

fn bump(n: u32) -> (r: u32)
    ensures
        r == bumped(n),
{
    if n < u32::MAX {
        n + 1
    } else {
        n
    }
}

impl EmmcChecker {
    /// A checker that starts with a repair attempt, as at power-up.
    pub fn new() -> (r: EmmcChecker)
        ensures
            r.phase == (Phase::Idle { next: EmmcStateType::MountRetry }),
    {
        EmmcChecker { phase: Phase::Idle { next: EmmcStateType::MountRetry } }
    }

    fn pending_command(&self, emmc: &Emmc) -> (r: Command)
        requires
            emmc.wf(),
        ensures
            r@ == pending(self.phase, *emmc),
    {
        let dev = &emmc.attributes.emmc_devname;
        let mnt = &emmc.attributes.emmc_mntpoint;
        match self.phase {
            Phase::Idle { .. } => Command::ReadMountTable,
            Phase::CheckMount => Command::ReadMountTable,
            Phase::CheckDirs => Command::CreateDirs(emmc_create_mount_dirs(emmc)),
            Phase::UpdateInfo => Command::ProbeFs(mnt.clone()),
            Phase::UpdateReclaim { .. } => Command::Reclaim(mnt.clone()),
            Phase::RetryPrepare => Command::PrepareDevice { device: dev.clone(), mount_point: mnt.clone() },
            Phase::RetryRepair { reformat } => if reformat {
                Command::Mkfs(dev.clone())
            } else {
                Command::Fsck(dev.clone())
            },
            Phase::RetryMount => Command::Mount { device: dev.clone(), mount_point: mnt.clone() },
            Phase::RetrySettle => Command::Pause(SETTLE_MS),
            Phase::RetryVerify => Command::ProbeFs(mnt.clone()),
            Phase::RetryReclaim { .. } => Command::Reclaim(mnt.clone()),
        }
    }

    fn enter(&mut self, emmc: &Emmc, s: EmmcStateType) -> (r: Command)
        requires
            emmc.wf(),
        ensures
            final(self).phase == entry_phase(s),
            r@ == pending(entry_phase(s), *emmc),
    {
        self.phase = match s {
            EmmcStateType::CheckMount => Phase::CheckMount,
            EmmcStateType::CheckDirs => Phase::CheckDirs,
            EmmcStateType::UpdateInfo => Phase::UpdateInfo,
            EmmcStateType::MountRetry => Phase::RetryPrepare,
        };
        self.pending_command(emmc)
    }

    fn fail(&mut self, emmc: &mut Emmc, counts: bool) -> (r: Command)
        ensures
            final(self).phase == (Phase::Idle { next: EmmcStateType::MountRetry }),
            final(emmc).remount_fail_count == if counts {
                bumped(old(emmc).remount_fail_count)
            } else {
                old(emmc).remount_fail_count
            },
            final(emmc).inner == old(emmc).inner,
            final(emmc).attributes == old(emmc).attributes,
            final(emmc).remove_status == old(emmc).remove_status,
            r@ == CommandView::Sleep(CHECK_INTERVAL_ERROR),
    {
        if counts {
            emmc.remount_fail_count = bump(emmc.remount_fail_count);
        }
        self.phase = Phase::Idle { next: EmmcStateType::MountRetry };
        Command::Sleep(CHECK_INTERVAL_ERROR)
    }

    /// One step: folds the answer `event` to the last command into the shared
    /// record and returns the next command, exactly as `step` states.
    pub fn next(&mut self, emmc: &mut Emmc, event: Event) -> (cmd: Command)
        requires
            old(emmc).wf(),
        ensures
            ({
                let t = step(old(self).phase, *old(emmc), event);
                &&& final(self).phase == t.phase
                &&& final(emmc).remount_fail_count == t.count
                &&& final(emmc).inner == t.inner
                &&& cmd@ == t.cmd
            }),
            final(emmc).attributes == old(emmc).attributes,
            final(emmc).remove_status == old(emmc).remove_status,
            final(emmc).wf(),
    {
        match self.phase {
            Phase::Idle { next } => self.enter(emmc, next),
            Phase::CheckMount => match event {
                Event::MountTable(t) => {
                    let listed = match &t {
                        Some(text) => emmc_mounted_status(
                            text.as_str(),
                            emmc.attributes.emmc_devname.as_str(),
                            emmc.attributes.emmc_mntpoint.as_str(),
                        ),
                        None => false,
                    };
                    if listed {
                        self.enter(emmc, EmmcStateType::CheckDirs)
                    } else {
                        self.enter(emmc, EmmcStateType::MountRetry)
                    }
                },
                _ => self.pending_command(emmc),
            },
            Phase::CheckDirs => match event {
                Event::DirsCreated(ok) => if ok {
                    self.enter(emmc, EmmcStateType::UpdateInfo)
                } else {
                    self.enter(emmc, EmmcStateType::CheckDirs)
                },
                _ => self.pending_command(emmc),
            },
            Phase::UpdateInfo => match event {
                Event::FsStats(s) => {
                    let flag = emmc_update_info(emmc, s);
                    match flag {
                        Some(ro) => if needs_reclaim(&emmc.inner) {
                            self.phase = Phase::UpdateReclaim { read_only: ro };
                            Command::Reclaim(emmc.attributes.emmc_mntpoint.clone())
                        } else {
                            self.finish_update(emmc, flag)
                        },
                        None => self.finish_update(emmc, flag),
                    }
                },
                _ => self.pending_command(emmc),
            },
            Phase::UpdateReclaim { read_only } => match event {
                Event::Reclaimed => self.finish_update(emmc, Some(read_only)),
                _ => self.pending_command(emmc),
            },
            Phase::RetryPrepare => match event {
                Event::Prepared => if emmc.remount_fail_count >= REFORMAT_THRESHOLD {
                    self.phase = Phase::RetryRepair { reformat: true };
                    Command::Mkfs(emmc.attributes.emmc_devname.clone())
                } else {
                    self.phase = Phase::RetryRepair { reformat: false };
                    Command::Fsck(emmc.attributes.emmc_devname.clone())
                },
                _ => self.pending_command(emmc),
            },
            Phase::RetryRepair { reformat } => match event {
                Event::Exited(o) => {
                    let repaired = if reformat {
                        match o {
                            ProcessOutcome::Exited(code) => code == 0,
                            _ => false,
                        }
                    } else {
                        match o {
                            ProcessOutcome::Exited(code) => 0 <= code && code <= 2,
                            _ => false,
                        }
                    };
                    if repaired {
                        if reformat {
                            emmc.remount_fail_count = 0;
                        }
                        self.phase = Phase::RetryMount;
                        Command::Mount {
                            device: emmc.attributes.emmc_devname.clone(),
                            mount_point: emmc.attributes.emmc_mntpoint.clone(),
                        }
                    } else {
                        let counts = match o {
                            ProcessOutcome::Exited(code) => reformat || code >= 4,
                            ProcessOutcome::Killed => reformat,
                            ProcessOutcome::NotStarted => false,
                        };
                        self.fail(emmc, counts)
                    }
                },
                _ => self.pending_command(emmc),
            },
            Phase::RetryMount => match event {
                Event::Exited(o) => match o {
                    ProcessOutcome::Exited(code) => if code == 0 {
                        self.phase = Phase::RetrySettle;
                        Command::Pause(SETTLE_MS)
                    } else {
                        self.fail(emmc, true)
                    },
                    ProcessOutcome::Killed => self.fail(emmc, true),
                    ProcessOutcome::NotStarted => self.fail(emmc, false),
                },
                _ => self.pending_command(emmc),
            },
            Phase::RetrySettle => match event {
                Event::Paused => {
                    self.phase = Phase::RetryVerify;
                    Command::ProbeFs(emmc.attributes.emmc_mntpoint.clone())
                },
                _ => self.pending_command(emmc),
            },
            Phase::RetryVerify => match event {
                Event::FsStats(s) => {
                    let flag = emmc_update_info(emmc, s);
                    match flag {
                        Some(ro) => if needs_reclaim(&emmc.inner) {
                            self.phase = Phase::RetryReclaim { read_only: ro };
                            Command::Reclaim(emmc.attributes.emmc_mntpoint.clone())
                        } else {
                            self.finish_verify(emmc, flag)
                        },
                        None => self.finish_verify(emmc, flag),
                    }
                },
                _ => self.pending_command(emmc),
            },
            Phase::RetryReclaim { read_only } => match event {
                Event::Reclaimed => self.finish_verify(emmc, Some(read_only)),
                _ => self.pending_command(emmc),
            },
        }
    }

    fn finish_update(&mut self, emmc: &Emmc, flag: Option<bool>) -> (r: Command)
        ensures
            ({
                let t = after_update(flag, emmc.remount_fail_count, emmc.inner);
                &&& final(self).phase == t.phase
                &&& r@ == t.cmd
            }),
    {
        match flag {
            Some(false) => {
                self.phase = Phase::Idle { next: EmmcStateType::CheckMount };
                Command::Sleep(CHECK_INTERVAL_NORMAL)
            },
            _ => {
                self.phase = Phase::Idle { next: EmmcStateType::MountRetry };
                Command::Sleep(CHECK_INTERVAL_ERROR)
            },
        }
    }

    fn finish_verify(&mut self, emmc: &mut Emmc, flag: Option<bool>) -> (r: Command)
        requires
            old(emmc).wf(),
        ensures
            ({
                let t = after_verify(flag, *old(emmc), old(emmc).remount_fail_count, old(emmc).inner);
                &&& final(self).phase == t.phase
                &&& final(emmc).remount_fail_count == t.count
                &&& r@ == t.cmd
            }),
            final(emmc).inner == old(emmc).inner,
            final(emmc).attributes == old(emmc).attributes,
            final(emmc).remove_status == old(emmc).remove_status,
    {
        match flag {
            Some(false) => {
                emmc.remount_fail_count = 0;
                self.enter(emmc, EmmcStateType::CheckMount)
            },
            _ => self.fail(emmc, true),
        }
    }
}

} // verus!
