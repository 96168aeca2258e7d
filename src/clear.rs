//! Bulk clearing of recordings and events. `emmc_clear` checks the request
//! and raises the removal flag; the returned job then hands out one shell
//! removal or disk sync at a time, aggregates failures, and lowers the flag
//! when it reports the overall result.

use vstd::prelude::*;
use vstd::utf8::encode_utf8;
use crate::storage::{join_path, path_join, Emmc};

verus! {

/// Longest accepted removal path, in bytes.
pub const CLEAR_PATH_MAX: usize = 400;
/// Mode that runs recordings, events and event videos in turn.
pub const CLEAR_MODE_ALL: i32 = 3;

/// Why a clear request fails.
#[derive(Debug, Clone, Copy, PartialEq, Eq, Structural)]
pub enum ClearError {
    /// The mode is not one of 0 (recordings), 1 (event images), 2 (event
    /// videos), 3 (all three).
    ModeOutOfRange,
    /// The volume is not reported mounted.
    NotMounted,
    /// Some removal or sync failed, or a path was too long to remove.
    ClearFailed,
}

/// One piece of outside work of a clear job.
#[derive(Debug)]
pub enum ClearStep {
    /// Run `rm -rf` on this path pattern.
    Remove(String),
    /// Flush file-system buffers.
    Sync,
}

/// What a job asks for next.
#[derive(Debug)]
pub enum ClearCommand {
    Run(ClearStep),
    /// The job is over, with its overall result; the removal flag is down.
    Done(Result<(), ClearError>),
}

/// A clear step as plain values.
pub enum ClearStepView {
    Remove(Seq<char>),
    Sync,
}

impl View for ClearStep {
    type V = ClearStepView;

    open spec fn view(&self) -> ClearStepView {
        match self {
            ClearStep::Remove(p) => ClearStepView::Remove(p@),
            ClearStep::Sync => ClearStepView::Sync,
        }
    }
}

pub open spec fn step_views(s: Seq<ClearStep>) -> Seq<ClearStepView> {
    s.map_values(|c: ClearStep| c@)
}

/// Video segment patterns, at the base and one level down.
pub open spec fn video_patterns() -> Seq<Seq<char>> {
    seq!["*.h265"@, "*.h264"@, "*/*.h265"@, "*/*.h264"@]
}

/// Image patterns, at the base and one level down.
pub open spec fn image_patterns() -> Seq<Seq<char>> {
    seq!["*.jpeg"@, "*.jpg"@, "*/*.jpeg"@, "*/*.jpg"@]
}

/// A path short enough to hand to the shell.
pub open spec fn path_fits(p: Seq<char>) -> bool {
    encode_utf8(p).len() <= CLEAR_PATH_MAX
}

/// Removal steps for `base/pattern`, in pattern order, leaving out the paths
/// that do not fit.
pub open spec fn removals(base: Seq<char>, pats: Seq<Seq<char>>) -> Seq<ClearStepView>
    decreases pats.len(),
{
    if pats.len() == 0 {
        Seq::empty()
    } else {
        let rest = removals(base, pats.drop_last());
        let full = path_join(base, pats.last());
        if path_fits(full) {
            rest.push(ClearStepView::Remove(full))
        } else {
            rest
        }
    }
}

/// Some `base/pattern` is too long.
pub open spec fn any_too_long(base: Seq<char>, pats: Seq<Seq<char>>) -> bool {
    exists|i: int| 0 <= i < pats.len() && !path_fits(path_join(base, #[trigger] pats[i]))
}

/// Base directory of a single mode: recordings for 0, events otherwise.
pub open spec fn clear_base(e: Emmc, mode: int) -> Seq<char> {
    if mode == 0 {
        e.records_base()
    } else {
        e.events_path()
    }
}

/// Patterns of a single mode: images for 1, videos otherwise.
pub open spec fn clear_patterns(mode: int) -> Seq<Seq<char>> {
    if mode == 1 {
        image_patterns()
    } else {
        video_patterns()
    }
}

/// Steps of a single mode: its removals, then a sync.
pub open spec fn single_plan(e: Emmc, mode: int) -> Seq<ClearStepView> {
    removals(clear_base(e, mode), clear_patterns(mode)).push(ClearStepView::Sync)
}

pub open spec fn single_too_long(e: Emmc, mode: int) -> bool {
    any_too_long(clear_base(e, mode), clear_patterns(mode))
}

/// Steps of a mode; mode 3 runs modes 0, 1 and 2 in turn.
pub open spec fn clear_plan(e: Emmc, mode: int) -> Seq<ClearStepView> {
    if mode == 3 {
        single_plan(e, 0) + single_plan(e, 1) + single_plan(e, 2)
    } else {
        single_plan(e, mode)
    }
}

pub open spec fn clear_too_long(e: Emmc, mode: int) -> bool {
    if mode == 3 {
        single_too_long(e, 0) || single_too_long(e, 1) || single_too_long(e, 2)
    } else {
        single_too_long(e, mode)
    }
}

/// A clear job under way.
#[derive(Debug)]
pub struct ClearJob {
    /// All steps, in order.
    pub steps: Vec<ClearStep>,
    /// Steps handed out so far.
    pub cursor: usize,
    /// Some path was too long or some step failed.
    pub failed: bool,
}

fn push_removal(steps: &mut Vec<ClearStep>, too_long: &mut bool, base: &str, pat: &str)
    ensures
        ({
            let full = path_join(base@, pat@);
            &&& step_views(final(steps)@) == if path_fits(full) {
                step_views(old(steps)@).push(ClearStepView::Remove(full))
            } else {
                step_views(old(steps)@)
            }
            &&& *final(too_long) == (*old(too_long) || !path_fits(full))
        }),
{
    let full = join_path(base, pat);
    if full.as_str().as_bytes().len() > CLEAR_PATH_MAX {
        *too_long = true;
    } else {
        let ghost before = steps@;
        steps.push(ClearStep::Remove(full));
        assert(step_views(steps@) =~= step_views(before).push(ClearStepView::Remove(path_join(base@, pat@))));
    }
}

fn push_single(steps: &mut Vec<ClearStep>, too_long: &mut bool, emmc: &Emmc, mode: i32)
    requires
        0 <= mode <= 2,
        emmc.mounted(),
    ensures
        step_views(final(steps)@) == step_views(old(steps)@) + single_plan(*emmc, mode as int),
        *final(too_long) == (*old(too_long) || single_too_long(*emmc, mode as int)),
{
    let base = if mode == 0 {
        join_path(emmc.attributes.emmc_mntpoint.as_str(), emmc.attributes.emmc_recorddir.as_str())
    } else {
        join_path(emmc.attributes.emmc_mntpoint.as_str(), emmc.attributes.emmc_eventsdir.as_str())
    };
    let b = base.as_str();
    let ghost start = step_views(steps@);
    let ghost t0 = *too_long;
    let ghost pats = clear_patterns(mode as int);
    let patterns: Vec<&str> = if mode == 1 {
        vec!["*.jpeg", "*.jpg", "*/*.jpeg", "*/*.jpg"]
    } else {
        vec!["*.h265", "*.h264", "*/*.h265", "*/*.h264"]
    };
    assert(patterns@.map_values(|p: &str| p@) =~= pats);
    let mut k: usize = 0;
    while k < patterns.len()
        invariant
            b@ == base@,
            base@ == clear_base(*emmc, mode as int),
            patterns@.map_values(|p: &str| p@) == pats,
            pats.len() == 4,
            k <= patterns@.len(),
            step_views(steps@) == start + removals(base@, pats.subrange(0, k as int)),
            *too_long == (t0 || any_too_long(base@, pats.subrange(0, k as int))),
        decreases patterns@.len() - k,
    {
        let ghost sub = pats.subrange(0, k + 1);
        assert(sub.drop_last() =~= pats.subrange(0, k as int));
        assert(sub.last() == patterns@[k as int]@);
        push_removal(steps, too_long, b, patterns[k]);
        assert(any_too_long(base@, sub) == (any_too_long(base@, pats.subrange(0, k as int))
            || !path_fits(path_join(base@, sub.last())))) by {
            if !path_fits(path_join(base@, sub.last())) {
                assert(sub[k as int] == sub.last());
            }
            if any_too_long(base@, pats.subrange(0, k as int)) {
                let i = choose|i: int| 0 <= i < k && !path_fits(path_join(base@, #[trigger] pats.subrange(0, k as int)[i]));
                assert(sub[i] == pats.subrange(0, k as int)[i]);
            }
            if any_too_long(base@, sub) {
                let i = choose|i: int| 0 <= i < k + 1 && !path_fits(path_join(base@, #[trigger] sub[i]));
                if i < k {
                    assert(sub[i] == pats.subrange(0, k as int)[i]);
                }
            }
        }
        assert(start + removals(base@, sub) =~= if path_fits(path_join(base@, sub.last())) {
            (start + removals(base@, pats.subrange(0, k as int))).push(ClearStepView::Remove(path_join(base@, sub.last())))
        } else {
            start + removals(base@, pats.subrange(0, k as int))
        });
        k += 1;
    }
    assert(pats.subrange(0, 4) =~= pats);
    let ghost mid = steps@;
    steps.push(ClearStep::Sync);
    assert(step_views(steps@) =~= step_views(mid).push(ClearStepView::Sync));
}

/// Starts a clear of `mode`: refuses a mode outside 0..=3 and an unmounted
/// volume, leaving the record untouched; otherwise raises the removal flag
/// and returns the job with every step of the mode.
pub fn emmc_clear(emmc: &mut Emmc, mode: i32) -> (r: Result<ClearJob, ClearError>)
    ensures
        !(0 <= mode <= 3) ==> r == Err::<ClearJob, ClearError>(ClearError::ModeOutOfRange)
            && *final(emmc) == *old(emmc),
        0 <= mode <= 3 && !old(emmc).mounted() ==> r == Err::<ClearJob, ClearError>(
            ClearError::NotMounted,
        ) && *final(emmc) == *old(emmc),
        0 <= mode <= 3 && old(emmc).mounted() ==> {
            &&& r is Ok
            &&& step_views(r->Ok_0.steps@) == clear_plan(*old(emmc), mode as int)
            &&& r->Ok_0.cursor == 0
            &&& r->Ok_0.failed == clear_too_long(*old(emmc), mode as int)
            &&& final(emmc).remove_status
            &&& final(emmc).inner == old(emmc).inner
            &&& final(emmc).attributes == old(emmc).attributes
            &&& final(emmc).remount_fail_count == old(emmc).remount_fail_count
        },
{
    if mode < 0 || mode > CLEAR_MODE_ALL {
        return Err(ClearError::ModeOutOfRange);
    }
    if !emmc.inner.mount_status {
        return Err(ClearError::NotMounted);
    }
    let mut steps: Vec<ClearStep> = Vec::new();
    let mut too_long = false;
    assert(step_views(steps@) =~= Seq::<ClearStepView>::empty());
    if mode == CLEAR_MODE_ALL {
        push_single(&mut steps, &mut too_long, emmc, 0);
        push_single(&mut steps, &mut too_long, emmc, 1);
        push_single(&mut steps, &mut too_long, emmc, 2);
        assert(Seq::<ClearStepView>::empty() + single_plan(*emmc, 0) + single_plan(*emmc, 1) + single_plan(*emmc, 2)
            =~= clear_plan(*emmc, 3));
    } else {
        push_single(&mut steps, &mut too_long, emmc, mode);
        assert(Seq::<ClearStepView>::empty() + single_plan(*emmc, mode as int) =~= clear_plan(*emmc, mode as int));
    }
    emmc.remove_status = true;
    Ok(ClearJob { steps, cursor: 0, failed: too_long })
}

fn step_command(s: &ClearStep) -> (r: ClearStep)
    ensures
        r@ == s@,
{
    match s {
        ClearStep::Remove(p) => ClearStep::Remove(p.clone()),
        ClearStep::Sync => ClearStep::Sync,
    }
}

impl ClearJob {
    /// Records how the previously handed-out step went (`None` before the
    /// first step) and hands out the next one. After the last step it lowers
    /// the removal flag and reports the result: `ClearFailed` exactly when a
    /// path was too long or some step failed.
    pub fn next(&mut self, emmc: &mut Emmc, last_ok: Option<bool>) -> (cmd: ClearCommand)
        ensures
            final(self).failed == (old(self).failed || last_ok == Some(false)),
            step_views(final(self).steps@) == step_views(old(self).steps@),
            final(emmc).inner == old(emmc).inner,
            final(emmc).attributes == old(emmc).attributes,
            final(emmc).remount_fail_count == old(emmc).remount_fail_count,
            old(self).cursor < old(self).steps@.len() ==> {
                &&& cmd is Run
                &&& cmd->Run_0@ == step_views(old(self).steps@)[old(self).cursor as int]
                &&& final(self).cursor == old(self).cursor + 1
                &&& final(emmc).remove_status == old(emmc).remove_status
            },
            old(self).cursor >= old(self).steps@.len() ==> {
                &&& cmd is Done
                &&& cmd->Done_0 == if final(self).failed {
                    Err::<(), ClearError>(ClearError::ClearFailed)
                } else {
                    Ok(())
                }
                &&& final(self).cursor == old(self).cursor
                &&& !final(emmc).remove_status
            },
    {
        if let Some(false) = last_ok {
            self.failed = true;
        }
        if self.cursor < self.steps.len() {
            let c = step_command(&self.steps[self.cursor]);
            self.cursor += 1;
            ClearCommand::Run(c)
        } else {
            emmc.remove_status = false;
            if self.failed {
                ClearCommand::Done(Err(ClearError::ClearFailed))
            } else {
                ClearCommand::Done(Ok(()))
            }
        }
    }
}

} // verus!
