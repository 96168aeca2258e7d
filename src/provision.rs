//! Directory provisioning on the mounted volume: which directories must
//! exist, and which of them still have to be created.

use vstd::prelude::*;
use crate::storage::{join_path, path_join, Emmc, VIDEO_DEVICE_MAX_COUNT};

verus! {

/// The directories a mounted volume must hold, in creation order: events,
/// recordings, `log`, then one recording directory per channel.
pub open spec fn mount_dirs(e: Emmc) -> Seq<Seq<char>> {
    let mnt = e.attributes.emmc_mntpoint@;
    seq![
        path_join(mnt, e.attributes.emmc_eventsdir@),
        path_join(mnt, e.attributes.emmc_recorddir@),
        path_join(mnt, "log"@),
        e.channel_path(0),
        e.channel_path(1),
        e.channel_path(2),
        e.channel_path(3),
    ]
}

pub open spec fn texts(v: Seq<String>) -> Seq<Seq<char>> {
    v.map_values(|s: String| s@)
}

/// The directories that provisioning ensures, in order.
pub fn emmc_create_mount_dirs(emmc: &Emmc) -> (r: Vec<String>)
    requires
        emmc.wf(),
    ensures
        texts(r@) == mount_dirs(*emmc),
{
    let mnt = emmc.attributes.emmc_mntpoint.as_str();
    let mut dirs: Vec<String> = Vec::new();
    dirs.push(join_path(mnt, emmc.attributes.emmc_eventsdir.as_str()));
    dirs.push(join_path(mnt, emmc.attributes.emmc_recorddir.as_str()));
    dirs.push(join_path(mnt, "log"));
    let base = join_path(mnt, emmc.attributes.emmc_recorddir.as_str());
    let mut chn: usize = 0;
    while chn < VIDEO_DEVICE_MAX_COUNT
        invariant
            emmc.wf(),
            chn <= VIDEO_DEVICE_MAX_COUNT,
            base@ == emmc.records_base(),
            dirs@.len() == 3 + chn,
            texts(dirs@) == mount_dirs(*emmc).subrange(0, 3 + chn),
        decreases VIDEO_DEVICE_MAX_COUNT - chn,
    {
        let ghost before = dirs@;
        dirs.push(join_path(base.as_str(), emmc.attributes.video_device_dir[chn].as_str()));
        assert(texts(dirs@) =~= texts(before).push(emmc.channel_path(chn as int)));
        assert(mount_dirs(*emmc).subrange(0, 3 + chn + 1) =~= mount_dirs(*emmc).subrange(0, 3 + chn).push(
            emmc.channel_path(chn as int),
        ));
        chn += 1;
    }
    assert(mount_dirs(*emmc).subrange(0, 7) =~= mount_dirs(*emmc));
    dirs
}

/// The entries of `dirs` that are not in `present`, in order.
pub open spec fn missing_dirs(present: Set<Seq<char>>, dirs: Seq<Seq<char>>) -> Seq<Seq<char>>
    decreases dirs.len(),
{
    if dirs.len() == 0 {
        Seq::empty()
    } else {
        let rest = missing_dirs(present, dirs.drop_last());
        if present.contains(dirs.last()) {
            rest
        } else {
            rest.push(dirs.last())
        }
    }
}

/// The directories that exist once provisioning has created what was missing.
pub open spec fn after_provision(present: Set<Seq<char>>, dirs: Seq<Seq<char>>) -> Set<Seq<char>> {
    present + dirs.to_set()
}

/// The entries of `dirs` whose flag in `exists` is false, in order.
pub open spec fn unflagged(dirs: Seq<Seq<char>>, exists: Seq<bool>) -> Seq<Seq<char>>
    decreases dirs.len(),
{
    if dirs.len() == 0 {
        Seq::empty()
    } else {
        let rest = unflagged(dirs.drop_last(), exists);
        if exists[dirs.len() - 1] {
            rest
        } else {
            rest.push(dirs.last())
        }
    }
}

/// Create-if-absent: of the required directories, those whose `exists` flag
/// is false, in order. When the flags are read off a set of existing
/// directories, these are the ones missing from it.
pub fn dirs_to_create(dirs: &Vec<String>, exists: &Vec<bool>) -> (r: Vec<String>)
    requires
        exists@.len() == dirs@.len(),
    ensures
        texts(r@) == unflagged(texts(dirs@), exists@),
        forall|present: Set<Seq<char>>|
            (forall|i: int| 0 <= i < dirs@.len() ==> #[trigger] exists@[i] == present.contains(dirs@[i]@))
                ==> texts(r@) == #[trigger] missing_dirs(present, texts(dirs@)),
{
    let mut r: Vec<String> = Vec::new();
    let mut i: usize = 0;
    while i < dirs.len()
        invariant
            i <= dirs@.len(),
            exists@.len() == dirs@.len(),
            texts(r@) == unflagged(texts(dirs@).subrange(0, i as int), exists@),
            forall|present: Set<Seq<char>>|
                (forall|k: int| 0 <= k < dirs@.len() ==> #[trigger] exists@[k] == present.contains(dirs@[k]@))
                    ==> texts(r@) == #[trigger] missing_dirs(present, texts(dirs@).subrange(0, i as int)),
        decreases dirs@.len() - i,
    {
        let ghost before = r@;
        if !exists[i] {
            r.push(dirs[i].clone());
        }
        proof {
            let s = texts(dirs@).subrange(0, i + 1);
            assert(s.drop_last() =~= texts(dirs@).subrange(0, i as int));
            if !exists@[i as int] {
                assert(texts(r@) =~= texts(before).push(dirs@[i as int]@));
            } else {
                assert(texts(r@) =~= texts(before));
            }
        }
        assert forall|present: Set<Seq<char>>|
            (forall|k: int| 0 <= k < dirs@.len() ==> #[trigger] exists@[k] == present.contains(dirs@[k]@))
                implies texts(r@) == #[trigger] missing_dirs(present, texts(dirs@).subrange(0, i + 1)) by {
            let s = texts(dirs@).subrange(0, i + 1);
            assert(s.drop_last() =~= texts(dirs@).subrange(0, i as int));
            assert(s.last() == dirs@[i as int]@);
            assert(exists@[i as int] == present.contains(dirs@[i as int]@));
            assert(texts(before) == missing_dirs(present, texts(dirs@).subrange(0, i as int)));
            assert(missing_dirs(present, s) == if present.contains(s.last()) {
                missing_dirs(present, s.drop_last())
            } else {
                missing_dirs(present, s.drop_last()).push(s.last())
            });
            if !exists@[i as int] {
                assert(texts(r@) =~= texts(before).push(dirs@[i as int]@));
            } else {
                assert(texts(r@) =~= texts(before));
            }
        }
        i += 1;
    }
    assert(texts(dirs@).subrange(0, dirs@.len() as int) =~= texts(dirs@));
    r
}

proof fn lemma_missing_none(present: Set<Seq<char>>, dirs: Seq<Seq<char>>)
    requires
        forall|i: int| 0 <= i < dirs.len() ==> present.contains(#[trigger] dirs[i]),
    ensures
        missing_dirs(present, dirs).len() == 0,
    decreases dirs.len(),
{
    if dirs.len() > 0 {
        lemma_missing_none(present, dirs.drop_last());
        assert(present.contains(dirs[dirs.len() - 1]));
    }
}

/// Provisioning is idempotent: once it has run, running it again finds
/// nothing missing, so it creates nothing and leaves the directories as
/// they are.
pub proof fn lemma_provision_idempotent(present: Set<Seq<char>>, dirs: Seq<Seq<char>>)
    ensures
        missing_dirs(after_provision(present, dirs), dirs).len() == 0,
        after_provision(after_provision(present, dirs), dirs) == after_provision(present, dirs),
{
    let once = after_provision(present, dirs);
    assert forall|i: int| 0 <= i < dirs.len() implies once.contains(#[trigger] dirs[i]) by {
        assert(dirs.to_set().contains(dirs[i]));
    }
    lemma_missing_none(once, dirs);
    assert(after_provision(once, dirs) =~= once);
}

} // verus!
