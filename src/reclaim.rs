//! Space reclamation (which single file goes) and the count of remaining
//! media files. The directory walks that produce the listings are done by the
//! caller; these functions decide over what the walk found.

use vstd::prelude::*;

verus! {

/// A regular file met during a walk, in traversal order.
#[derive(Debug, Clone)]
pub struct FileEntry {
    pub path: String,
    /// Modification time, in nanoseconds relative to the Unix epoch.
    pub modified_ns: i128,
}

/// `i` is the victim of a reclamation pass over `files`: strictly older than
/// every file listed before it, and no newer than any file listed after it.
pub open spec fn is_oldest(files: Seq<FileEntry>, i: int) -> bool {
    &&& 0 <= i < files.len()
    &&& forall|j: int| 0 <= j < i ==> files[i].modified_ns < #[trigger] files[j].modified_ns
    &&& forall|j: int| i < j < files.len() ==> files[i].modified_ns <= #[trigger] files[j].modified_ns
}

/// Picks the single file that a reclamation pass deletes: the oldest by
/// modification time over the whole listing, the first one listed among
/// equals; `None` when the listing is empty.
pub fn select_oldest_file(files: &Vec<FileEntry>) -> (r: Option<usize>)
    ensures
        r is None <==> files@.len() == 0,
        r is Some ==> is_oldest(files@, r->0 as int),
{
    if files.len() == 0 {
        return None;
    }
    let mut best: usize = 0;
    let mut i: usize = 1;
    while i < files.len()
        invariant
            1 <= i <= files@.len(),
            best < i,
            forall|j: int| 0 <= j < best ==> files@[best as int].modified_ns < #[trigger] files@[j].modified_ns,
            forall|j: int| best < j < i ==> files@[best as int].modified_ns <= #[trigger] files@[j].modified_ns,
        decreases files@.len() - i,
    {
        if files[i].modified_ns < files[best].modified_ns {
            best = i;
        }
        i += 1;
    }
    Some(best)
}

/// `name` ends in `dotext` with at least one character before it.
pub open spec fn has_extension(name: Seq<char>, dotext: Seq<char>) -> bool {
    &&& name.len() > dotext.len()
    &&& name.subrange(name.len() - dotext.len(), name.len() as int) == dotext
}

/// A recording or event file: extension `h264`, `h265`, `jpg` or `jpeg`.
pub open spec fn is_media_name(name: Seq<char>) -> bool {
    has_extension(name, ".h264"@) || has_extension(name, ".h265"@) || has_extension(name, ".jpg"@)
        || has_extension(name, ".jpeg"@)
}

fn ends_with_extension(name: &str, dotext: &str) -> (r: bool)
    ensures
        r == has_extension(name@, dotext@),
{
    let n = name.unicode_len();
    let m = dotext.unicode_len();
    if n <= m {
        return false;
    }
    let start = n - m;
    let mut k: usize = 0;
    while k < m
        invariant
            n == name@.len(),
            m == dotext@.len(),
            start == n - m,
            k <= m,
            forall|j: int| 0 <= j < k ==> name@[start + j] == dotext@[j],
        decreases m - k,
    {
        if name.get_char(start + k) != dotext.get_char(k) {
            assert(name@.subrange(start as int, n as int)[k as int] != dotext@[k as int]);
            return false;
        }
        k += 1;
    }
    assert(name@.subrange(start as int, n as int) =~= dotext@);
    true
}

/// Whether a file of this name counts as a remaining media file.
pub fn is_media_file(name: &str) -> (r: bool)
    ensures
        r == is_media_name(name@),
{
    ends_with_extension(name, ".h264") || ends_with_extension(name, ".h265")
        || ends_with_extension(name, ".jpg") || ends_with_extension(name, ".jpeg")
}

/// How many of the first `n` names are media file names.
pub open spec fn media_count(names: Seq<String>, n: int) -> nat
    decreases n,
{
    if n <= 0 {
        0
    } else {
        media_count(names, n - 1) + if is_media_name(names[n - 1]@) {
            1nat
        } else {
            0nat
        }
    }
}

/// Number of remaining recording and event files among the names of the
/// regular files found under the events path.
pub fn emmc_get_remainfile_count(file_names: &Vec<String>) -> (r: u64)
    ensures
        r == media_count(file_names@, file_names@.len() as int),
{
    let mut count: u64 = 0;
    let mut i: usize = 0;
    while i < file_names.len()
        invariant
            i <= file_names@.len(),
            count == media_count(file_names@, i as int),
            count <= i,
        decreases file_names@.len() - i,
    {
        if is_media_file(file_names[i].as_str()) {
            count += 1;
        }
        i += 1;
    }
    count
}

} // verus!
