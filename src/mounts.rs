//! Reading the kernel's mount table (the text of `/proc/mounts`): is a given
//! device mounted at a given mount point?

use vstd::prelude::*;

verus! {

/// White space as `char::is_whitespace` defines it (the Unicode
/// `White_Space` property).
pub open spec fn is_white(c: char) -> bool {
    let u = c as u32;
    ||| 0x09 <= u <= 0x0D
    ||| u == 0x20
    ||| u == 0x85
    ||| u == 0xA0
    ||| u == 0x1680
    ||| 0x2000 <= u <= 0x200A
    ||| u == 0x2028
    ||| u == 0x2029
    ||| u == 0x202F
    ||| u == 0x205F
    ||| u == 0x3000
}

/// `t` without its leading white space.
pub open spec fn skip_white(t: Seq<char>) -> Seq<char>
    decreases t.len(),
{
    if t.len() > 0 && is_white(t[0]) {
        skip_white(t.drop_first())
    } else {
        t
    }
}

/// The run of non-white characters that `t` starts with.
pub open spec fn take_word(t: Seq<char>) -> Seq<char>
    decreases t.len(),
{
    if t.len() > 0 && !is_white(t[0]) {
        seq![t[0]] + take_word(t.drop_first())
    } else {
        Seq::empty()
    }
}

/// What follows the run of non-white characters that `t` starts with.
pub open spec fn drop_word(t: Seq<char>) -> Seq<char>
    decreases t.len(),
{
    if t.len() > 0 && !is_white(t[0]) {
        drop_word(t.drop_first())
    } else {
        t
    }
}

/// The first line of `t`, without its line feed.
pub open spec fn take_line(t: Seq<char>) -> Seq<char>
    decreases t.len(),
{
    if t.len() > 0 && t[0] != '\n' {
        seq![t[0]] + take_line(t.drop_first())
    } else {
        Seq::empty()
    }
}

/// What follows the first line feed of `t` (nothing when there is none).
pub open spec fn drop_line(t: Seq<char>) -> Seq<char>
    decreases t.len(),
{
    if t.len() == 0 {
        t
    } else if t[0] == '\n' {
        t.drop_first()
    } else {
        drop_line(t.drop_first())
    }
}

/// Dropping the first line of a non-empty text shortens it.
pub proof fn lemma_drop_line_shorter(t: Seq<char>)
    requires
        t.len() > 0,
    ensures
        drop_line(t).len() < t.len(),
    decreases t.len(),
{
    if t[0] != '\n' {
        if t.len() > 1 {
            lemma_drop_line_shorter(t.drop_first());
        } else {
            assert(drop_line(t.drop_first()).len() == 0);
        }
    }
}

/// A mount-table line whose first field is `dev` and whose second is `mnt`.
pub open spec fn line_matches(line: Seq<char>, dev: Seq<char>, mnt: Seq<char>) -> bool {
    let first = take_word(skip_white(line));
    let second = take_word(skip_white(drop_word(skip_white(line))));
    &&& first.len() > 0
    &&& second.len() > 0
    &&& first == dev
    &&& second == mnt
}

/// Some line of `table` lists device `dev` mounted at `mnt`.
pub open spec fn mount_listed(table: Seq<char>, dev: Seq<char>, mnt: Seq<char>) -> bool
    decreases table.len(),
{
    if table.len() == 0 {
        false
    } else {
        proof {
            lemma_drop_line_shorter(table);
        }
        line_matches(take_line(table), dev, mnt) || mount_listed(drop_line(table), dev, mnt)
    }
}

fn is_white_char(c: char) -> (r: bool)
    ensures
        r == is_white(c),
{
    let u = c as u32;
    (0x09 <= u && u <= 0x0D) || u == 0x20 || u == 0x85 || u == 0xA0 || u == 0x1680 || (0x2000 <= u
        && u <= 0x200A) || u == 0x2028 || u == 0x2029 || u == 0x202F || u == 0x205F || u == 0x3000
}

/// First position at or after `pos` that is not white space.
fn skip_white_at(t: &str, pos: usize) -> (r: usize)
    requires
        pos <= t@.len(),
    ensures
        pos <= r <= t@.len(),
        t@.subrange(r as int, t@.len() as int) == skip_white(t@.subrange(pos as int, t@.len() as int)),
{
    let n = t.unicode_len();
    let mut r = pos;
    while r < n && is_white_char(t.get_char(r))
        invariant
            n == t@.len(),
            pos <= r <= n,
            skip_white(t@.subrange(r as int, n as int)) == skip_white(t@.subrange(pos as int, n as int)),
        decreases n - r,
    {
        assert(t@.subrange(r as int, n as int).drop_first() =~= t@.subrange(r + 1, n as int));
        r += 1;
    }
    r
}

/// End of the word that starts at `pos`.
fn word_end_at(t: &str, pos: usize) -> (r: usize)
    requires
        pos <= t@.len(),
    ensures
        pos <= r <= t@.len(),
        t@.subrange(pos as int, r as int) == take_word(t@.subrange(pos as int, t@.len() as int)),
        t@.subrange(r as int, t@.len() as int) == drop_word(t@.subrange(pos as int, t@.len() as int)),
{
    let n = t.unicode_len();
    let mut r = pos;
    assert(t@.subrange(pos as int, pos as int) =~= Seq::<char>::empty());
    while r < n && !is_white_char(t.get_char(r))
        invariant
            n == t@.len(),
            pos <= r <= n,
            take_word(t@.subrange(pos as int, n as int)) == t@.subrange(pos as int, r as int)
                + take_word(t@.subrange(r as int, n as int)),
            drop_word(t@.subrange(pos as int, n as int)) == drop_word(t@.subrange(r as int, n as int)),
        decreases n - r,
    {
        assert(t@.subrange(r as int, n as int).drop_first() =~= t@.subrange(r + 1, n as int));
        assert(t@.subrange(pos as int, r as int) + seq![t@[r as int]] =~= t@.subrange(pos as int, r + 1));
        r += 1;
    }
    assert(t@.subrange(pos as int, r as int) + Seq::<char>::empty() =~= t@.subrange(pos as int, r as int));
    r
}

/// End of the line that starts at `pos` (the position of its line feed, or
/// the end of the text).
fn line_end_at(t: &str, pos: usize) -> (r: usize)
    requires
        pos <= t@.len(),
    ensures
        pos <= r <= t@.len(),
        t@.subrange(pos as int, r as int) == take_line(t@.subrange(pos as int, t@.len() as int)),
        r == t@.len() ==> drop_line(t@.subrange(pos as int, t@.len() as int)).len() == 0,
        r < t@.len() ==> drop_line(t@.subrange(pos as int, t@.len() as int)) == t@.subrange(
            r + 1,
            t@.len() as int,
        ),
{
    let n = t.unicode_len();
    let mut r = pos;
    assert(t@.subrange(pos as int, pos as int) =~= Seq::<char>::empty());
    while r < n && t.get_char(r) != '\n'
        invariant
            n == t@.len(),
            pos <= r <= n,
            take_line(t@.subrange(pos as int, n as int)) == t@.subrange(pos as int, r as int)
                + take_line(t@.subrange(r as int, n as int)),
            drop_line(t@.subrange(pos as int, n as int)) == drop_line(t@.subrange(r as int, n as int)),
        decreases n - r,
    {
        assert(t@.subrange(r as int, n as int).drop_first() =~= t@.subrange(r + 1, n as int));
        assert(t@.subrange(pos as int, r as int) + seq![t@[r as int]] =~= t@.subrange(pos as int, r + 1));
        r += 1;
    }
    assert(t@.subrange(pos as int, r as int) + Seq::<char>::empty() =~= t@.subrange(pos as int, r as int));
    if r < n {
        assert(t@.subrange(r as int, n as int).drop_first() =~= t@.subrange(r + 1, n as int));
    }
    r
}

fn same_text(a: &str, b: &str) -> (r: bool)
    ensures
        r == (a@ == b@),
{
    a.to_owned() == b.to_owned()
}

/// Whether one mount-table line lists `dev` mounted at `mnt`.
pub fn line_lists_mount(line: &str, dev: &str, mnt: &str) -> (r: bool)
    ensures
        r == line_matches(line@, dev@, mnt@),
{
    let n = line.unicode_len();
    assert(line@.subrange(0, n as int) =~= line@);
    let a = skip_white_at(line, 0);
    let b = word_end_at(line, a);
    let c = skip_white_at(line, b);
    let d = word_end_at(line, c);
    if a == b || c == d {
        return false;
    }
    let first = line.substring_char(a, b);
    let second = line.substring_char(c, d);
    same_text(first, dev) && same_text(second, mnt)
}

/// Whether the mount table lists device `device` mounted at `mount_point`:
/// some line has exactly these as its first two white-space separated fields.
pub fn emmc_mounted_status(table: &str, device: &str, mount_point: &str) -> (r: bool)
    ensures
        r == mount_listed(table@, device@, mount_point@),
{
    let n = table.unicode_len();
    let mut pos: usize = 0;
    assert(table@.subrange(0, n as int) =~= table@);
    while pos < n
        invariant
            n == table@.len(),
            pos <= n,
            mount_listed(table@, device@, mount_point@) == mount_listed(
                table@.subrange(pos as int, n as int),
                device@,
                mount_point@,
            ),
        decreases n - pos,
    {
        let e = line_end_at(table, pos);
        let line = table.substring_char(pos, e);
        if line_lists_mount(line, device, mount_point) {
            return true;
        }
        if e == n {
            let ghost rest = drop_line(table@.subrange(pos as int, n as int));
            assert(!mount_listed(rest, device@, mount_point@));
            return false;
        }
        pos = e + 1;
    }
    false
}

} // verus!
