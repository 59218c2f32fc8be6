use vstd::prelude::*;
use vstd::string::*;
use crate::clock::{LocalTime, read_local_time};

verus! {

/// The character of a decimal digit.
pub open spec fn digit_char(d: nat) -> char {
    if d == 0 { '0' }
    else if d == 1 { '1' }
    else if d == 2 { '2' }
    else if d == 3 { '3' }
    else if d == 4 { '4' }
    else if d == 5 { '5' }
    else if d == 6 { '6' }
    else if d == 7 { '7' }
    else if d == 8 { '8' }
    else { '9' }
}

/// The decimal digits of `n`, most significant first, without leading zeros.
pub open spec fn decimal(n: nat) -> Seq<char>
    decreases n,
{
    if n < 10 {
        seq![digit_char(n)]
    } else {
        decimal(n / 10).push(digit_char(n % 10))
    }
}

/// `n` in decimal, padded on the left with zeros to at least `width` characters.
pub open spec fn zero_padded(n: nat, width: nat) -> Seq<char> {
    let d = decimal(n);
    if d.len() >= width {
        d
    } else {
        Seq::new((width - d.len()) as nat, |_i: int| '0') + d
    }
}

/// A year as `%Y` writes it: four digits for 0 to 9999, otherwise a sign
/// followed by at least four digits.
pub open spec fn year_text(y: int) -> Seq<char> {
    if 0 <= y <= 9999 {
        zero_padded(y as nat, 4)
    } else if y < 0 {
        seq!['-'] + zero_padded((-y) as nat, 4)
    } else {
        seq!['+'] + zero_padded(y as nat, 4)
    }
}

/// Appending a component to a path: an absolute component replaces the path;
/// otherwise a separator goes in between unless the path is empty or already
/// ends with one.
pub open spec fn join(base: Seq<char>, comp: Seq<char>) -> Seq<char> {
    if comp.len() > 0 && comp[0] == '/' {
        comp
    } else if base.len() == 0 || base.last() == '/' {
        base + comp
    } else {
        base + seq!['/'] + comp
    }
}

/// `<root>/<name>/<YYYY>/<MM>/<DD>`.
pub open spec fn backup_dir(root: Seq<char>, name: Seq<char>, t: LocalTime) -> Seq<char> {
    join(
        join(join(join(root, name), year_text(t.year as int)), zero_padded(t.month as nat, 2)),
        zero_padded(t.day as nat, 2),
    )
}

/// `<name>_<HH>-<MM>.tar`.
pub open spec fn archive_file_name(name: Seq<char>, t: LocalTime) -> Seq<char> {
    name + seq!['_'] + zero_padded(t.hour as nat, 2) + seq!['-'] + zero_padded(t.minute as nat, 2)
        + seq!['.', 't', 'a', 'r']
}

/// The archive's full path inside the day's directory.
pub open spec fn archive_path(root: Seq<char>, name: Seq<char>, t: LocalTime) -> Seq<char> {
    join(backup_dir(root, name, t), archive_file_name(name, t))
}

/// Where one backup goes: the directory that must exist, and the archive file in it.
#[derive(Clone, Debug)]
pub struct BackupPlan {
    pub directory: String,
    pub archive: String,
}

impl BackupPlan {
    /// The plan for `(root, name, t)`.
    pub open spec fn is_plan_for(&self, root: Seq<char>, name: Seq<char>, t: LocalTime) -> bool {
        &&& self.directory@ == backup_dir(root, name, t)
        &&& self.archive@ == archive_path(root, name, t)
    }
}

fn digit_str(d: u64) -> (r: &'static str)
    requires
        d < 10,
    ensures
        r@ == seq![digit_char(d as nat)],
{
    proof {
        reveal_strlit("0");
        reveal_strlit("1");
        reveal_strlit("2");
        reveal_strlit("3");
        reveal_strlit("4");
        reveal_strlit("5");
        reveal_strlit("6");
        reveal_strlit("7");
        reveal_strlit("8");
        reveal_strlit("9");
    }
    if d == 0 { "0" }
    else if d == 1 { "1" }
    else if d == 2 { "2" }
    else if d == 3 { "3" }
    else if d == 4 { "4" }
    else if d == 5 { "5" }
    else if d == 6 { "6" }
    else if d == 7 { "7" }
    else if d == 8 { "8" }
    else { "9" }
}

fn push_decimal(out: &mut String, n: u64)
    ensures
        final(out)@ == old(out)@ + decimal(n as nat),
    decreases n,
{
    if n >= 10 {
        push_decimal(out, n / 10);
    }
    out.append(digit_str(n % 10));
    proof {
        if n >= 10 {
            assert(decimal(n as nat) == decimal((n / 10) as nat).push(digit_char((n % 10) as nat)));
        }
    }
    assert(final(out)@ =~= old(out)@ + decimal(n as nat));
}

fn decimal_len(n: u64) -> (r: u64)
    ensures
        r as nat == decimal(n as nat).len(),
        r <= n as nat + 1,
    decreases n,
{
    if n < 10 {
        1
    } else {
        1 + decimal_len(n / 10)
    }
}

/// Appends `n` zero-padded to `width`.
fn push_padded(out: &mut String, n: u64, width: u64)
    ensures
        final(out)@ == old(out)@ + zero_padded(n as nat, width as nat),
{
    let len = decimal_len(n);
    let ghost start = out@;
    if len < width {
        let mut i: u64 = len;
        while i < width
            invariant
                len <= i <= width,
                out@ == start + Seq::new((i - len) as nat, |_j: int| '0'),
            decreases width - i,
        {
            proof { reveal_strlit("0"); }
            out.append("0");
            assert(out@ =~= start + Seq::new((i + 1 - len) as nat, |_j: int| '0'));
            i = i + 1;
        }
    }
    push_decimal(out, n);
    assert(out@ =~= start + zero_padded(n as nat, width as nat));
}

fn push_year(out: &mut String, y: i32)
    ensures
        final(out)@ == old(out)@ + year_text(y as int),
{
    let ghost start = out@;
    if 0 <= y && y <= 9999 {
        push_padded(out, y as u64, 4);
    } else if y < 0 {
        proof { reveal_strlit("-"); }
        out.append("-");
        let m: i64 = -(y as i64);
        push_padded(out, m as u64, 4);
    } else {
        proof { reveal_strlit("+"); }
        out.append("+");
        push_padded(out, y as u64, 4);
    }
    assert(out@ =~= start + year_text(y as int));
}

/// Appends a path component as `join` does.
fn push_component(path: &mut String, comp: &str)
    ensures
        final(path)@ == join(old(path)@, comp@),
{
    let clen = comp.unicode_len();
    if clen > 0 && comp.get_char(0) == '/' {
        *path = String::from_str(comp);
    } else {
        let plen = path.as_str().unicode_len();
        if plen == 0 || path.as_str().get_char(plen - 1) == '/' {
            path.append(comp);
        } else {
            proof { reveal_strlit("/"); }
            path.append("/");
            path.append(comp);
            assert(path@ =~= join(old(path)@, comp@));
        }
    }
}

/// Computes the directory `<root>/<name>/<YYYY>/<MM>/<DD>` and the archive
/// path `<directory>/<name>_<HH>-<MM>.tar` for a backup taken at `t`.
pub fn plan_backup(destination_root: &str, backup_name: &str, t: &LocalTime) -> (r: BackupPlan)
    ensures
        r.is_plan_for(destination_root@, backup_name@, *t),
{
    let mut dir = String::from_str(destination_root);
    push_component(&mut dir, backup_name);
    let mut year = String::new();
    push_year(&mut year, t.year);
    push_component(&mut dir, year.as_str());
    let mut month = String::new();
    push_padded(&mut month, t.month as u64, 2);
    push_component(&mut dir, month.as_str());
    let mut day = String::new();
    push_padded(&mut day, t.day as u64, 2);
    push_component(&mut dir, day.as_str());

    let mut file = String::from_str(backup_name);
    proof {
        reveal_strlit("_");
        reveal_strlit("-");
        reveal_strlit(".tar");
    }
    file.append("_");
    push_padded(&mut file, t.hour as u64, 2);
    file.append("-");
    push_padded(&mut file, t.minute as u64, 2);
    file.append(".tar");
    assert(file@ =~= archive_file_name(backup_name@, *t));

    let mut archive = dir.clone();
    push_component(&mut archive, file.as_str());
    BackupPlan { directory: dir, archive }
}

/// Reads the local clock once and plans the backup for that reading: the
/// directory and the archive path always come from the same instant.
pub fn plan_backup_now(destination_root: &str, backup_name: &str) -> (r: (LocalTime, BackupPlan))
    ensures
        r.0.wf(),
        r.1.is_plan_for(destination_root@, backup_name@, r.0),
{
    let t = read_local_time();
    let plan = plan_backup(destination_root, backup_name, &t);
    (t, plan)
}

/// Planning twice with the same root, name and instant yields the same
/// directory and the same archive path, and the archive lies in that
/// directory.
pub proof fn lemma_plan_idempotent(
    root: Seq<char>,
    name: Seq<char>,
    t: LocalTime,
    first: BackupPlan,
    second: BackupPlan,
)
    requires
        first.is_plan_for(root, name, t),
        second.is_plan_for(root, name, t),
    ensures
        first.directory@ == second.directory@,
        first.archive@ == second.archive@,
        second.archive@ == join(second.directory@, archive_file_name(name, t)),
{
}

} // verus!
