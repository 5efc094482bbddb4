use vstd::prelude::*;

verus! {

/// `c` has the Unicode `White_Space` property, as `char::is_whitespace`
/// tests it.
pub open spec fn is_space(c: char) -> bool {
    ||| ('\u{9}' <= c && c <= '\u{D}')
    ||| c == ' '
    ||| c == '\u{85}'
    ||| c == '\u{A0}'
    ||| c == '\u{1680}'
    ||| ('\u{2000}' <= c && c <= '\u{200A}')
    ||| c == '\u{2028}'
    ||| c == '\u{2029}'
    ||| c == '\u{202F}'
    ||| c == '\u{205F}'
    ||| c == '\u{3000}'
}

pub open spec fn trim_start(s: Seq<char>) -> Seq<char>
    decreases s.len(),
{
    if s.len() > 0 && is_space(s[0]) {
        trim_start(s.drop_first())
    } else {
        s
    }
}

pub open spec fn trim_end(s: Seq<char>) -> Seq<char>
    decreases s.len(),
{
    if s.len() > 0 && is_space(s.last()) {
        trim_end(s.drop_last())
    } else {
        s
    }
}

/// `s` without white space at either end, as `str::trim` gives it.
pub open spec fn trim(s: Seq<char>) -> Seq<char> {
    trim_end(trim_start(s))
}

pub open spec fn is_digit(c: char) -> bool {
    '0' <= c && c <= '9'
}

pub open spec fn all_digits(s: Seq<char>) -> bool {
    forall|i: int| 0 <= i < s.len() ==> is_digit(#[trigger] s[i])
}

/// The number that a string of decimal digits stands for.
pub open spec fn digits_value(s: Seq<char>) -> nat
    decreases s.len(),
{
    if s.len() == 0 {
        0
    } else {
        digits_value(s.drop_last()) * 10 + (s.last() as int - '0' as int) as nat
    }
}

/// The digits of an unsigned number: one leading `+` is allowed.
pub open spec fn unsigned_body(s: Seq<char>) -> Seq<char> {
    if s.len() > 0 && s[0] == '+' {
        s.drop_first()
    } else {
        s
    }
}

/// What `str::parse::<u64>` gives for `s`: the number, where `s` is an
/// optional `+` and at least one decimal digit and the number fits in 64 bits.
pub open spec fn parse_u64(s: Seq<char>) -> Option<u64> {
    let b = unsigned_body(s);
    if b.len() == 0 || !all_digits(b) || digits_value(b) > u64::MAX {
        None
    } else {
        Some(digits_value(b) as u64)
    }
}

/// The lines of `text` read so far after its first `i` characters: the
/// lines completed by a line break, and the line being read.
pub open spec fn split_state(text: Seq<char>, i: nat) -> (Seq<Seq<char>>, Seq<char>)
    decreases i,
{
    if i == 0 {
        (Seq::empty(), Seq::empty())
    } else {
        let (lines, cur) = split_state(text, (i - 1) as nat);
        if text[i - 1] == '\n' {
            (lines.push(cur), Seq::empty())
        } else {
            (lines, cur.push(text[i - 1]))
        }
    }
}

/// The lines of `text`: split at line breaks, with no empty line after a
/// final line break.  Unlike `BufRead::lines`, a carriage return before a
/// line break stays at the end of its line; the numbers are read after
/// trimming, which removes it, so the counts come out the same.
pub open spec fn lines_of(text: Seq<char>) -> Seq<Seq<char>> {
    let (lines, cur) = split_state(text, text.len());
    if cur.len() > 0 {
        lines.push(cur)
    } else {
        lines
    }
}

pub open spec fn voluntary_key() -> Seq<char> {
    "voluntary_ctxt_switches:"@
}

pub open spec fn nonvoluntary_key() -> Seq<char> {
    "nonvoluntary_ctxt_switches:"@
}

pub open spec fn starts_with(s: Seq<char>, p: Seq<char>) -> bool {
    p.len() <= s.len() && s.take(p.len() as int) == p
}

/// The value after `key` on a line: its number, or zero where it is none.
pub open spec fn field_value(line: Seq<char>, key: Seq<char>) -> u64 {
    match parse_u64(trim(line.skip(key.len() as int))) {
        Some(v) => v,
        None => 0,
    }
}

/// The state of the scan after `k` lines: the voluntary and involuntary
/// switch counts, and whether the scan has stopped.
pub open spec fn scan(lines: Seq<Seq<char>>, k: nat) -> (u64, u64, bool)
    decreases k,
{
    if k == 0 {
        (0, 0, false)
    } else {
        let (v, n, stopped) = scan(lines, (k - 1) as nat);
        let line = lines[k - 1];
        if stopped {
            (v, n, stopped)
        } else if starts_with(line, voluntary_key()) {
            (field_value(line, voluntary_key()), n, false)
        } else if starts_with(line, nonvoluntary_key()) {
            (v, field_value(line, nonvoluntary_key()), true)
        } else {
            (v, n, false)
        }
    }
}

/// The switch counts that a task's status file reports.
pub open spec fn ctx_switches(text: Seq<char>) -> (u64, u64) {
    let lines = lines_of(text);
    let (v, n, _) = scan(lines, lines.len());
    (v, n)
}

fn is_space_char(c: char) -> (r: bool)
    ensures
        r == is_space(c),
{
    ('\u{9}' <= c && c <= '\u{D}') || c == ' ' || c == '\u{85}' || c == '\u{A0}' || c
        == '\u{1680}' || ('\u{2000}' <= c && c <= '\u{200A}') || c == '\u{2028}' || c
        == '\u{2029}' || c == '\u{202F}' || c == '\u{205F}' || c == '\u{3000}'
}

/// Whether `line` begins with `key`.
fn line_starts_with(line: &Vec<char>, key: &str) -> (r: bool)
    ensures
        r == starts_with(line@, key@),
{
    let n = key.unicode_len();
    if line.len() < n {
        return false;
    }
    let mut i: usize = 0;
    while i < n
        invariant
            n == key@.len(),
            n <= line@.len(),
            i <= n,
            forall|j: int| 0 <= j < i ==> line@[j] == key@[j],
        decreases n - i,
    {
        if line[i] != key.get_char(i) {
            assert(line@.take(n as int)[i as int] != key@[i as int]);
            return false;
        }
        i = i + 1;
    }
    assert(line@.take(n as int) =~= key@);
    true
}

proof fn lemma_trim_start_step(s: Seq<char>, i: int)
    requires
        0 <= i < s.len(),
        is_space(s[i]),
    ensures
        trim_start(s.skip(i)) == trim_start(s.skip(i + 1)),
{
    assert(s.skip(i).drop_first() =~= s.skip(i + 1));
}

proof fn lemma_trim_end_step(s: Seq<char>, j: int)
    requires
        0 < j <= s.len(),
        is_space(s[j - 1]),
    ensures
        trim_end(s.take(j)) == trim_end(s.take(j - 1)),
{
    assert(s.take(j).drop_last() =~= s.take(j - 1));
}

proof fn lemma_digits_prefix_le(s: Seq<char>, k: int)
    requires
        0 <= k <= s.len(),
    ensures
        digits_value(s.take(k)) <= digits_value(s),
    decreases s.len() - k,
{
    if k < s.len() {
        lemma_digits_prefix_le(s, k + 1);
        assert(s.take(k + 1).drop_last() =~= s.take(k));
    } else {
        assert(s.take(k) =~= s);
    }
}

/// The number in `line[lo..hi]`, as `parse_u64` gives it.
fn parse_number(line: &Vec<char>, lo: usize, hi: usize) -> (r: Option<u64>)
    requires
        lo <= hi <= line.len(),
    ensures
        r == parse_u64(line@.subrange(lo as int, hi as int)),
{
    let ghost s = line@.subrange(lo as int, hi as int);
    let mut start = lo;
    if lo < hi && line[lo] == '+' {
        start = lo + 1;
    }
    let ghost b = line@.subrange(start as int, hi as int);
    assert(b =~= unsigned_body(s));
    if start == hi {
        return None;
    }
    let mut acc: u64 = 0;
    let mut i = start;
    while i < hi
        invariant
            lo <= start <= i <= hi <= line.len(),
            b == line@.subrange(start as int, hi as int),
            s == line@.subrange(lo as int, hi as int),
            b == unsigned_body(s),
            b.len() > 0,
            forall|j: int| 0 <= j < i - start ==> is_digit(#[trigger] b[j]),
            acc == digits_value(b.take(i - start)),
        decreases hi - i,
    {
        let c = line[i];
        if !('0' <= c && c <= '9') {
            assert(!is_digit(b[i - start]));
            assert(!all_digits(b));
            return None;
        }
        let d = (c as u32 - '0' as u32) as u64;
        let ghost k = i - start;
        proof {
            assert(b.take(k + 1).drop_last() =~= b.take(k));
            assert(b.take(k + 1).last() == b[k]);
            assert(d == (b[k] as int - '0' as int));
            assert(digits_value(b.take(k + 1)) == acc * 10 + d);
        }
        if acc > (u64::MAX - d) / 10 {
            proof {
                assert(acc * 10 + d > u64::MAX) by (nonlinear_arith)
                    requires
                        acc > (u64::MAX - d) / 10,
                        d <= 9,
                ;
                if all_digits(b) {
                    lemma_digits_prefix_le(b, k + 1);
                }
            }
            return None;
        }
        assert(acc * 10 + d <= u64::MAX) by (nonlinear_arith)
            requires
                acc <= (u64::MAX - d) / 10,
                d <= 9,
        ;
        acc = acc * 10 + d;
        i = i + 1;
    }
    assert(b.take(i - start) =~= b);
    Some(acc)
}

/// The value after `key` on `line`, which begins with `key`.
fn read_field(line: &Vec<char>, key_len: usize) -> (r: u64)
    requires
        key_len <= line.len(),
    ensures
        r == (match parse_u64(trim(line@.skip(key_len as int))) {
            Some(v) => v,
            None => 0,
        }),
{
    let ghost rest = line@.skip(key_len as int);
    let mut lo = key_len;
    while lo < line.len() && is_space_char(line[lo])
        invariant
            key_len <= lo <= line.len(),
            trim_start(rest) == trim_start(line@.skip(lo as int)),
        decreases line.len() - lo,
    {
        proof {
            lemma_trim_start_step(line@, lo as int);
            assert(line@.skip(key_len as int).skip(lo - key_len) =~= line@.skip(lo as int));
        }
        lo = lo + 1;
    }
    assert(trim_start(rest) == line@.skip(lo as int));
    let ghost t = line@.skip(lo as int);
    let mut hi = line.len();
    assert(t.take(hi - lo) =~= t);
    while hi > lo && is_space_char(line[hi - 1])
        invariant
            lo <= hi <= line.len(),
            t == line@.skip(lo as int),
            trim_end(t) == trim_end(t.take(hi - lo)),
        decreases hi,
    {
        proof {
            lemma_trim_end_step(t, hi - lo);
        }
        hi = hi - 1;
    }
    assert(trim_end(t) == t.take(hi - lo));
    assert(t.take(hi - lo) =~= line@.subrange(lo as int, hi as int));
    match parse_number(line, lo, hi) {
        Some(v) => v,
        None => 0,
    }
}

proof fn lemma_scan_prefix(a: Seq<Seq<char>>, b: Seq<Seq<char>>, k: nat)
    requires
        k <= a.len(),
        k <= b.len(),
        a.take(k as int) == b.take(k as int),
    ensures
        scan(a, k) == scan(b, k),
    decreases k,
{
    if k > 0 {
        assert(a[k - 1] == a.take(k as int)[k - 1]);
        assert(b[k - 1] == b.take(k as int)[k - 1]);
        assert(a.take(k - 1) =~= a.take(k as int).take(k - 1));
        assert(b.take(k - 1) =~= b.take(k as int).take(k - 1));
        lemma_scan_prefix(a, b, (k - 1) as nat);
    }
}

/// While no line read so far begins with either key, the scan has found
/// nothing and goes on.
proof fn lemma_scan_other_lines(lines: Seq<Seq<char>>, k: nat)
    requires
        k <= lines.len(),
        forall|i: int|
            0 <= i < k ==> !starts_with(#[trigger] lines[i], voluntary_key()) && !starts_with(
                lines[i],
                nonvoluntary_key(),
            ),
    ensures
        scan(lines, k) == (0u64, 0u64, false),
    decreases k,
{
    if k > 0 {
        lemma_scan_other_lines(lines, (k - 1) as nat);
        assert(!starts_with(lines[k - 1], voluntary_key()));
    }
}

/// Once the scan has stopped, the lines after it change nothing.
proof fn lemma_scan_stays(lines: Seq<Seq<char>>, m: nat, k: nat)
    requires
        m <= k <= lines.len(),
        scan(lines, m).2,
    ensures
        scan(lines, k) == scan(lines, m),
    decreases k - m,
{
    if k > m {
        lemma_scan_stays(lines, m, (k - 1) as nat);
    }
}

/// The number after a key on a line made of the key and `rest`.
proof fn lemma_key_line(key: Seq<char>, rest: Seq<char>)
    ensures
        starts_with(key + rest, key),
        field_value(key + rest, key) == (match parse_u64(trim(rest)) {
            Some(v) => v,
            None => 0,
        }),
{
    assert((key + rest).take(key.len() as int) =~= key);
    assert((key + rest).skip(key.len() as int) =~= rest);
}

/// In a status file whose lines are some lines that begin with neither
/// key, then `voluntary_ctxt_switches:` followed by `vs`, then
/// `nonvoluntary_ctxt_switches:` followed by `ns`, then anything, the
/// counts are the numbers in `vs` and `ns` (zero where one does not parse),
/// however many lines come before them.
pub proof fn lemma_counts_after_other_lines(
    text: Seq<char>,
    others: Seq<Seq<char>>,
    vs: Seq<char>,
    ns: Seq<char>,
    rest: Seq<Seq<char>>,
)
    requires
        lines_of(text) == others + seq![voluntary_key() + vs, nonvoluntary_key() + ns] + rest,
        forall|i: int|
            0 <= i < others.len() ==> !starts_with(#[trigger] others[i], voluntary_key())
                && !starts_with(others[i], nonvoluntary_key()),
    ensures
        ctx_switches(text) == ((match parse_u64(trim(vs)) {
            Some(v) => v,
            None => 0,
        }), (match parse_u64(trim(ns)) {
            Some(n) => n,
            None => 0,
        })),
{
    reveal_strlit("voluntary_ctxt_switches:");
    reveal_strlit("nonvoluntary_ctxt_switches:");
    let lines = lines_of(text);
    let m = others.len();
    let vline = voluntary_key() + vs;
    let nline = nonvoluntary_key() + ns;
    assert(lines[m as int] == vline);
    assert(lines[m + 1int] == nline);
    assert forall|i: int| 0 <= i < m implies !starts_with(
        #[trigger] lines[i],
        voluntary_key(),
    ) && !starts_with(lines[i], nonvoluntary_key()) by {
        assert(lines[i] == others[i]);
    }
    lemma_scan_other_lines(lines, m);
    lemma_key_line(voluntary_key(), vs);
    lemma_key_line(nonvoluntary_key(), ns);
    assert(nline[0] != voluntary_key()[0]);
    assert(nline.take(voluntary_key().len() as int)[0] == nline[0]);
    assert(!starts_with(nline, voluntary_key()));
    assert(scan(lines, m + 1) == (field_value(vline, voluntary_key()), 0u64, false));
    assert(scan(lines, m + 2) == (
        field_value(vline, voluntary_key()),
        field_value(nline, nonvoluntary_key()),
        true,
    ));
    lemma_scan_stays(lines, m + 2, lines.len());
}

/// The voluntary and involuntary context switch counts in the text of a
/// task's status file.
///
/// The lines are read in order.  A line that begins with
/// `voluntary_ctxt_switches:` sets the first count to the number after it,
/// one that begins with `nonvoluntary_ctxt_switches:` sets the second and
/// ends the reading.  A number that is missing or does not parse counts as
/// zero, and so does a count whose line never comes.
pub fn parse_ctx_switches(text: &Vec<char>) -> (r: (u64, u64))
    ensures
        r == ctx_switches(text@),
{
    let vol_key = "voluntary_ctxt_switches:";
    let nonvol_key = "nonvoluntary_ctxt_switches:";
    let mut voluntary: u64 = 0;
    let mut nonvoluntary: u64 = 0;
    let mut stopped = false;
    let mut cur: Vec<char> = Vec::new();
    let ghost mut lines: Seq<Seq<char>> = Seq::empty();
    let mut i: usize = 0;
    while i < text.len()
        invariant
            i <= text.len(),
            vol_key@ == voluntary_key(),
            nonvol_key@ == nonvoluntary_key(),
            (lines, cur@) == split_state(text@, i as nat),
            (voluntary, nonvoluntary, stopped) == scan(lines, lines.len()),
        decreases text.len() - i,
    {
        if text[i] == '\n' {
            let ghost before = lines;
            proof {
                lines = lines.push(cur@);
                assert(lines.take(before.len() as int) =~= before.take(before.len() as int));
                lemma_scan_prefix(before, lines, before.len());
            }
            if !stopped {
                if line_starts_with(&cur, vol_key) {
                    voluntary = read_field(&cur, vol_key.unicode_len());
                } else if line_starts_with(&cur, nonvol_key) {
                    nonvoluntary = read_field(&cur, nonvol_key.unicode_len());
                    stopped = true;
                }
            }
            cur = Vec::new();
        } else {
            cur.push(text[i]);
        }
        i = i + 1;
    }
    if cur.len() > 0 {
        let ghost before = lines;
        proof {
            lines = lines.push(cur@);
            assert(lines.take(before.len() as int) =~= before.take(before.len() as int));
            lemma_scan_prefix(before, lines, before.len());
        }
        if !stopped {
            if line_starts_with(&cur, vol_key) {
                voluntary = read_field(&cur, vol_key.unicode_len());
            } else if line_starts_with(&cur, nonvol_key) {
                nonvoluntary = read_field(&cur, nonvol_key.unicode_len());
            }
        }
    }
    assert(lines == lines_of(text@));
    (voluntary, nonvoluntary)
}

} // verus!
