//! The application's log: where it lives, and the stamp that opens each run.
use vstd::prelude::*;
use crate::shell::joined;
use crate::text::{chars_of, push_chars, push_str, slice_chars, split_chars, split_on, views, zero_padded, zero_padded_string};

verus! {

/// The log file, inside the log folder.
pub const LOG_FILE: &'static str = "wrusp.log";

/// Where the log goes once it passes the limit.
pub const PREVIOUS_FILE: &'static str = "wrusp.anterior.log";

/// Size past which the log is rotated: 5 MiB.
pub const MAX_BYTES: u64 = 5242880;

/// A year of the Gregorian calendar with a 29th of February.
pub open spec fn is_leap(y: int) -> bool {
    y % 4 == 0 && (y % 100 != 0 || y % 400 == 0)
}

/// Days in month `m` (1 to 12) of year `y`.
pub open spec fn month_len(y: int, m: int) -> int {
    if m == 2 {
        if is_leap(y) {
            29
        } else {
            28
        }
    } else if m == 4 || m == 6 || m == 9 || m == 11 {
        30
    } else {
        31
    }
}

/// Days of year `y` before the first of month `m`.
pub open spec fn days_before_month(y: int, m: int) -> int
    decreases m,
{
    if m <= 1 {
        0
    } else {
        days_before_month(y, m - 1) + month_len(y, m - 1)
    }
}

/// How many leap years there are from year 0 up to `y`, `y` excluded: the
/// multiples of 4, less those of 100, plus those of 400. Below 0 it counts
/// those from `y` up to 0, negatively.
pub open spec fn leap_years_before(y: int) -> int {
    (y + 3) / 4 - (y + 99) / 100 + (y + 399) / 400
}

/// Days from 1970-01-01 to the first of January of year `y` (negative
/// before 1970).
pub open spec fn days_before_year(y: int) -> int {
    365 * (y - 1970) + leap_years_before(y) - leap_years_before(1970)
}

/// A date that exists in the calendar.
pub open spec fn valid_date(y: int, m: int, d: int) -> bool {
    1 <= m <= 12 && 1 <= d <= month_len(y, m)
}

/// Days from 1970-01-01 to the date (negative before it).
pub open spec fn day_number(y: int, m: int, d: int) -> int {
    days_before_year(y) + days_before_month(y, m) + d - 1
}

/// A year with at least four digits, and its sign in front when negative.
pub open spec fn year_text(y: int) -> Seq<char> {
    if y >= 0 {
        zero_padded(y as nat, 4)
    } else {
        seq!['-'] + zero_padded((-y) as nat, 3)
    }
}

/// `YYYY-MM-DD hh:mm:ss UTC`.
pub open spec fn utc_stamp(y: int, m: int, d: int, h: int, mi: int, s: int) -> Seq<char> {
    year_text(y) + seq!['-'] + zero_padded(m as nat, 2) + seq!['-'] + zero_padded(d as nat, 2)
        + seq![' '] + zero_padded(h as nat, 2) + seq![':'] + zero_padded(mi as nat, 2) + seq![':']
        + zero_padded(s as nat, 2) + " UTC"@
}

/// `text` is the UTC date and time of `secs` seconds after the Unix epoch:
/// the day is the calendar date that many whole days after 1970-01-01
/// (counting back for negative `secs`), and the time is what is left.
pub open spec fn is_stamp_of(secs: int, text: Seq<char>) -> bool {
    let rest = secs % 86400;
    exists|y: int, m: int, d: int|
        valid_date(y, m, d) && day_number(y, m, d) == secs / 86400 && text == utc_stamp(
            y,
            m,
            d,
            rest / 3600,
            rest % 3600 / 60,
            rest % 60,
        )
}

/// Days from the first of March of year 0 of a 400-year era to the first of
/// March of its year `k`.
spec fn era_year_start(k: int) -> int {
    365 * k + k / 4 - k / 100
}

/// The year of an era that holds its day `doe`.
proof fn lemma_year_of_era(doe: int, yoe: int)
    requires
        0 <= doe <= 146096,
        yoe == (doe - doe / 1460 + doe / 36524 - doe / 146096) / 365,
    ensures
        0 <= yoe <= 399,
        era_year_start(yoe) <= doe,
        doe - era_year_start(yoe) < 365 + (if is_leap(yoe + 1) {
            1int
        } else {
            0
        }),
{
}

/// The month (counted from March) and day of the day `doy` of a year that
/// starts on the first of March.
proof fn lemma_month_of_year(doy: int, leap: int, mp: int, d: int)
    requires
        0 <= leap <= 1,
        0 <= doy < 365 + leap,
        mp == (5 * doy + 2) / 153,
        d == doy - (153 * mp + 2) / 5 + 1,
    ensures
        0 <= mp <= 11,
        1 <= d,
        mp == 11 ==> d <= 28 + leap,
        mp == 1 || mp == 3 || mp == 6 || mp == 8 ==> d <= 30,
        d <= 31,
{
}

/// Within an era, the leap years before year `yoe` and the leap day of
/// that year add up to what `era_year_start` counts.
proof fn lemma_leaps_in_era(yoe: int)
    requires
        0 <= yoe <= 399,
    ensures
        (yoe + 3) / 4 - (yoe + 99) / 100 + (yoe + 399) / 400 + (if is_leap(yoe) {
            1int
        } else {
            0
        }) == yoe / 4 - yoe / 100 + 1,
{
}

/// Shifting a year by whole eras of 400 years shifts the leap count by 97
/// per era and keeps which years are leap.
proof fn lemma_era_shift(era: int, yoe: int)
    ensures
        (400 * era + yoe + 3) / 4 == 100 * era + (yoe + 3) / 4,
        (400 * era + yoe + 99) / 100 == 4 * era + (yoe + 99) / 100,
        (400 * era + yoe + 399) / 400 == era + (yoe + 399) / 400,
        (400 * era + yoe) % 4 == yoe % 4,
        (400 * era + yoe) % 100 == yoe % 100,
        (400 * era + yoe) % 400 == yoe % 400,
{
    assert((400 * era + yoe + 3) / 4 == 100 * era + (yoe + 3) / 4) by (nonlinear_arith);
    assert((400 * era + yoe + 99) / 100 == 4 * era + (yoe + 99) / 100) by (nonlinear_arith);
    assert((400 * era + yoe + 399) / 400 == era + (yoe + 399) / 400) by (nonlinear_arith);
    assert((400 * era + yoe) % 4 == yoe % 4) by (nonlinear_arith);
    assert((400 * era + yoe) % 100 == yoe % 100) by (nonlinear_arith);
    assert((400 * era + yoe) % 400 == yoe % 400) by (nonlinear_arith);
}

/// The first of March of year `400 * era + yoe` is day
/// `146097 * era + era_year_start(yoe) - 719468` after 1970-01-01.
proof fn lemma_march_first(era: int, yoe: int)
    requires
        0 <= yoe <= 399,
    ensures
        days_before_year(400 * era + yoe) + 59 + (if is_leap(400 * era + yoe) {
            1int
        } else {
            0
        }) == 146097 * era + era_year_start(yoe) - 719468,
        is_leap(400 * era + yoe) == is_leap(yoe),
        is_leap(400 * era + yoe + 1) == is_leap(yoe + 1),
{
    lemma_era_shift(era, yoe);
    lemma_era_shift(era, yoe + 1);
    lemma_leaps_in_era(yoe);
    assert(leap_years_before(1970) == 478);
    assert(leap_years_before(400 * era + yoe) == 97 * era + (yoe + 3) / 4 - (yoe + 99) / 100 + (
    yoe + 399) / 400);
}

/// Where the months counted from March start, in days from the first of
/// March, and how long they are.
proof fn lemma_month_starts(y: int, mp: int)
    requires
        0 <= mp <= 11,
    ensures
        ({
            let m = if mp < 10 {
                mp + 3
            } else {
                mp - 9
            };
            let leap = if is_leap(y) {
                1int
            } else {
                0
            };
            &&& mp < 10 ==> days_before_month(y, m) == 59 + leap + (153 * mp + 2) / 5
            &&& mp >= 10 ==> days_before_month(y, m) == (153 * mp + 2) / 5 - 306
            &&& mp == 11 ==> month_len(y, m) == 28 + leap
            &&& (mp == 1 || mp == 3 || mp == 6 || mp == 8) ==> month_len(y, m) == 30
            &&& (mp != 1 && mp != 3 && mp != 6 && mp != 8 && mp != 11) ==> month_len(y, m) == 31
        }),
{
    reveal_with_fuel(days_before_month, 13);
    if mp == 0 {
    } else if mp == 1 {
    } else if mp == 2 {
    } else if mp == 3 {
    } else if mp == 4 {
    } else if mp == 5 {
    } else if mp == 6 {
    } else if mp == 7 {
    } else if mp == 8 {
    } else if mp == 9 {
    } else if mp == 10 {
    } else {
    }
}

/// The date of a day counted from the first of March: month `mp` from
/// March, day `d`, in the era year `yoe` of era `era`.
proof fn lemma_date_of_day(era: int, yoe: int, doy: int, mp: int, d: int)
    requires
        0 <= yoe <= 399,
        0 <= doy < 365 + (if is_leap(yoe + 1) {
            1int
        } else {
            0
        }),
        mp == (5 * doy + 2) / 153,
        d == doy - (153 * mp + 2) / 5 + 1,
    ensures
        ({
            let m = if mp < 10 {
                mp + 3
            } else {
                mp - 9
            };
            let y = 400 * era + yoe + (if m <= 2 {
                1int
            } else {
                0
            });
            valid_date(y, m, d) && day_number(y, m, d) == 146097 * era + era_year_start(yoe) + doy
                - 719468
        }),
{
    let leap: int = if is_leap(yoe + 1) {
        1
    } else {
        0
    };
    lemma_month_of_year(doy, leap, mp, d);
    lemma_march_first(era, yoe);
    let m = if mp < 10 {
        mp + 3
    } else {
        mp - 9
    };
    let y0 = 400 * era + yoe;
    if m <= 2 {
        let y = y0 + 1;
        lemma_month_starts(y, mp);
        assert(days_before_year(y) == days_before_year(y0) + 365 + (if is_leap(y0) {
            1int
        } else {
            0
        })) by {
            lemma_era_shift(era, yoe + 1);
            lemma_era_shift(era, yoe);
        }
    } else {
        lemma_month_starts(y0, mp);
    }
}

/// `n` with at least two digits.
fn two_digits(n: i64) -> (s: String)
    requires
        0 <= n < 100,
    ensures
        s@ == zero_padded(n as nat, 2),
{
    zero_padded_string(n as u64, 2)
}

/// The date and time, in UTC, of `secs` seconds after the Unix epoch, as
/// `YYYY-MM-DD hh:mm:ss UTC`: civil days from the epoch, converted with
/// Howard Hinnant's algorithm.
pub fn fecha_utc(secs: i64) -> (s: String)
    ensures
        is_stamp_of(secs as int, s@),
{
    let dias: i64 = match secs.checked_div_euclid(86400) {
        Some(q) => q,
        None => 0,
    };
    let resto: i64 = match secs.checked_rem_euclid(86400) {
        Some(r) => r,
        None => 0,
    };
    assert(dias == secs / 86400 && resto == secs % 86400);
    let (h, m, s) = (resto / 3600, resto % 3600 / 60, resto % 60);
    let z = dias + 719468;
    let era: i64 = match z.checked_div_euclid(146097) {
        Some(q) => q,
        None => 0,
    };
    let doe: i64 = match z.checked_rem_euclid(146097) {
        Some(r) => r,
        None => 0,
    };
    assert(era == z / 146097 && doe == z % 146097);
    let yoe = (doe - doe / 1460 + doe / 36524 - doe / 146096) / 365;
    proof {
        lemma_year_of_era(doe as int, yoe as int);
    }
    let doy = doe - (365 * yoe + yoe / 4 - yoe / 100);
    let mp = (5 * doy + 2) / 153;
    let d = doy - (153 * mp + 2) / 5 + 1;
    proof {
        lemma_date_of_day(era as int, yoe as int, doy as int, mp as int, d as int);
    }
    let mes = if mp < 10 {
        mp + 3
    } else {
        mp - 9
    };
    let anno = yoe + era * 400 + if mes <= 2 {
        1
    } else {
        0
    };
    let mut out = if anno >= 0 {
        zero_padded_string(anno as u64, 4)
    } else {
        let mut neg = String::from_str("-");
        proof {
            reveal_strlit("-");
        }
        let digits = zero_padded_string((0 - anno) as u64, 3);
        push_str(&mut neg, digits.as_str());
        neg
    };
    out.push('-');
    let t = two_digits(mes);
    push_str(&mut out, t.as_str());
    out.push('-');
    let t = two_digits(d);
    push_str(&mut out, t.as_str());
    out.push(' ');
    let t = two_digits(h);
    push_str(&mut out, t.as_str());
    out.push(':');
    let t = two_digits(m);
    push_str(&mut out, t.as_str());
    out.push(':');
    let t = two_digits(s);
    push_str(&mut out, t.as_str());
    push_str(&mut out, " UTC");
    proof {
        let y = anno as int;
        assert(out@ =~= utc_stamp(y, mes as int, d as int, h as int, m as int, s as int));
    }
    out
}


// ───────────────────────────── rotation ─────────────────────────────

/// Does a log of `size` bytes (when it exists) start the run rotated? Past
/// the limit, what was written becomes the previous log and a clean one
/// starts: two files at most.
pub fn rotate_at_start(size: Option<u64>) -> (b: bool)
    ensures
        b == (size matches Some(n) && n > MAX_BYTES),
{
    match size {
        Some(n) => n > MAX_BYTES,
        None => false,
    }
}

/// What the drain keeps count of after copying a chunk of `chunk` bytes to
/// the file (`copied` when the write succeeded): the bytes now in the file,
/// and whether that passed `limit`, in which case the file is rotated.
pub fn after_chunk(written: u64, chunk: u64, copied: bool, limit: u64) -> (r: (u64, bool))
    requires
        written + chunk <= u64::MAX,
    ensures
        r.0 == (if copied {
            written + chunk
        } else {
            written as int
        }),
        r.1 == (r.0 > limit),
{
    let now = if copied {
        written + chunk
    } else {
        written
    };
    (now, now > limit)
}

// ───────────────────────────── the tail ─────────────────────────────

/// How much is read at a time, going back from the end of the log: 64 KiB.
pub const TAIL_CHUNK: u64 = 65536;

/// Most lines the settings page may ask for, so that it cannot ask for the
/// whole file by the back door.
pub const TAIL_MAX_LINES: usize = 2000;

/// The number of lines asked for, between 1 and the maximum.
pub fn tail_lines(lines: usize) -> (n: usize)
    ensures
        n == (if lines < 1 {
            1
        } else if lines > TAIL_MAX_LINES {
            TAIL_MAX_LINES
        } else {
            lines
        }),
{
    if lines < 1 {
        1
    } else if lines > TAIL_MAX_LINES {
        TAIL_MAX_LINES
    } else {
        lines
    }
}

/// The line feeds in some bytes.
pub open spec fn feeds(b: Seq<u8>) -> nat
    decreases b.len(),
{
    if b.len() == 0 {
        0
    } else {
        feeds(b.drop_last()) + (if b.last() == 10 {
            1nat
        } else {
            0
        })
    }
}

/// The longest end of `b` with at most `k` line feeds: the last `k` lines of
/// a text that ends in a line feed, or the unfinished last line and the `k`
/// before it.
pub open spec fn end_within_feeds(b: Seq<u8>, k: nat) -> Seq<u8>
    decreases b.len(),
{
    if b.len() == 0 {
        b
    } else if b.last() == 10 {
        if k == 0 {
            Seq::empty()
        } else {
            end_within_feeds(b.drop_last(), (k - 1) as nat).push(b.last())
        }
    } else {
        end_within_feeds(b.drop_last(), k).push(b.last())
    }
}

/// `end_within_feeds(b, k)` is an end of `b`.
pub proof fn lemma_end_within_feeds_is_an_end(b: Seq<u8>, k: nat)
    ensures
        end_within_feeds(b, k).len() <= b.len(),
        end_within_feeds(b, k) == b.skip(b.len() - end_within_feeds(b, k).len()),
    decreases b.len(),
{
    if b.len() > 0 {
        if b.last() == 10 {
            if k > 0 {
                lemma_end_within_feeds_is_an_end(b.drop_last(), (k - 1) as nat);
                let e = end_within_feeds(b.drop_last(), (k - 1) as nat);
                assert(b.skip(b.len() - (e.len() + 1)) =~= b.drop_last().skip(
                    b.drop_last().len() - e.len(),
                ).push(b.last()));
            } else {
                assert(b.skip(b.len() as int) =~= Seq::<u8>::empty());
            }
        } else {
            lemma_end_within_feeds_is_an_end(b.drop_last(), k);
            let e = end_within_feeds(b.drop_last(), k);
            assert(b.skip(b.len() - (e.len() + 1)) =~= b.drop_last().skip(
                b.drop_last().len() - e.len(),
            ).push(b.last()));
        }
    }
}

/// Reading a log back from its end is enough once the bytes read hold more
/// line feeds than the `k` lines asked for: the longest end of the whole
/// file `p + s` with at most `k` line feeds, where its last `k` lines are,
/// lies within the bytes read, `s`, and is the same there.
pub proof fn lemma_tail_read_is_enough(p: Seq<u8>, s: Seq<u8>, k: nat)
    requires
        feeds(s) > k,
    ensures
        end_within_feeds(p + s, k) == end_within_feeds(s, k),
        end_within_feeds(s, k) == s.skip(s.len() - end_within_feeds(s, k).len()),
    decreases s.len(),
{
    lemma_end_within_feeds_is_an_end(s, k);
    let b = p + s;
    assert(b.last() == s.last());
    assert(b.drop_last() =~= p + s.drop_last());
    if s.last() == 10 {
        if k > 0 {
            lemma_tail_read_is_enough(p, s.drop_last(), (k - 1) as nat);
        }
    } else {
        lemma_tail_read_is_enough(p, s.drop_last(), k);
    }
}

/// Going back through the file: from offset `from`, with `read` bytes read
/// so far, another chunk is needed while there is file left and the bytes
/// read hold no more feeds than lines asked for (one line more than asked,
/// since the first may be cut in half).
pub fn tail_needs_more(from: u64, read: &Vec<u8>, lines: usize) -> (b: bool)
    ensures
        b == (from > 0 && feeds(read@) <= lines),
{
    if from == 0 {
        return false;
    }
    let mut count: usize = 0;
    let mut i: usize = 0;
    while i < read.len()
        invariant
            i <= read@.len(),
            count == feeds(read@.take(i as int)),
            count <= i,
        decreases read.len() - i,
    {
        proof {
            assert(read@.take(i + 1).drop_last() =~= read@.take(i as int));
        }
        if read[i] == 10u8 {
            count = count + 1;
        }
        i = i + 1;
    }
    assert(read@.take(read@.len() as int) =~= read@);
    count <= lines
}

/// The next chunk back from offset `from`: its size, and where it starts.
pub fn tail_step(from: u64) -> (r: (u64, u64))
    ensures
        r.0 == (if from < TAIL_CHUNK {
            from
        } else {
            TAIL_CHUNK
        }),
        r.1 == from - r.0,
{
    let step = if from < TAIL_CHUNK {
        from
    } else {
        TAIL_CHUNK
    };
    (step, from - step)
}

/// A line without the carriage return of a `\r\n` ending.
pub open spec fn without_cr(l: Seq<char>) -> Seq<char> {
    if l.len() > 0 && l.last() == '\r' {
        l.drop_last()
    } else {
        l
    }
}

/// `str::lines`: the pieces between line feeds, each without the `\r` of a
/// `\r\n`, and no empty piece after a final feed.
pub open spec fn text_lines(t: Seq<char>) -> Seq<Seq<char>> {
    if t.len() == 0 {
        Seq::empty()
    } else {
        let ps = split_on(t, '\n');
        let ended = ps.drop_last().map_values(|l: Seq<char>| without_cr(l));
        if ps.last().len() == 0 {
            ended
        } else {
            ended.push(ps.last())
        }
    }
}

/// The last `n` lines, in order, joined with line feeds.
pub open spec fn last_lines(t: Seq<char>, n: nat) -> Seq<char> {
    let ls = text_lines(t);
    let from = if ls.len() > n {
        ls.len() - n
    } else {
        0
    };
    joined(ls.skip(from), "\n"@)
}

/// What `String::from_utf8_lossy` makes of some bytes: invalid sequences
/// replaced by U+FFFD.
pub uninterp spec fn utf8_lossy(b: Seq<u8>) -> Seq<char>;

/// Calls `String::from_utf8_lossy`; its result is named `utf8_lossy`. The
/// log holds output of WebKit and GStreamer that is not always UTF-8.
#[verifier::external_body]
fn decode_lossy(b: &[u8]) -> (s: String)
    ensures
        s@ == utf8_lossy(b@),
{
    String::from_utf8_lossy(b).into_owned()
}

fn strip_cr(l: &Vec<char>) -> (r: Vec<char>)
    ensures
        r@ == without_cr(l@),
{
    if l.len() > 0 && l[l.len() - 1] == '\r' {
        slice_chars(l, 0, l.len() - 1)
    } else {
        slice_chars(l, 0, l.len())
    }
}

/// The last `lines` lines of what was read from the end of the log.
pub fn tail_text(read: &[u8], lines: usize) -> (s: String)
    ensures
        s@ == last_lines(utf8_lossy(read@), lines as nat),
{
    let text = decode_lossy(read);
    let t = chars_of(text.as_str());
    let ghost ls = text_lines(t@);
    let mut all: Vec<Vec<char>> = Vec::new();
    if t.len() > 0 {
        let pieces = split_chars(&t, '\n');
        proof {
            crate::text::lemma_split_on_nonempty(t@, '\n');
        }
        let last = pieces.len() - 1;
        let mut k: usize = 0;
        while k < last
            invariant
                last == pieces.len() - 1,
                k <= last,
                views(pieces@) == split_on(t@, '\n'),
                views(all@) == views(pieces@).drop_last().take(k as int).map_values(
                    |l: Seq<char>| without_cr(l),
                ),
            decreases last - k,
        {
            let l = strip_cr(&pieces[k]);
            let ghost before = views(all@);
            all.push(l);
            proof {
                assert(views(all@) =~= before.push(l@));
                assert(views(pieces@).drop_last()[k as int] == pieces@[k as int]@);
                assert(views(pieces@).drop_last().take(k + 1) =~= views(pieces@).drop_last().take(
                    k as int,
                ).push(pieces@[k as int]@));
            }
            k = k + 1;
            assert(views(all@) =~= views(pieces@).drop_last().take(k as int).map_values(
                |l: Seq<char>| without_cr(l),
            ));
        }
        assert(views(pieces@).drop_last().take(last as int) =~= views(pieces@).drop_last());
        if pieces[last].len() > 0 {
            let l = slice_chars(&pieces[last], 0, pieces[last].len());
            let ghost before = views(all@);
            all.push(l);
            assert(views(all@) =~= before.push(l@));
            assert(l@ =~= views(pieces@).last());
        }
    }
    assert(views(all@) =~= ls);
    let from: usize = if all.len() > lines {
        all.len() - lines
    } else {
        0
    };
    let mut out: Vec<char> = Vec::new();
    let mut j: usize = from;
    assert(ls.skip(from as int).take(0) =~= Seq::<Seq<char>>::empty());
    while j < all.len()
        invariant
            from <= j <= all.len(),
            views(all@) == ls,
            out@ == joined(ls.skip(from as int).take(j - from), "\n"@),
        decreases all.len() - j,
    {
        let ghost before = out@;
        let ghost parts = ls.skip(from as int).take(j - from);
        if j > from {
            out.push('\n');
        }
        let ghost mid = out@;
        let piece = &all[j];
        let mut q: usize = 0;
        while q < piece.len()
            invariant
                q <= piece.len(),
                out@ == mid + piece@.take(q as int),
            decreases piece.len() - q,
        {
            out.push(piece[q]);
            q = q + 1;
            assert(out@ =~= mid + piece@.take(q as int));
        }
        proof {
            assert(piece@.take(piece@.len() as int) =~= piece@);
            let next = ls.skip(from as int).take(j + 1 - from);
            assert(next =~= parts.push(ls[j as int]));
            assert(views(all@)[j as int] == all@[j as int]@);
            assert(next.drop_last() =~= parts);
            if j == from {
                assert(parts.len() == 0);
                assert(out@ =~= piece@);
            } else {
                assert(out@ =~= before + seq!['\n'] + piece@);
                assert("\n"@ =~= seq!['\n']) by {
                    reveal_strlit("\n");
                }
            }
        }
        j = j + 1;
    }
    assert(ls.skip(from as int).take(all.len() - from) =~= ls.skip(from as int));
    let mut s = String::new();
    push_chars(&mut s, &out);
    assert(s@ =~= out@);
    s
}

} // verus!
