//! The filename scheme for archive artifacts, and the bucket clock.
//!
//! An artifact's name is a pure function of the bucket start, the bucket
//! length, the volume index and whether the artifact is still temporary:
//! `solana_data_archive__from_<start>_to_<end>_UTC__Volume_<n>.<suffix>`,
//! where the suffix is `temp.zstd` while the segment is being written and
//! `zstd` once it has been atomically renamed into place. The two timestamps
//! are rendered by chrono; everything else is built and verified here.

use vstd::prelude::*;

verus! {

/// Latest instant the naming scheme accepts, in seconds since the Unix epoch:
/// the last second of year 9999, so that rendered years always have four
/// digits and chrono's timestamp conversion is well inside its domain.
pub const MAX_ARCHIVE_SECONDS: i64 = 253_402_300_799;

/// Largest accepted bucket length in minutes. A bucket spans well under two
/// years; the bound keeps every second of a bucket within
/// [`MAX_ARCHIVE_SECONDS`] and all bucket arithmetic free of overflow.
pub const MAX_BUCKET_MINUTES: i64 = 1_000_000;

/// What `DateTime::<Utc>::from_timestamp(secs, 0)` rendered with the format
/// string `"%Y-%m-%d %H:%M:%S"` returns: a function of `secs` alone.
pub uninterp spec fn second_stamp(secs: int) -> Seq<char>;

/// What `DateTime::<Utc>::from_timestamp(secs, 0)` rendered with the format
/// string `"%Y-%m-%d %H:%M"` returns: a function of `secs` alone.
pub uninterp spec fn minute_stamp(secs: int) -> Seq<char>;

/// Relies on chrono's `DateTime::<Utc>::from_timestamp` and `format`:
/// `from_timestamp(secs, 0)` is documented to return `Some` for every
/// in-range number of seconds, which the precondition guarantees, and
/// `format("%Y-%m-%d %H:%M:%S")` renders the instant as a function of
/// `secs` alone. Up to the year 9999 the zero-padded fields make the
/// rendering exactly 19 characters wide, and since it spells the instant
/// out to the second, no other in-range instant renders the same way.
#[verifier::external_body]
pub(crate) fn format_second_stamp(secs: i64) -> (r: String)
    requires
        0 <= secs <= MAX_ARCHIVE_SECONDS,
    ensures
        r@ == second_stamp(secs as int),
        r@.len() == 19,
        forall|t: int| 0 <= t <= MAX_ARCHIVE_SECONDS ==> second_stamp(t).len() == r@.len(),
        forall|t: int|
            0 <= t <= MAX_ARCHIVE_SECONDS && t != secs ==> second_stamp(t) != r@,
{
    let t = chrono::DateTime::<chrono::Utc>::from_timestamp(secs, 0).unwrap();
    t.format("%Y-%m-%d %H:%M:%S").to_string()
}

/// Relies on chrono's `DateTime::<Utc>::from_timestamp` and `format`, as
/// [`format_second_stamp`] does, with the format string `"%Y-%m-%d %H:%M"`.
#[verifier::external_body]
pub(crate) fn format_minute_stamp(secs: i64) -> (r: String)
    requires
        0 <= secs <= MAX_ARCHIVE_SECONDS,
    ensures
        r@ == minute_stamp(secs as int),
{
    let t = chrono::DateTime::<chrono::Utc>::from_timestamp(secs, 0).unwrap();
    t.format("%Y-%m-%d %H:%M").to_string()
}

/// The character for a single decimal digit.
pub open spec fn digit_char(d: int) -> char {
    if d == 0 {
        '0'
    } else if d == 1 {
        '1'
    } else if d == 2 {
        '2'
    } else if d == 3 {
        '3'
    } else if d == 4 {
        '4'
    } else if d == 5 {
        '5'
    } else if d == 6 {
        '6'
    } else if d == 7 {
        '7'
    } else if d == 8 {
        '8'
    } else {
        '9'
    }
}

/// The usual decimal rendering of `n`, most significant digit first, with no
/// leading zeros (except for `n == 0` itself).
pub open spec fn decimal_digits(n: nat) -> Seq<char>
    decreases n,
{
    if n < 10 {
        seq![digit_char(n as int)]
    } else {
        decimal_digits(n / 10).push(digit_char((n % 10) as int))
    }
}

/// Exec twin of [`digit_char`], as a one-character string slice.
fn digit_str(d: usize) -> (r: &'static str)
    requires
        d < 10,
    ensures
        r@ == seq![digit_char(d as int)],
{
    proof {
        reveal_strlit("0");
        reveal_strlit("1");
        reveal_strlit("2");
        reveal_strlit("3");
        reveal_strlit("4");
        reveal_strlit("5");
        reveal_strlit("6");
        reveal_strlit("7");
        reveal_strlit("8");
        reveal_strlit("9");
    }
    if d == 0 {
        "0"
    } else if d == 1 {
        "1"
    } else if d == 2 {
        "2"
    } else if d == 3 {
        "3"
    } else if d == 4 {
        "4"
    } else if d == 5 {
        "5"
    } else if d == 6 {
        "6"
    } else if d == 7 {
        "7"
    } else if d == 8 {
        "8"
    } else {
        "9"
    }
}

/// Appends the decimal rendering of `n` to `out`.
fn push_decimal(out: &mut String, n: usize)
    ensures
        final(out)@ == old(out)@ + decimal_digits(n as nat),
    decreases n,
{
    if n >= 10 {
        push_decimal(out, n / 10);
    }
    out.append(digit_str(n % 10));
}

/// The name of an artifact up to (and excluding) its suffix.
pub open spec fn file_stem(start: int, minutes_per_bucket: int, volume: int) -> Seq<char> {
    "solana_data_archive__from_"@ + second_stamp(start) + "_to_"@ + minute_stamp(
        start + 60 * minutes_per_bucket,
    ) + "_UTC__Volume_"@ + decimal_digits(volume as nat)
}

/// The suffix that tells a temporary artifact from a final one, dot included.
pub open spec fn name_suffix(temp: bool) -> Seq<char> {
    if temp {
        ".temp.zstd"@
    } else {
        ".zstd"@
    }
}

/// The canonical artifact name for a segment: a pure function of the bucket
/// start, the bucket length, the volume index and finality, so retries render
/// the same name.
pub open spec fn file_name(start: int, minutes_per_bucket: int, volume: int, temp: bool) -> Seq<
    char,
> {
    file_stem(start, minutes_per_bucket, volume) + name_suffix(temp)
}

/// The bucket-start stamp occupies a fixed region of every name: character
/// `26 + k` of a name is character `k` of its bucket-start stamp.
proof fn lemma_stamp_region(start: int, minutes_per_bucket: int, volume: int, temp: bool, k: int)
    requires
        0 <= k < second_stamp(start).len(),
    ensures
        26 + k < file_name(start, minutes_per_bucket, volume, temp).len(),
        file_name(start, minutes_per_bucket, volume, temp)[26 + k] == second_stamp(start)[k],
{
    reveal_strlit("solana_data_archive__from_");
    assert("solana_data_archive__from_"@.len() == 26);
}

/// Builds the canonical artifact name for a segment. Among all names of the
/// same bucket length, the result belongs to this (bucket start, volume,
/// finality) alone: any other identity renders a different name, so no two
/// distinct segments of a run can collide on a name.
pub fn generate_file_name(
    bucket_start_time: i64,
    minutes_per_bucket: i64,
    volume: usize,
    temp: bool,
) -> (r: String)
    requires
        0 <= bucket_start_time,
        1 <= minutes_per_bucket <= MAX_BUCKET_MINUTES,
        bucket_start_time + 60 * minutes_per_bucket <= MAX_ARCHIVE_SECONDS,
    ensures
        r@ == file_name(bucket_start_time as int, minutes_per_bucket as int, volume as int, temp),
        forall|s2: int, v2: int, t2: bool|
            0 <= s2 <= MAX_ARCHIVE_SECONDS && v2 >= 0 && (s2 != bucket_start_time as int || v2
                != volume as int || t2 != temp) ==> file_name(
                s2,
                minutes_per_bucket as int,
                v2,
                t2,
            ) != r@,
{
    let mut name = String::new();
    name.append("solana_data_archive__from_");
    let from_time = format_second_stamp(bucket_start_time);
    name.append(from_time.as_str());
    name.append("_to_");
    let to_time = format_minute_stamp(bucket_start_time + 60 * minutes_per_bucket);
    name.append(to_time.as_str());
    name.append("_UTC__Volume_");
    push_decimal(&mut name, volume);
    if temp {
        name.append(".temp.zstd");
    } else {
        name.append(".zstd");
    }
    proof {
        let startv = bucket_start_time as int;
        let mpbv = minutes_per_bucket as int;
        let volv = volume as int;
        assert(name@ == file_name(startv, mpbv, volv, temp));
        assert forall|s2: int, v2: int, t2: bool|
            0 <= s2 <= MAX_ARCHIVE_SECONDS && v2 >= 0 && (s2 != startv || v2 != volv || t2
                != temp) implies file_name(s2, mpbv, v2, t2) != name@ by {
            if file_name(s2, mpbv, v2, t2) == name@ {
                if s2 == startv {
                    lemma_file_name_injective(startv, mpbv, v2, volv, t2, temp);
                } else {
                    let a = second_stamp(startv);
                    let b = second_stamp(s2);
                    assert(b != a);
                    assert(a.len() == 19 && b.len() == 19);
                    if forall|k: int| 0 <= k < 19 ==> a[k] == b[k] {
                        assert(a =~= b);
                        assert(false);
                    }
                    let k = choose|k: int| 0 <= k < 19 && a[k] != b[k];
                    lemma_stamp_region(startv, mpbv, volv, temp, k);
                    lemma_stamp_region(s2, mpbv, v2, t2, k);
                    assert(false);
                }
            }
        }
    }
    name
}

/// The rollover clock: a bucket that began at `last_bucket_start` is complete
/// at `now` once a full bucket length has elapsed.
pub open spec fn time_bucket_complete_spec(
    last_bucket_start: int,
    minutes_per_bucket: int,
    now: int,
) -> bool {
    now - last_bucket_start >= 60 * minutes_per_bucket
}

/// Decides whether the bucket that began at `last_bucket_start` is over at
/// `now`, both in seconds since the Unix epoch.
pub fn time_bucket_complete(last_bucket_start: i64, minutes_per_bucket: i64, now: i64) -> (r: bool)
    requires
        0 <= last_bucket_start <= MAX_ARCHIVE_SECONDS,
        0 <= now <= MAX_ARCHIVE_SECONDS,
        1 <= minutes_per_bucket <= MAX_BUCKET_MINUTES,
    ensures
        r == time_bucket_complete_spec(
            last_bucket_start as int,
            minutes_per_bucket as int,
            now as int,
        ),
{
    now - last_bucket_start >= 60 * minutes_per_bucket
}

/// A decimal rendering is never empty, and has at least two digits for
/// `n >= 10`.
proof fn lemma_decimal_digits_len(n: nat)
    ensures
        decimal_digits(n).len() >= 1,
        n >= 10 ==> decimal_digits(n).len() >= 2,
    decreases n,
{
    if n >= 10 {
        lemma_decimal_digits_len(n / 10);
    }
}

/// The last character of a decimal rendering is a digit.
proof fn lemma_decimal_digits_last(n: nat)
    ensures
        decimal_digits(n).last() == digit_char(if n < 10 {
            n as int
        } else {
            (n % 10) as int
        }),
{
}

/// Distinct numbers have distinct decimal renderings.
proof fn lemma_decimal_digits_injective(n1: nat, n2: nat)
    requires
        decimal_digits(n1) == decimal_digits(n2),
    ensures
        n1 == n2,
    decreases n1,
{
    if n1 < 10 && n2 < 10 {
        assert(decimal_digits(n1) == seq![digit_char(n1 as int)]);
        assert(decimal_digits(n2) == seq![digit_char(n2 as int)]);
        assert(seq![digit_char(n1 as int)][0] == digit_char(n1 as int));
        assert(seq![digit_char(n2 as int)][0] == digit_char(n2 as int));
        assert(digit_char(n1 as int) == digit_char(n2 as int));
        assert(n1 == n2);
    } else if n1 < 10 {
        lemma_decimal_digits_len(n2);
        assert(false);
    } else if n2 < 10 {
        lemma_decimal_digits_len(n1);
        assert(false);
    } else {
        let s1 = decimal_digits(n1 / 10);
        let s2 = decimal_digits(n2 / 10);
        assert(s1.push(digit_char((n1 % 10) as int)).drop_last() =~= s1);
        assert(s2.push(digit_char((n2 % 10) as int)).drop_last() =~= s2);
        lemma_decimal_digits_injective(n1 / 10, n2 / 10);
        assert(decimal_digits(n1) == s1.push(digit_char((n1 % 10) as int)));
        assert(decimal_digits(n1).last() == digit_char((n1 % 10) as int));
        assert(decimal_digits(n2) == s2.push(digit_char((n2 % 10) as int)));
        assert(decimal_digits(n2).last() == digit_char((n2 % 10) as int));
        assert(digit_char((n1 % 10) as int) == digit_char((n2 % 10) as int));
        assert(n1 % 10 == n2 % 10);
        assert(n1 == n2);
    }
}

/// Within one bucket, the naming scheme is injective: two names that agree
/// must belong to the same volume index and the same finality, so no two
/// segments of a bucket, temporary or final, can collide on disk.
pub proof fn lemma_file_name_injective(start: int, minutes_per_bucket: int, v1: int, v2: int, t1: bool, t2: bool)
    requires
        v1 >= 0,
        v2 >= 0,
        file_name(start, minutes_per_bucket, v1, t1) == file_name(start, minutes_per_bucket, v2, t2),
    ensures
        v1 == v2,
        t1 == t2,
{
    reveal_strlit(".temp.zstd");
    reveal_strlit(".zstd");
    let a = "solana_data_archive__from_"@ + second_stamp(start) + "_to_"@ + minute_stamp(
        start + 60 * minutes_per_bucket,
    ) + "_UTC__Volume_"@;
    let d1 = decimal_digits(v1 as nat);
    let d2 = decimal_digits(v2 as nat);
    let name1 = file_name(start, minutes_per_bucket, v1, t1);
    let name2 = file_name(start, minutes_per_bucket, v2, t2);
    assert(name1 =~= a + d1 + name_suffix(t1));
    assert(name2 =~= a + d2 + name_suffix(t2));
    lemma_decimal_digits_len(v1 as nat);
    lemma_decimal_digits_len(v2 as nat);
    if t1 == t2 {
        assert(d1.len() == d2.len());
        assert(d1 =~= d2) by {
            assert forall|i: int| 0 <= i < d1.len() implies d1[i] == d2[i] by {
                assert((a + d1 + name_suffix(t1))[a.len() + i] == d1[i]);
                assert((a + d2 + name_suffix(t2))[a.len() + i] == d2[i]);
            }
        }
        lemma_decimal_digits_injective(v1 as nat, v2 as nat);
    } else {
        let ell = name1.len() as int;
        if t1 {
            assert(name1[ell - 6] == ".temp.zstd"@[4]);
            assert(name2[ell - 6] == d2.last());
            lemma_decimal_digits_last(v2 as nat);
        } else {
            assert(name2[ell - 6] == ".temp.zstd"@[4]);
            assert(name1[ell - 6] == d1.last());
            lemma_decimal_digits_last(v1 as nat);
        }
        assert(false);
    }
}

/// The temporary and the final name of one segment differ only by their
/// suffix: both are the same stem followed by `.temp.zstd` or `.zstd`, and
/// the two names are never equal.
pub proof fn lemma_name_differs_only_in_suffix(start: int, minutes_per_bucket: int, volume: int)
    ensures
        file_name(start, minutes_per_bucket, volume, true) == file_stem(
            start,
            minutes_per_bucket,
            volume,
        ) + ".temp.zstd"@,
        file_name(start, minutes_per_bucket, volume, false) == file_stem(
            start,
            minutes_per_bucket,
            volume,
        ) + ".zstd"@,
        file_name(start, minutes_per_bucket, volume, true) != file_name(
            start,
            minutes_per_bucket,
            volume,
            false,
        ),
{
    reveal_strlit(".temp.zstd");
    reveal_strlit(".zstd");
    assert(file_name(start, minutes_per_bucket, volume, true).len() != file_name(
        start,
        minutes_per_bucket,
        volume,
        false,
    ).len());
}

} // verus!
