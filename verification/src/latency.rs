//! Latency measurement over an external ping utility: parsing of its text
//! output into microsecond values, and the per-tick bookkeeping of the
//! ping-based probe capability. Invoking the utility itself is a
//! collaborator concern; this module owns what can be computed from its
//! output alone.

use vstd::prelude::*;

verus! {

use vstd::string::StringSliceAdditionalSpecFns;

use crate::collector::CancelToken;

/// One ICMP round-trip sample: a timestamp and a latency in microseconds,
/// `u64::MAX` meaning "no response".
#[derive(Clone, Copy, Debug, PartialEq, Eq, Structural)]
pub struct PingStat {
    pub ts: u64,
    pub latency_us: u64,
}

/// The sample a ping tick yields: the measured latency when the ping
/// succeeded, the reserved maximum sentinel when it failed — a failed ping
/// is a reported outcome, not a lost row.
pub fn ping_stat_from(ts: u64, latency_us: Option<u64>) -> (r: PingStat)
    ensures
        r.ts == ts,
        r.latency_us == (match latency_us {
            Some(l) => l,
            None => u64::MAX,
        }),
{
    match latency_us {
        Some(l) => PingStat { ts, latency_us: l },
        None => PingStat { ts, latency_us: u64::MAX },
    }
}

/// A ping attempt failed: the utility could not run, exited unsuccessfully,
/// or printed output that carries no latency.
#[derive(Clone, Copy, Debug, PartialEq, Eq, Structural)]
pub enum PingError {
    PingFailed,
}

/// The external ping utility against a fixed target, invoked once or for a
/// pair of closely spaced echoes: the collaborator behind the ping-based
/// measurements. Latencies are whole microseconds.
pub trait PingProber {
    fn ping_us(&mut self) -> Result<u64, PingError>;

    fn ping_twice_us(&mut self) -> Result<(u64, u64), PingError>;
}

/// A ping output line could not be read as a latency value.
#[derive(Clone, Copy, Debug, PartialEq, Eq, Structural)]
pub enum PingParseError {
    UnexpectedFormat,
}

pub open spec fn is_ascii_digit(b: u8) -> bool {
    48 <= b <= 57
}

pub open spec fn all_ascii_digits(s: Seq<u8>) -> bool {
    forall|i: int| 0 <= i < s.len() ==> is_ascii_digit(#[trigger] s[i])
}

/// The value of a decimal digit string, most significant digit first.
pub open spec fn dec_val(s: Seq<u8>) -> int
    decreases s.len(),
{
    if s.len() == 0 {
        0
    } else {
        dec_val(s.drop_last()) * 10 + (s.last() - 48)
    }
}

pub open spec fn pow10(k: int) -> int {
    if k <= 0 {
        1
    } else if k == 1 {
        10
    } else if k == 2 {
        100
    } else {
        1000
    }
}

/// The largest index strictly below `end` holding a space, or -1.
pub open spec fn last_space_before(bs: Seq<u8>, end: int) -> int
    decreases (if end >= 0 {
        end
    } else {
        0
    }),
{
    if end <= 0 || end > bs.len() {
        -1
    } else if bs[end - 1] == 32 {
        end - 1
    } else {
        last_space_before(bs, end - 1)
    }
}

/// The smallest index holding byte `b`, or -1.
pub open spec fn first_index_of_byte(bs: Seq<u8>, b: u8) -> int
    decreases bs.len(),
{
    if bs.len() == 0 {
        -1
    } else if bs[0] == b {
        0
    } else if first_index_of_byte(bs.skip(1), b) == -1 {
        -1
    } else {
        1 + first_index_of_byte(bs.skip(1), b)
    }
}

/// The smallest index holding a dot, or -1.
pub open spec fn first_dot(bs: Seq<u8>) -> int {
    first_index_of_byte(bs, 46)
}

/// The value, in whole microseconds, of a `<ms>[.<fraction>]` time field:
/// digits before the optional dot are milliseconds, up to three digits after
/// it are the decimal fraction. Anything else is no time field.
pub open spec fn time_field_us(np: Seq<u8>) -> Option<int> {
    let d = first_dot(np);
    if d == -1 {
        if np.len() >= 1 && all_ascii_digits(np) {
            Some(dec_val(np) * 1000)
        } else {
            None
        }
    } else {
        let ms = np.take(d);
        let fr = np.skip(d + 1);
        if ms.len() >= 1 && all_ascii_digits(ms) && 1 <= fr.len() <= 3 && all_ascii_digits(fr) {
            Some(dec_val(ms) * 1000 + pow10(3 - fr.len()) * dec_val(fr))
        } else {
            None
        }
    }
}

/// What a reply line of the ping utility means, if anything: the line must
/// open with `64 bytes from `, and its second-to-last space-separated token
/// carries the round-trip time as `time=<ms>[.<fraction>]` (the five bytes
/// before the number are not inspected, as only the field position is
/// fixed). The result is the time in whole microseconds, if it fits a `u64`.
pub open spec fn ping_line_us(bs: Seq<u8>) -> Option<int> {
    let pre = ("64 bytes from ").spec_bytes();
    if bs.len() < pre.len() || bs.subrange(0, pre.len() as int) != pre {
        None
    } else {
        let l1 = last_space_before(bs, bs.len() as int);
        let l0 = last_space_before(bs, l1);
        if l0 < 0 || l1 - l0 <= 6 {
            None
        } else {
            match time_field_us(bs.subrange(l0 + 6, l1)) {
                Some(v) => if 0 <= v <= u64::MAX {
                    Some(v)
                } else {
                    None
                },
                None => None,
            }
        }
    }
}

proof fn lemma_last_space_found(bs: Seq<u8>, i: int, end: int)
    requires
        0 <= i < end <= bs.len(),
        bs[i] == 32,
        forall|k: int| i < k < end ==> bs[k] != 32,
    ensures
        last_space_before(bs, end) == i,
    decreases end,
{
    if end - 1 > i {
        lemma_last_space_found(bs, i, end - 1);
    }
}

proof fn lemma_no_space_before(bs: Seq<u8>, end: int)
    requires
        end <= bs.len(),
        forall|k: int| 0 <= k < end ==> bs[k] != 32,
    ensures
        last_space_before(bs, end) == -1,
    decreases (if end >= 0 {
        end
    } else {
        0
    }),
{
    if end > 0 {
        lemma_no_space_before(bs, end - 1);
    }
}

pub(crate) proof fn lemma_first_byte_at(s: Seq<u8>, b: u8, d: int)
    requires
        0 <= d < s.len(),
        s[d] == b,
        forall|k: int| 0 <= k < d ==> s[k] != b,
    ensures
        first_index_of_byte(s, b) == d,
    decreases d,
{
    if d > 0 {
        let rest = s.skip(1);
        assert forall|k: int| 0 <= k < d - 1 implies rest[k] != b by {
            assert(rest[k] == s[k + 1]);
        }
        assert(rest[d - 1] == s[d]);
        lemma_first_byte_at(rest, b, d - 1);
    }
}

pub(crate) proof fn lemma_no_byte(s: Seq<u8>, b: u8)
    requires
        forall|k: int| 0 <= k < s.len() ==> s[k] != b,
    ensures
        first_index_of_byte(s, b) == -1,
    decreases s.len(),
{
    if s.len() > 0 {
        let rest = s.skip(1);
        assert forall|k: int| 0 <= k < rest.len() implies rest[k] != b by {
            assert(rest[k] == s[k + 1]);
        }
        lemma_no_byte(rest, b);
    }
}

proof fn lemma_dec_val_nonneg(s: Seq<u8>)
    requires
        all_ascii_digits(s),
    ensures
        dec_val(s) >= 0,
    decreases s.len(),
{
    if s.len() > 0 {
        assert(all_ascii_digits(s.drop_last())) by {
            assert forall|i: int| 0 <= i < s.len() - 1 implies is_ascii_digit(
                #[trigger] s.drop_last()[i],
            ) by {
                assert(s.drop_last()[i] == s[i]);
            }
        }
        lemma_dec_val_nonneg(s.drop_last());
        assert(is_ascii_digit(s.last()));
    }
}

proof fn lemma_dec_val_prefix_le(s: Seq<u8>, k: int)
    requires
        all_ascii_digits(s),
        0 <= k <= s.len(),
    ensures
        dec_val(s.take(k)) <= dec_val(s),
    decreases s.len() - k,
{
    if k < s.len() {
        let t = s.take(k + 1);
        assert(all_ascii_digits(t)) by {
            assert forall|i: int| 0 <= i < t.len() implies is_ascii_digit(#[trigger] t[i]) by {
                assert(t[i] == s[i]);
            }
        }
        assert(t.drop_last() =~= s.take(k));
        assert(dec_val(t) == dec_val(s.take(k)) * 10 + (t.last() - 48));
        assert(all_ascii_digits(s.take(k))) by {
            assert forall|i: int| 0 <= i < k implies is_ascii_digit(#[trigger] s.take(k)[i]) by {
                assert(s.take(k)[i] == s[i]);
            }
        }
        lemma_dec_val_nonneg(s.take(k));
        lemma_dec_val_prefix_le(s, k + 1);
    } else {
        assert(s.take(k) =~= s);
    }
}

proof fn lemma_dec_val_small(s: Seq<u8>)
    requires
        all_ascii_digits(s),
        s.len() <= 3,
    ensures
        0 <= dec_val(s) <= 999,
        s.len() <= 2 ==> dec_val(s) <= 99,
        s.len() <= 1 ==> dec_val(s) <= 9,
    decreases s.len(),
{
    if s.len() > 0 {
        assert(all_ascii_digits(s.drop_last())) by {
            assert forall|i: int| 0 <= i < s.len() - 1 implies is_ascii_digit(
                #[trigger] s.drop_last()[i],
            ) by {
                assert(s.drop_last()[i] == s[i]);
            }
        }
        lemma_dec_val_small(s.drop_last());
        assert(is_ascii_digit(s.last()));
    }
}

/// Copy `bs[lo..hi]` into a fresh buffer.
pub(crate) fn copy_range(bs: &[u8], lo: usize, hi: usize) -> (v: Vec<u8>)
    requires
        lo <= hi <= bs@.len(),
    ensures
        v@ == bs@.subrange(lo as int, hi as int),
{
    let mut v: Vec<u8> = Vec::new();
    let mut i = lo;
    while i < hi
        invariant
            lo <= i <= hi <= bs@.len(),
            v@ == bs@.subrange(lo as int, i as int),
        decreases hi - i,
    {
        let b = bs[i];
        v.push(b);
        proof {
            assert(v@ =~= bs@.subrange(lo as int, i + 1));
        }
        i += 1;
    }
    v
}

/// The largest index strictly below `end` holding a space.
fn find_last_space(bs: &[u8], end: usize) -> (r: Option<usize>)
    requires
        end <= bs@.len(),
    ensures
        match r {
            Some(i) => i < end && i == last_space_before(bs@, end as int),
            None => last_space_before(bs@, end as int) == -1,
        },
{
    let mut j = end;
    while j > 0
        invariant
            j <= end <= bs@.len(),
            forall|k: int| j <= k < end ==> bs@[k] != 32,
        decreases j,
    {
        j -= 1;
        if bs[j] == 32 {
            proof {
                lemma_last_space_found(bs@, j as int, end as int);
            }
            return Some(j);
        }
    }
    proof {
        lemma_no_space_before(bs@, end as int);
    }
    None
}

/// The smallest index holding byte `b`.
pub(crate) fn find_first_byte(v: &Vec<u8>, b: u8) -> (r: Option<usize>)
    ensures
        match r {
            Some(d) => d < v@.len() && d == first_index_of_byte(v@, b),
            None => first_index_of_byte(v@, b) == -1,
        },
{
    let mut i: usize = 0;
    while i < v.len()
        invariant
            i <= v@.len(),
            forall|k: int| 0 <= k < i ==> v@[k] != b,
        decreases v@.len() - i,
    {
        if v[i] == b {
            proof {
                lemma_first_byte_at(v@, b, i as int);
            }
            return Some(i);
        }
        i += 1;
    }
    proof {
        lemma_no_byte(v@, b);
    }
    None
}

/// Read `v[lo..hi]` as a decimal number. `None` when the range is empty,
/// holds a non-digit, or its value does not fit a `u64`.
pub(crate) fn parse_decimal(v: &Vec<u8>, lo: usize, hi: usize) -> (r: Option<u64>)
    requires
        lo <= hi <= v@.len(),
    ensures
        ({
            let s = v@.subrange(lo as int, hi as int);
            match r {
                Some(n) => hi > lo && all_ascii_digits(s) && n == dec_val(s),
                None => hi == lo || !all_ascii_digits(s) || dec_val(s) > u64::MAX,
            }
        }),
{
    let ghost s = v@.subrange(lo as int, hi as int);
    if lo == hi {
        return None;
    }
    let mut val: u64 = 0;
    let mut i = lo;
    while i < hi
        invariant
            lo <= i <= hi <= v@.len(),
            s == v@.subrange(lo as int, hi as int),
            all_ascii_digits(s.take(i - lo)),
            val == dec_val(s.take(i - lo)),
        decreases hi - i,
    {
        let b = v[i];
        if !(48 <= b && b <= 57) {
            proof {
                assert(s[i - lo] == b);
                assert(!is_ascii_digit(s[i - lo]));
            }
            return None;
        }
        let ghost k = i - lo;
        proof {
            assert(s.take(k + 1).drop_last() =~= s.take(k));
            assert(s.take(k + 1).last() == s[k]);
            assert(s[k] == b);
            assert(all_ascii_digits(s.take(k + 1))) by {
                assert forall|t: int| 0 <= t < k + 1 implies is_ascii_digit(
                    #[trigger] s.take(k + 1)[t],
                ) by {
                    if t < k {
                        assert(s.take(k + 1)[t] == s.take(k)[t]);
                    }
                }
            }
        }
        let step = match val.checked_mul(10) {
            Some(m) => m.checked_add((b - 48) as u64),
            None => None,
        };
        match step {
            Some(m) => {
                val = m;
            },
            None => {
                proof {
                    assert(dec_val(s.take(k + 1)) == dec_val(s.take(k)) * 10 + (b - 48));
                    assert(dec_val(s.take(k + 1)) > u64::MAX);
                    if all_ascii_digits(s) {
                        lemma_dec_val_prefix_le(s, k + 1);
                    }
                }
                return None;
            },
        }
        i += 1;
    }
    proof {
        assert(s.take(hi - lo) =~= s);
    }
    Some(val)
}

/// Exact power-of-ten scaling for a decimal fraction of up to three digits.
fn pow10_of(k: u64) -> (r: u64)
    requires
        k <= 3,
    ensures
        r == pow10(k as int),
{
    if k == 0 {
        1
    } else if k == 1 {
        10
    } else if k == 2 {
        100
    } else {
        1000
    }
}

/// Turn one reply line of the ping utility, such as
/// `64 bytes from 127.0.0.1: icmp_seq=1 ttl=64 time=0.053 ms`,
/// into the round-trip time in whole microseconds (53 here).
pub fn parse_ping_output_line(line: &str) -> (r: Result<u64, PingParseError>)
    ensures
        r == (match ping_line_us(line.spec_bytes()) {
            Some(v) => Ok::<u64, PingParseError>(v as u64),
            None => Err::<u64, PingParseError>(PingParseError::UnexpectedFormat),
        }),
{
    let bs = line.as_bytes();
    let pre = "64 bytes from ".as_bytes();
    let ghost pre_s = ("64 bytes from ").spec_bytes();
    if bs.len() < pre.len() {
        return Err(PingParseError::UnexpectedFormat);
    }
    let mut i: usize = 0;
    while i < pre.len()
        invariant
            bs@ == line.spec_bytes(),
            pre_s == ("64 bytes from ").spec_bytes(),
            pre@ == pre_s,
            pre_s.len() <= bs@.len(),
            i <= pre@.len(),
            forall|k: int| 0 <= k < i ==> bs@[k] == pre@[k],
        decreases pre@.len() - i,
    {
        if bs[i] != pre[i] {
            proof {
                assert(pre@ == pre_s);
                assert(bs@.subrange(0, pre_s.len() as int)[i as int] != pre_s[i as int]);
                assert(bs@.subrange(0, pre_s.len() as int) != pre_s);
                assert(ping_line_us(line.spec_bytes()) is None);
            }
            return Err(PingParseError::UnexpectedFormat);
        }
        i += 1;
    }
    proof {
        assert(bs@.subrange(0, pre_s.len() as int) =~= pre_s);
    }
    let l1 = match find_last_space(bs, bs.len()) {
        Some(i1) => i1,
        None => {
            return Err(PingParseError::UnexpectedFormat);
        },
    };
    let l0 = match find_last_space(bs, l1) {
        Some(i0) => i0,
        None => {
            return Err(PingParseError::UnexpectedFormat);
        },
    };
    if l1 - l0 <= 6 {
        return Err(PingParseError::UnexpectedFormat);
    }
    let np = copy_range(bs, l0 + 6, l1);
    let ghost npv = bs@.subrange(l0 + 6, l1 as int);
    let ms_ok: Option<u64>;
    let scaled_frac: u64;
    match find_first_byte(&np, 46) {
        None => {
            ms_ok = parse_decimal(&np, 0, np.len());
            scaled_frac = 0;
            proof {
                assert(npv.subrange(0, npv.len() as int) =~= npv);
            }
        },
        Some(d) => {
            let fr_len = np.len() - (d + 1);
            if fr_len < 1 || fr_len > 3 {
                return Err(PingParseError::UnexpectedFormat);
            }
            let fr_ok = parse_decimal(&np, d + 1, np.len());
            proof {
                assert(npv.subrange(d + 1, npv.len() as int) =~= npv.skip(d + 1));
            }
            let fr = match fr_ok {
                Some(f) => f,
                None => {
                    proof {
                        // a short digit range never overflows a u64
                        if all_ascii_digits(npv.skip(d + 1)) {
                            lemma_dec_val_small(npv.skip(d + 1));
                        }
                    }
                    return Err(PingParseError::UnexpectedFormat);
                },
            };
            proof {
                lemma_dec_val_small(npv.skip(d + 1));
            }
            let p = pow10_of(3 - (fr_len as u64));
            proof {
                assert(p <= 1000);
                assert(fr <= 999);
            }
            scaled_frac = p * fr;
            ms_ok = parse_decimal(&np, 0, d);
            proof {
                assert(npv.subrange(0, d as int) =~= npv.take(d as int));
            }
        },
    }
    let ms = match ms_ok {
        Some(m) => m,
        None => {
            return Err(PingParseError::UnexpectedFormat);
        },
    };
    let base = match ms.checked_mul(1000) {
        Some(b) => b,
        None => {
            return Err(PingParseError::UnexpectedFormat);
        },
    };
    match base.checked_add(scaled_frac) {
        Some(total) => Ok(total),
        None => Err(PingParseError::UnexpectedFormat),
    }
}

/// The round trips carried by the ping utility's whole output: after the
/// header line, one reply line per echo. Exactly `count` replies must be
/// present and each must parse; the values come back in reply order.
pub fn parse_ping_replies(lines: &Vec<&str>, count: usize) -> (r: Result<Vec<u64>, PingParseError>)
    ensures
        r matches Ok(v) ==> {
            &&& lines@.len() >= count + 1
            &&& v@.len() == count
            &&& forall|i: int|
                0 <= i < count ==> ping_line_us(#[trigger] lines@[i + 1].spec_bytes()) == Some(
                    v@[i] as int,
                )
        },
        r is Err ==> lines@.len() < count + 1 || exists|i: int|
            0 <= i < count && ping_line_us(#[trigger] lines@[i + 1].spec_bytes()) is None,
{
    if count >= lines.len() {
        return Err(PingParseError::UnexpectedFormat);
    }
    let mut v: Vec<u64> = Vec::new();
    let mut i: usize = 0;
    while i < count
        invariant
            i <= count,
            count + 1 <= lines@.len(),
            v@.len() == i,
            forall|k: int|
                0 <= k < i ==> ping_line_us(#[trigger] lines@[k + 1].spec_bytes()) == Some(
                    v@[k] as int,
                ),
        decreases count - i,
    {
        match parse_ping_output_line(lines[i + 1]) {
            Ok(us) => {
                v.push(us);
            },
            Err(e) => {
                return Err(e);
            },
        }
        i += 1;
    }
    Ok(v)
}

/// The latency difference of two back-to-back pings: the first installs or
/// refreshes the flow, so the difference isolates the data plane's
/// first-packet cost. Fails when either ping fails.
pub fn ping_difference<P: PingProber>(prober: &mut P) -> Result<u64, PingError> {
    let first = match prober.ping_us() {
        Ok(d) => d,
        Err(e) => {
            return Err(e);
        },
    };
    let second = match prober.ping_us() {
        Ok(d) => d,
        Err(e) => {
            return Err(e);
        },
    };
    Ok(crate::abs_diff(first, second))
}

/// A series of `cnt` ping-difference samples, one warm-up ping first (its
/// outcome discarded: it only inserts the flow), each sample preceded by the
/// given idle wait. Fails with the first failing sample.
pub fn measurement<P: PingProber, C: CancelToken>(
    prober: &mut P,
    token: &mut C,
    cnt: usize,
    time_in_between_ns: u64,
) -> (r: Result<Vec<u64>, PingError>)
    ensures
        r matches Ok(v) ==> v@.len() == cnt,
{
    let _ = prober.ping_us();
    let mut results: Vec<u64> = Vec::new();
    let mut i: usize = 0;
    while i < cnt
        invariant
            i <= cnt,
            results@.len() == i,
        decreases cnt - i,
    {
        let _ = token.wait_cancelled_ns(time_in_between_ns);
        match ping_difference(prober) {
            Ok(d) => {
                results.push(d);
            },
            Err(e) => {
                return Err(e);
            },
        }
        i += 1;
    }
    Ok(results)
}

} // verus!
