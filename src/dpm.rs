//! Clock levels as the power-management files of sysfs list them, one level
//! per line, such as `0: 214Mhz *`.
use vstd::prelude::*;
use vstd::string::StringSliceAdditionalSpecFns;

verus! {

/// End of the space-separated token that starts at `i`.
pub open spec fn token_end(t: Seq<u8>, i: int) -> int
    decreases t.len() - i,
{
    if i >= t.len() {
        t.len() as int
    } else if t[i] == 32 {
        i
    } else {
        token_end(t, i + 1)
    }
}

/// Whether `t[s..e]` ends with `Mhz`.
pub open spec fn ends_with_mhz(t: Seq<u8>, s: int, e: int) -> bool {
    e - s >= 3 && t[e - 3] == 77 && t[e - 2] == 104 && t[e - 1] == 122
}

/// End of `t[s..e]` once every trailing `Mhz` is cut off.
pub open spec fn strip_mhz(t: Seq<u8>, s: int, e: int) -> int
    decreases e - s,
{
    if ends_with_mhz(t, s, e) {
        strip_mhz(t, s, e - 3)
    } else {
        e
    }
}

/// The number part of the last token from `i` on that ends with `Mhz`, or
/// `found` where none does.
pub open spec fn last_mhz_token(t: Seq<u8>, i: int, found: Option<(int, int)>) -> Option<(int, int)>
    decreases t.len() - i,
{
    if i < 0 || i > t.len() {
        found
    } else {
        let e = token_end(t, i);
        let now = if ends_with_mhz(t, i, e) { Some((i, strip_mhz(t, i, e))) } else { found };
        if i <= e < t.len() {
            last_mhz_token(t, e + 1, now)
        } else {
            now
        }
    }
}

/// Value of the decimal digits `t[a..b]`; `None` where one is no digit.
pub open spec fn dec_value(t: Seq<u8>, a: int, b: int) -> Option<nat>
    decreases b - a,
{
    if b <= a {
        Some(0)
    } else {
        match dec_value(t, a, b - 1) {
            Some(v) => if 48 <= t[b - 1] <= 57 { Some(v * 10 + (t[b - 1] - 48) as nat) } else { None },
            None => None,
        }
    }
}

/// The `u64` that `t[a..b]` spells: an optional `+` and at least one decimal digit.
pub open spec fn parse_u64(t: Seq<u8>, a: int, b: int) -> Option<u64> {
    let a1 = if a < b && t[a] == 43 { a + 1 } else { a };
    if a1 < b {
        match dec_value(t, a1, b) {
            Some(v) => if v <= u64::MAX { Some(v as u64) } else { None },
            None => None,
        }
    } else {
        None
    }
}

/// The clock of a level line: the number before `Mhz` in its last token
/// that ends so.
pub open spec fn dpm_clock_of(t: Seq<u8>) -> Option<u64> {
    match last_mhz_token(t, 0, None) {
        Some((a, b)) => parse_u64(t, a, b),
        None => None,
    }
}

fn token_end_exec(t: &[u8], i: usize) -> (r: usize)
    requires
        i <= t@.len(),
    ensures
        r == token_end(t@, i as int),
        i <= r <= t@.len(),
{
    let mut k = i;
    while k < t.len() && t[k] != 32
        invariant
            i <= k <= t@.len(),
            token_end(t@, k as int) == token_end(t@, i as int),
        decreases t@.len() - k,
    {
        k = k + 1;
    }
    k
}

fn ends_with_mhz_exec(t: &[u8], s: usize, e: usize) -> (r: bool)
    requires
        s <= e <= t@.len(),
    ensures
        r == ends_with_mhz(t@, s as int, e as int),
{
    e - s >= 3 && t[e - 3] == 77 && t[e - 2] == 104 && t[e - 1] == 122
}

fn strip_mhz_exec(t: &[u8], s: usize, e: usize) -> (r: usize)
    requires
        s <= e <= t@.len(),
    ensures
        r == strip_mhz(t@, s as int, e as int),
        s <= r <= e,
{
    let mut k = e;
    while ends_with_mhz_exec(t, s, k)
        invariant
            s <= k <= e,
            e <= t@.len(),
            strip_mhz(t@, s as int, k as int) == strip_mhz(t@, s as int, e as int),
        decreases k,
    {
        k = k - 3;
    }
    k
}

/// Once a prefix of the digits fails or has a value, the whole fails or
/// has a value at least as large.
proof fn lemma_dec_value_grows(t: Seq<u8>, a: int, k: int, b: int)
    requires
        a <= k <= b,
    ensures
        dec_value(t, a, k) is None ==> dec_value(t, a, b) is None,
        dec_value(t, a, k) matches Some(v) ==> (dec_value(t, a, b) is None || dec_value(
            t,
            a,
            b,
        )->0 >= v),
    decreases b - k,
{
    if k < b {
        lemma_dec_value_grows(t, a, k, b - 1);
    }
}

fn parse_u64_exec(t: &[u8], a: usize, b: usize) -> (r: Option<u64>)
    requires
        a <= b <= t@.len(),
    ensures
        r == parse_u64(t@, a as int, b as int),
{
    let a1 = if a < b && t[a] == 43 { a + 1 } else { a };
    if a1 >= b {
        return None;
    }
    assert(parse_u64(t@, a as int, b as int) == match dec_value(t@, a1 as int, b as int) {
        Some(v) => if v <= u64::MAX { Some(v as u64) } else { None },
        None => None,
    });
    let mut acc: u64 = 0;
    let mut k = a1;
    while k < b
        invariant
            a1 <= k <= b <= t@.len(),
            dec_value(t@, a1 as int, k as int) == Some(acc as nat),
            parse_u64(t@, a as int, b as int) == match dec_value(t@, a1 as int, b as int) {
                Some(v) => if v <= u64::MAX { Some(v as u64) } else { None },
                None => None,
            },
        decreases b - k,
    {
        let c = t[k];
        if c < 48 || c > 57 {
            proof {
                assert(dec_value(t@, a1 as int, k + 1) is None);
                lemma_dec_value_grows(t@, a1 as int, k + 1, b as int);
            }
            return None;
        }
        let d = (c - 48) as u64;
        if acc > (u64::MAX - d) / 10 {
            proof {
                assert(acc * 10 + d > u64::MAX) by (nonlinear_arith)
                    requires
                        acc > (u64::MAX - d) / 10,
                        d <= 9,
                ;
                assert(dec_value(t@, a1 as int, k + 1) == Some((acc * 10 + d) as nat));
                lemma_dec_value_grows(t@, a1 as int, k + 1, b as int);
            }
            return None;
        }
        acc = acc * 10 + d;
        k = k + 1;
    }
    Some(acc)
}

/// The clock in MHz of one level line (`0: 214Mhz *` gives 214): the last
/// space-separated token that ends with `Mhz`, with every trailing `Mhz` cut
/// off, read as a decimal number. `None` where no token ends so or the
/// number does not parse.
pub fn trim_dpm_clk(line: &str) -> (r: Option<u64>)
    ensures
        r == dpm_clock_of(line.spec_bytes()),
{
    let t = line.as_bytes();
    let mut found: Option<(usize, usize)> = None;
    let mut i: usize = 0;
    loop
        invariant
            i <= t@.len(),
            last_mhz_token(t@, i as int, token_range(found)) == last_mhz_token(t@, 0, None),
            found matches Some((a, b)) ==> a <= b <= t@.len(),
        ensures
            token_range(found) == last_mhz_token(t@, 0, None),
            found matches Some((a, b)) ==> a <= b <= t@.len(),
        decreases t@.len() - i,
    {
        let e = token_end_exec(t, i);
        if ends_with_mhz_exec(t, i, e) {
            found = Some((i, strip_mhz_exec(t, i, e)));
        }
        if e >= t.len() {
            break;
        }
        i = e + 1;
    }
    match found {
        Some((a, b)) => parse_u64_exec(t, a, b),
        None => None,
    }
}

/// A token range as the scan holds it.
pub open spec fn token_range(r: Option<(usize, usize)>) -> Option<(int, int)> {
    match r {
        Some((a, b)) => Some((a as int, b as int)),
        None => None,
    }
}

} // verus!
