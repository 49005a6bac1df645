//! The device-id name table: marketing names by PCI device id and revision id,
//! kept as line-oriented text. Lines that start with `#` are comments; a data
//! line reads `device_id<TAB>revision_id<TAB>name`, the ids in hexadecimal
//! without a prefix. A comma may stand before each tab, as in libdrm's
//! `amdgpu.ids` (`1002,<TAB>C1,<TAB>name`).
use vstd::prelude::*;
use vstd::string::StringSliceAdditionalSpecFns;
use vstd::utf8::{
    encode_utf8, encode_utf8_valid_utf8, is_char_boundary, is_char_boundary_iff_not_is_continuation_byte,
    is_char_boundary_start_end_of_seq, valid_utf8, valid_utf8_split,
};

verus! {

/// End of the line that starts at `i`: the index of the next newline, or the
/// length of the text.
pub open spec fn line_end(t: Seq<u8>, i: int) -> int
    decreases t.len() - i,
{
    if i >= t.len() {
        t.len() as int
    } else if t[i] == 10 {
        i
    } else {
        line_end(t, i + 1)
    }
}

/// Index of the first tab in `i..end`, or `end` where there is none.
pub open spec fn find_tab(t: Seq<u8>, i: int, end: int) -> int
    decreases end - i,
{
    if i >= end {
        end
    } else if t[i] == 9 {
        i
    } else {
        find_tab(t, i + 1, end)
    }
}

/// End of the field that starts at `i` and is closed by the tab (or line
/// end) at `k`: a comma just before the tab is no part of it.
pub open spec fn field_end(t: Seq<u8>, i: int, k: int) -> int {
    if k > i && t[k - 1] == 44 {
        k - 1
    } else {
        k
    }
}

/// Value of a hexadecimal digit, in either case.
pub open spec fn hex_digit(c: u8) -> Option<nat> {
    if 48 <= c <= 57 {
        Some((c - 48) as nat)
    } else if 97 <= c <= 102 {
        Some((c - 87) as nat)
    } else if 65 <= c <= 70 {
        Some((c - 55) as nat)
    } else {
        None
    }
}

/// Value of the hexadecimal digits `t[a..b]`; `None` where one is no digit.
pub open spec fn hex_value(t: Seq<u8>, a: int, b: int) -> Option<nat>
    decreases b - a,
{
    if b <= a {
        Some(0)
    } else {
        match (hex_value(t, a, b - 1), hex_digit(t[b - 1])) {
            (Some(v), Some(d)) => Some(v * 16 + d),
            _ => None,
        }
    }
}

/// The `u32` that the non-empty hexadecimal field `t[a..b]` spells, if any.
pub open spec fn parse_hex(t: Seq<u8>, a: int, b: int) -> Option<u32> {
    if a < b {
        match hex_value(t, a, b) {
            Some(v) => if v <= u32::MAX { Some(v as u32) } else { None },
            None => None,
        }
    } else {
        None
    }
}

/// ASCII white space.
pub open spec fn is_space(c: u8) -> bool {
    c == 32 || c == 9 || c == 10 || c == 11 || c == 12 || c == 13
}

/// End of `t[a..b]` once trailing white space is cut off.
pub open spec fn trim_end(t: Seq<u8>, a: int, b: int) -> int
    decreases b - a,
{
    if b > a && is_space(t[b - 1]) {
        trim_end(t, a, b - 1)
    } else {
        b
    }
}

/// The entry of the line `t[i..e]`: device id, revision id, and where the
/// name starts and ends. The name runs from the second tab to the next tab
/// or the end of the line, less a comma before that tab and trailing white
/// space. Lines without two tabs, or whose ids do not parse, have none.
pub open spec fn entry_at(t: Seq<u8>, i: int, e: int) -> Option<(u32, u32, int, int)> {
    let s1 = find_tab(t, i, e);
    if s1 >= e {
        None
    } else {
        let s2 = find_tab(t, s1 + 1, e);
        if s2 >= e {
            None
        } else {
            let s3 = find_tab(t, s2 + 1, e);
            match (parse_hex(t, i, field_end(t, i, s1)), parse_hex(t, s1 + 1, field_end(t, s1 + 1, s2))) {
                (Some(d), Some(r)) => Some((d, r, s2 + 1, trim_end(t, s2 + 1, field_end(t, s2 + 1, s3)))),
                _ => None,
            }
        }
    }
}

/// Where the name of the first entry from the line at `i` on with the given
/// ids lies, if any line has one.
pub open spec fn lookup_from(t: Seq<u8>, i: int, device_id: u32, revision_id: u32) -> Option<(int, int)>
    decreases t.len() - i,
{
    if i < 0 || i >= t.len() {
        None
    } else {
        let e = line_end(t, i);
        let here = match entry_at(t, i, e) {
            Some((d, r, a, b)) => if d == device_id && r == revision_id {
                Some((a, b))
            } else {
                None
            },
            None => None,
        };
        if here is Some {
            here
        } else if i <= e < t.len() {
            lookup_from(t, e + 1, device_id, revision_id)
        } else {
            None
        }
    }
}

/// A name range as the lookup's result gives it.
pub open spec fn range_of(r: Option<(usize, usize)>) -> Option<(int, int)> {
    match r {
        Some((a, b)) => Some((a as int, b as int)),
        None => None,
    }
}

fn line_end_exec(t: &[u8], i: usize) -> (r: usize)
    requires
        i <= t@.len(),
    ensures
        r == line_end(t@, i as int),
        i <= r <= t@.len(),
        r < t@.len() ==> t@[r as int] == 10,
{
    let mut k = i;
    while k < t.len() && t[k] != 10
        invariant
            i <= k <= t@.len(),
            line_end(t@, k as int) == line_end(t@, i as int),
        decreases t@.len() - k,
    {
        k = k + 1;
    }
    k
}

fn find_tab_exec(t: &[u8], i: usize, end: usize) -> (r: usize)
    requires
        i <= end <= t@.len(),
    ensures
        r == find_tab(t@, i as int, end as int),
        i <= r <= end,
        r < end ==> t@[r as int] == 9,
{
    let mut k = i;
    while k < end && t[k] != 9
        invariant
            i <= k <= end,
            end <= t@.len(),
            find_tab(t@, k as int, end as int) == find_tab(t@, i as int, end as int),
        decreases end - k,
    {
        k = k + 1;
    }
    k
}

fn field_end_exec(t: &[u8], i: usize, k: usize) -> (r: usize)
    requires
        i <= k <= t@.len(),
    ensures
        r == field_end(t@, i as int, k as int),
        i <= r <= k,
        r < k ==> t@[r as int] == 44,
{
    if k > i && t[k - 1] == 44 {
        k - 1
    } else {
        k
    }
}

fn hex_digit_exec(c: u8) -> (r: Option<u32>)
    ensures
        match hex_digit(c) {
            Some(d) => r == Some(d as u32),
            None => r is None,
        },
{
    if 48 <= c && c <= 57 {
        Some((c - 48) as u32)
    } else if 97 <= c && c <= 102 {
        Some((c - 87) as u32)
    } else if 65 <= c && c <= 70 {
        Some((c - 55) as u32)
    } else {
        None
    }
}

/// Once a prefix of the digits fails or has a value, the whole fails or
/// has a value at least as large.
proof fn lemma_hex_value_grows(t: Seq<u8>, a: int, k: int, b: int)
    requires
        a <= k <= b,
    ensures
        hex_value(t, a, k) is None ==> hex_value(t, a, b) is None,
        hex_value(t, a, k) matches Some(v) ==> (hex_value(t, a, b) is None || hex_value(
            t,
            a,
            b,
        )->0 >= v),
    decreases b - k,
{
    if k < b {
        lemma_hex_value_grows(t, a, k, b - 1);
    }
}

fn parse_hex_exec(t: &[u8], a: usize, b: usize) -> (r: Option<u32>)
    requires
        a <= b <= t@.len(),
    ensures
        r == parse_hex(t@, a as int, b as int),
{
    if a >= b {
        return None;
    }
    let mut acc: u32 = 0;
    let mut k = a;
    while k < b
        invariant
            a <= k <= b <= t@.len(),
            hex_value(t@, a as int, k as int) == Some(acc as nat),
        decreases b - k,
    {
        let d = match hex_digit_exec(t[k]) {
            Some(d) => d,
            None => {
                proof { lemma_hex_value_grows(t@, a as int, k + 1, b as int); }
                return None;
            },
        };
        if acc > (u32::MAX - d) / 16 {
            proof { lemma_hex_value_grows(t@, a as int, k + 1, b as int); }
            return None;
        }
        acc = acc * 16 + d;
        k = k + 1;
    }
    Some(acc)
}

fn trim_end_exec(t: &[u8], a: usize, b: usize) -> (r: usize)
    requires
        a <= b <= t@.len(),
    ensures
        r == trim_end(t@, a as int, b as int),
        a <= r <= b,
        r < b ==> is_space(t@[r as int]),
{
    let mut k = b;
    while k > a && (t[k - 1] == 32 || t[k - 1] == 9 || t[k - 1] == 10 || t[k - 1] == 11
        || t[k - 1] == 12 || t[k - 1] == 13)
        invariant
            a <= k <= b,
            b <= t@.len(),
            trim_end(t@, a as int, k as int) == trim_end(t@, a as int, b as int),
            k < b ==> is_space(t@[k as int]),
        decreases k,
    {
        k = k - 1;
    }
    k
}

fn entry_exec(t: &[u8], i: usize, e: usize) -> (r: Option<(u32, u32, usize, usize)>)
    requires
        i <= e <= t@.len(),
    ensures
        match entry_at(t@, i as int, e as int) {
            Some((d, rv, a, b)) => {
                &&& r == Some((d, rv, a as usize, b as usize))
                &&& i < a <= b <= e
                &&& t@[a - 1] == 9
                &&& b < e ==> t@[b] < 128
            },
            None => r is None,
        },
{
    let s1 = find_tab_exec(t, i, e);
    if s1 >= e {
        return None;
    }
    let s2 = find_tab_exec(t, s1 + 1, e);
    if s2 >= e {
        return None;
    }
    let s3 = find_tab_exec(t, s2 + 1, e);
    let d = parse_hex_exec(t, i, field_end_exec(t, i, s1));
    let rv = parse_hex_exec(t, s1 + 1, field_end_exec(t, s1 + 1, s2));
    match (d, rv) {
        (Some(d), Some(rv)) => {
            let name_end = field_end_exec(t, s2 + 1, s3);
            Some((d, rv, s2 + 1, trim_end_exec(t, s2 + 1, name_end)))
        },
        _ => None,
    }
}

/// Where, in the table text `ids`, the name of the first entry with the
/// given device and revision ids lies; `None` where no entry has them.
pub fn find_device_name(ids: &[u8], device_id: u32, revision_id: u32) -> (r: Option<(usize, usize)>)
    ensures
        range_of(r) == lookup_from(ids@, 0, device_id, revision_id),
        r matches Some((a, b)) ==> {
            &&& 0 < a <= b <= ids@.len()
            &&& ids@[a - 1] < 128
            &&& b < ids@.len() ==> ids@[b as int] < 128
        },
{
    let mut i: usize = 0;
    while i < ids.len()
        invariant
            i <= ids@.len(),
            lookup_from(ids@, i as int, device_id, revision_id) == lookup_from(ids@, 0, device_id, revision_id),
        decreases ids@.len() - i,
    {
        let e = line_end_exec(ids, i);
        match entry_exec(ids, i, e) {
            Some((d, rv, a, b)) => {
                if d == device_id && rv == revision_id {
                    return Some((a, b));
                }
            },
            None => {},
        }
        if e >= ids.len() {
            return None;
        }
        i = e + 1;
    }
    None
}

/// In valid UTF-8, the byte after an ASCII byte starts a character.
proof fn lemma_boundary_after_ascii(t: Seq<u8>, k: int)
    requires
        valid_utf8(t),
        0 < k <= t.len(),
        t[k - 1] < 128,
    ensures
        is_char_boundary(t, k),
{
    if k == t.len() {
        is_char_boundary_start_end_of_seq(t);
    } else {
        is_char_boundary_iff_not_is_continuation_byte(t, k - 1);
        valid_utf8_split(t, k - 1);
        let u = t.subrange(k - 1, t.len() as int);
        assert(u.len() > 0);
        let w = t.subrange(k, t.len() as int);
        assert(u.subrange(1, u.len() as int) =~= w);
        assert(valid_utf8(w));
        is_char_boundary_iff_not_is_continuation_byte(w, 0);
        is_char_boundary_iff_not_is_continuation_byte(t, k);
    }
}

/// Where a byte is ASCII, a character starts there.
proof fn lemma_boundary_at_ascii(t: Seq<u8>, k: int)
    requires
        valid_utf8(t),
        0 <= k <= t.len(),
        k < t.len() ==> t[k] < 128,
    ensures
        is_char_boundary(t, k),
{
    if k == t.len() {
        is_char_boundary_start_end_of_seq(t);
    } else {
        is_char_boundary_iff_not_is_continuation_byte(t, k);
    }
}

/// The name of the first entry of the table text `ids` with the given
/// device and revision ids; `None` where no entry has them.
pub fn lookup_device_name(ids: &str, device_id: u32, revision_id: u32) -> (r: Option<String>)
    ensures
        match lookup_from(ids.spec_bytes(), 0, device_id, revision_id) {
            Some((a, b)) => r matches Some(name) && encode_utf8(name@) == ids.spec_bytes().subrange(a, b),
            None => r is None,
        },
{
    let bytes = ids.as_bytes();
    match find_device_name(bytes, device_id, revision_id) {
        Some((a, b)) => {
            let ghost t = ids.spec_bytes();
            proof {
                encode_utf8_valid_utf8(ids@);
                lemma_boundary_at_ascii(t, b as int);
            }
            let (head, _) = ids.split_at(b);
            proof {
                let h = head.spec_bytes();
                encode_utf8_valid_utf8(head@);
                assert(h =~= t.subrange(0, b as int));
                if a < b {
                    lemma_boundary_after_ascii(h, a as int);
                } else {
                    is_char_boundary_start_end_of_seq(h);
                }
            }
            let (_, name) = head.split_at(a);
            proof {
                assert(name.spec_bytes() =~= t.subrange(a as int, b as int));
            }
            Some(String::from_str(name))
        },
        None => None,
    }
}

/// The marketing name that the system reports where it has one, else the
/// name that the built-in table gives.
pub fn marketing_name_or_table(marketing_name: &str, device_id: u32, revision_id: u32) -> (r: String)
    ensures
        marketing_name@.len() > 0 ==> r@ == marketing_name@,
        marketing_name@.len() == 0 ==> match lookup_from(AMDGPU_IDS.spec_bytes(), 0, device_id, revision_id) {
            Some((a, b)) => encode_utf8(r@) == AMDGPU_IDS.spec_bytes().subrange(a, b),
            None => r@ == DEFAULT_DEVICE_NAME@,
        },
{
    if marketing_name.is_empty() {
        parse_amdgpu_ids(device_id, revision_id)
    } else {
        String::from_str(marketing_name)
    }
}

/// Name given to a device that the table does not list.
pub const DEFAULT_DEVICE_NAME: &'static str = "AMD Radeon Graphics";

/// The built-in device-id name table: an excerpt of libdrm's `amdgpu.ids`,
/// a few rows for common discrete and integrated GPUs. Devices that it does
/// not list get `DEFAULT_DEVICE_NAME`; `lookup_device_name` reads a full
/// table text handed to it.
pub const AMDGPU_IDS: &'static str = "# List of AMDGPU IDs\n\
#\n\
# Syntax:\n\
# device_id,\trevision_id,\tproduct_name\n\
\n\
1.0.0\n\
15DD,\tC3,\tAMD Radeon Vega 8 Graphics\n\
1636,\tC1,\tAMD Radeon Graphics\n\
1638,\tC1,\tAMD Radeon Graphics\n\
164E,\tC1,\tAMD Radeon Graphics\n\
66AF,\tC1,\tAMD Radeon VII\n\
67DF,\tC7,\tAMD Radeon RX 480 Graphics\n\
67DF,\tE7,\tAMD Radeon RX 580 Series\n\
67FF,\tCF,\tAMD Radeon RX 560 Series\n\
687F,\tC1,\tAMD Radeon RX Vega\n\
731F,\tC1,\tAMD Radeon RX 5700 XT\n\
731F,\tC4,\tAMD Radeon RX 5700\n\
7340,\tC1,\tAMD Radeon RX 5500 XT\n\
73BF,\tC1,\tAMD Radeon RX 6900 XT\n\
73BF,\tC3,\tAMD Radeon RX 6800\n\
73DF,\tC1,\tAMD Radeon RX 6700 XT\n\
73FF,\tC1,\tAMD Radeon RX 6600 XT\n\
744C,\tC8,\tAMD Radeon RX 7900 XTX\n\
744C,\tCC,\tAMD Radeon RX 7900 XT\n\
7480,\tCF,\tAMD Radeon RX 7600\n";

/// The marketing name of a device from the built-in table, or
/// `DEFAULT_DEVICE_NAME` where the table does not list the device.
pub fn parse_amdgpu_ids(device_id: u32, revision_id: u32) -> (r: String)
    ensures
        match lookup_from(AMDGPU_IDS.spec_bytes(), 0, device_id, revision_id) {
            Some((a, b)) => encode_utf8(r@) == AMDGPU_IDS.spec_bytes().subrange(a, b),
            None => r@ == DEFAULT_DEVICE_NAME@ && r@.len() > 0,
        },
{
    match lookup_device_name(AMDGPU_IDS, device_id, revision_id) {
        Some(name) => name,
        None => {
            proof {
                reveal_strlit("AMD Radeon Graphics");
            }
            String::from_str(DEFAULT_DEVICE_NAME)
        },
    }
}

} // verus!
