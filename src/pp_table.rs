//! Power-play tables: the header that every format shares, the leading
//! fixed-layout records of the known formats, and the dispatch from the header's
//! format revision to the record that the bytes hold.
//!
//! Each record covers the leading fields of its format, from the header up to
//! the software shutdown temperature. The reserved words, the overdrive table
//! and the SMC table that follow them in the firmware's structure are not
//! decoded: a buffer is long enough for a format once it holds these leading
//! fields, and `Invalid` where it does not.
use vstd::prelude::*;

verus! {

/// Header at offset 0 of every table, four bytes, little-endian.
#[allow(non_camel_case_types)]
#[derive(Clone, Copy, Debug, PartialEq, Eq, Structural)]
pub struct atom_common_table_header {
    pub structuresize: u16,
    pub format_revision: u8,
    pub content_revision: u8,
}

/// Bytes of the common header.
pub const HEADER_SIZE: usize = 4;

/// Little-endian `u16` at `off`.
pub open spec fn le16_at(b: Seq<u8>, off: int) -> u16 {
    (b[off] as nat + b[off + 1] as nat * 256) as u16
}

/// Little-endian `u32` at `off`.
pub open spec fn le32_at(b: Seq<u8>, off: int) -> u32 {
    (b[off] as nat + b[off + 1] as nat * 256 + b[off + 2] as nat * 65536 + b[off + 3] as nat
        * 16777216) as u32
}

/// Little-endian bytes of a `u16`.
pub open spec fn le16_bytes(v: u16) -> Seq<u8> {
    seq![(v % 256) as u8, (v / 256) as u8]
}

/// Little-endian bytes of a `u32`.
pub open spec fn le32_bytes(v: u32) -> Seq<u8> {
    seq![(v % 256) as u8, ((v / 256) % 256) as u8, ((v / 65536) % 256) as u8, (v / 16777216) as u8]
}

/// The header that the first four bytes hold.
pub open spec fn header_at(b: Seq<u8>) -> atom_common_table_header {
    atom_common_table_header {
        structuresize: le16_at(b, 0),
        format_revision: b[2],
        content_revision: b[3],
    }
}

/// Bytes of a header.
pub open spec fn header_bytes(h: atom_common_table_header) -> Seq<u8> {
    le16_bytes(h.structuresize) + seq![h.format_revision, h.content_revision]
}

proof fn lemma_le16_round(v: u16)
    ensures
        le16_at(le16_bytes(v), 0) == v,
{
    let b = le16_bytes(v);
    assert(b[0] as nat + b[1] as nat * 256 == v);
}

proof fn lemma_le32_round(v: u32)
    ensures
        le32_at(le32_bytes(v), 0) == v,
{
    let b = le32_bytes(v);
    assert(b[0] as nat + b[1] as nat * 256 + b[2] as nat * 65536 + b[3] as nat * 16777216 == v);
}

proof fn lemma_le16_shift(a: Seq<u8>, b: Seq<u8>, off: int)
    requires
        0 <= off,
        off + 2 <= a.len(),
    ensures
        le16_at(a + b, off) == le16_at(a, off),
{
}

/// Where the two bytes at `off` are those of `v`, the `u16` read there is `v`.
proof fn lemma_le16_field(b: Seq<u8>, off: int, v: u16)
    requires
        0 <= off,
        off + 2 <= b.len(),
        b[off] == (v % 256) as u8,
        b[off + 1] == (v / 256) as u8,
    ensures
        le16_at(b, off) == v,
{
    lemma_le16_round(v);
}

/// Where the four bytes at `off` are those of `v`, the `u32` read there is `v`.
proof fn lemma_le32_field(b: Seq<u8>, off: int, v: u32)
    requires
        0 <= off,
        off + 4 <= b.len(),
        b[off] == (v % 256) as u8,
        b[off + 1] == ((v / 256) % 256) as u8,
        b[off + 2] == ((v / 65536) % 256) as u8,
        b[off + 3] == (v / 16777216) as u8,
    ensures
        le32_at(b, off) == v,
{
    lemma_le32_round(v);
}

/// Byte at `off`.
fn read_u8(b: &[u8], off: usize) -> (r: u8)
    requires
        off < b@.len(),
    ensures
        r == b@[off as int],
{
    b[off]
}

/// Little-endian `u16` at `off`.
fn read_u16(b: &[u8], off: usize) -> (r: u16)
    requires
        off + 2 <= b@.len(),
    ensures
        r == le16_at(b@, off as int),
{
    b[off] as u16 + b[off + 1] as u16 * 256
}

/// Little-endian `u32` at `off`.
fn read_u32(b: &[u8], off: usize) -> (r: u32)
    requires
        off + 4 <= b@.len(),
    ensures
        r == le32_at(b@, off as int),
{
    b[off] as u32 + b[off + 1] as u32 * 256 + b[off + 2] as u32 * 65536 + b[off + 3] as u32 * 16777216
}

/// Appends the little-endian bytes of a `u16`.
fn push_u16(out: &mut Vec<u8>, v: u16)
    ensures
        final(out)@ == old(out)@ + le16_bytes(v),
{
    out.push((v % 256) as u8);
    out.push((v / 256) as u8);
    assert(final(out)@ =~= old(out)@ + le16_bytes(v));
}

/// Appends the little-endian bytes of a `u32`.
fn push_u32(out: &mut Vec<u8>, v: u32)
    ensures
        final(out)@ == old(out)@ + le32_bytes(v),
{
    out.push((v % 256) as u8);
    out.push(((v / 256) % 256) as u8);
    out.push(((v / 65536) % 256) as u8);
    out.push((v / 16777216) as u8);
    assert(final(out)@ =~= old(out)@ + le32_bytes(v));
}

/// Appends one byte.
fn push_u8(out: &mut Vec<u8>, v: u8)
    ensures
        final(out)@ == old(out)@ + seq![v],
{
    out.push(v);
    assert(final(out)@ =~= old(out)@ + seq![v]);
}

impl atom_common_table_header {
    /// The header that the first four bytes hold.
    pub fn from_bytes(b: &[u8]) -> (r: Self)
        requires
            b@.len() >= HEADER_SIZE,
        ensures
            r == header_at(b@),
    {
        atom_common_table_header {
            structuresize: read_u16(b, 0),
            format_revision: read_u8(b, 2),
            content_revision: read_u8(b, 3),
        }
    }

    /// The four bytes of this header.
    pub fn to_bytes(&self) -> (r: Vec<u8>)
        ensures
            r@ == header_bytes(*self),
    {
        let mut out: Vec<u8> = Vec::new();
        push_u16(&mut out, self.structuresize);
        push_u8(&mut out, self.format_revision);
        push_u8(&mut out, self.content_revision);
        assert(out@ =~= header_bytes(*self));
        out
    }
}

proof fn lemma_header_round(h: atom_common_table_header, rest: Seq<u8>)
    ensures
        header_at(header_bytes(h) + rest) == h,
{
    lemma_le16_round(h.structuresize);
    lemma_le16_shift(le16_bytes(h.structuresize), seq![h.format_revision, h.content_revision] + rest, 0);
    assert(header_bytes(h) + rest =~= le16_bytes(h.structuresize) + (seq![h.format_revision, h.content_revision] + rest));
}

/// Leading fixed-layout record of an SMU 11.0.0 (Navi10, Navi12, Navi14) power-play table, little-endian
/// and packed.
#[allow(non_camel_case_types)]
#[derive(Clone, Copy, Debug, PartialEq, Eq, Structural)]
pub struct smu_11_0_powerplay_table {
    pub header: atom_common_table_header,
    pub table_revision: u8,
    pub table_size: u16,
    pub golden_pp_id: u32,
    pub golden_revision: u32,
    pub format_id: u16,
    pub platform_caps: u32,
    pub thermal_controller_type: u8,
    pub small_power_limit1: u16,
    pub small_power_limit2: u16,
    pub boost_power_limit: u16,
    pub od_turbo_power_limit: u16,
    pub od_power_save_power_limit: u16,
    pub software_shutdown_temp: u16,
}

/// Bytes of the leading fields that a `smu_11_0_powerplay_table` holds; the firmware structure
/// goes on past them.
pub const SIZE_11_0_0: usize = 34;

/// The `smu_11_0_powerplay_table` that the first 34 bytes hold.
pub open spec fn decode_11_0_0(b: Seq<u8>) -> smu_11_0_powerplay_table {
    smu_11_0_powerplay_table {
        header: header_at(b),
        table_revision: b[4],
        table_size: le16_at(b, 5),
        golden_pp_id: le32_at(b, 7),
        golden_revision: le32_at(b, 11),
        format_id: le16_at(b, 15),
        platform_caps: le32_at(b, 17),
        thermal_controller_type: b[21],
        small_power_limit1: le16_at(b, 22),
        small_power_limit2: le16_at(b, 24),
        boost_power_limit: le16_at(b, 26),
        od_turbo_power_limit: le16_at(b, 28),
        od_power_save_power_limit: le16_at(b, 30),
        software_shutdown_temp: le16_at(b, 32),
    }
}

/// Bytes of a `smu_11_0_powerplay_table`.
pub open spec fn encode_11_0_0(t: smu_11_0_powerplay_table) -> Seq<u8> {
    header_bytes(t.header)
        + seq![t.table_revision]
        + le16_bytes(t.table_size)
        + le32_bytes(t.golden_pp_id)
        + le32_bytes(t.golden_revision)
        + le16_bytes(t.format_id)
        + le32_bytes(t.platform_caps)
        + seq![t.thermal_controller_type]
        + le16_bytes(t.small_power_limit1)
        + le16_bytes(t.small_power_limit2)
        + le16_bytes(t.boost_power_limit)
        + le16_bytes(t.od_turbo_power_limit)
        + le16_bytes(t.od_power_save_power_limit)
        + le16_bytes(t.software_shutdown_temp)
}

impl smu_11_0_powerplay_table {
    /// The record that the first 34 bytes hold.
    pub fn from_bytes(b: &[u8]) -> (r: Self)
        requires
            b@.len() >= SIZE_11_0_0,
        ensures
            r == decode_11_0_0(b@),
    {
        smu_11_0_powerplay_table {
            header: atom_common_table_header::from_bytes(b),
            table_revision: read_u8(b, 4),
            table_size: read_u16(b, 5),
            golden_pp_id: read_u32(b, 7),
            golden_revision: read_u32(b, 11),
            format_id: read_u16(b, 15),
            platform_caps: read_u32(b, 17),
            thermal_controller_type: read_u8(b, 21),
            small_power_limit1: read_u16(b, 22),
            small_power_limit2: read_u16(b, 24),
            boost_power_limit: read_u16(b, 26),
            od_turbo_power_limit: read_u16(b, 28),
            od_power_save_power_limit: read_u16(b, 30),
            software_shutdown_temp: read_u16(b, 32),
        }
    }

    /// The 34 bytes of this record.
    pub fn to_bytes(&self) -> (r: Vec<u8>)
        ensures
            r@ == encode_11_0_0(*self),
    {
        let mut out = self.header.to_bytes();
        push_u8(&mut out, self.table_revision);
        push_u16(&mut out, self.table_size);
        push_u32(&mut out, self.golden_pp_id);
        push_u32(&mut out, self.golden_revision);
        push_u16(&mut out, self.format_id);
        push_u32(&mut out, self.platform_caps);
        push_u8(&mut out, self.thermal_controller_type);
        push_u16(&mut out, self.small_power_limit1);
        push_u16(&mut out, self.small_power_limit2);
        push_u16(&mut out, self.boost_power_limit);
        push_u16(&mut out, self.od_turbo_power_limit);
        push_u16(&mut out, self.od_power_save_power_limit);
        push_u16(&mut out, self.software_shutdown_temp);
        out
    }
}

/// Decoding the bytes of a record gives the record back.
pub proof fn lemma_decode_encode_11_0_0(t: smu_11_0_powerplay_table)
    ensures
        encode_11_0_0(t).len() == SIZE_11_0_0,
        decode_11_0_0(encode_11_0_0(t)) == t,
{
    let b = encode_11_0_0(t);
    lemma_header_round(t.header, b.subrange(4, b.len() as int));
    assert(b =~= header_bytes(t.header) + b.subrange(4, b.len() as int));
    assert(b[4] == t.table_revision);
    lemma_le16_field(b, 5, t.table_size);
    lemma_le32_field(b, 7, t.golden_pp_id);
    lemma_le32_field(b, 11, t.golden_revision);
    lemma_le16_field(b, 15, t.format_id);
    lemma_le32_field(b, 17, t.platform_caps);
    assert(b[21] == t.thermal_controller_type);
    lemma_le16_field(b, 22, t.small_power_limit1);
    lemma_le16_field(b, 24, t.small_power_limit2);
    lemma_le16_field(b, 26, t.boost_power_limit);
    lemma_le16_field(b, 28, t.od_turbo_power_limit);
    lemma_le16_field(b, 30, t.od_power_save_power_limit);
    lemma_le16_field(b, 32, t.software_shutdown_temp);
    assert(decode_11_0_0(b) =~= t);
}

/// Leading fixed-layout record of an SMU 11.0.7 (Navi21 to Navi24) power-play table, little-endian
/// and packed.
#[allow(non_camel_case_types)]
#[derive(Clone, Copy, Debug, PartialEq, Eq, Structural)]
pub struct smu_11_0_7_powerplay_table {
    pub header: atom_common_table_header,
    pub table_revision: u8,
    pub table_size: u16,
    pub golden_pp_id: u32,
    pub golden_revision: u32,
    pub format_id: u16,
    pub platform_caps: u32,
    pub thermal_controller_type: u8,
    pub small_power_limit1: u16,
    pub small_power_limit2: u16,
    pub boost_power_limit: u16,
    pub software_shutdown_temp: u16,
}

/// Bytes of the leading fields that a `smu_11_0_7_powerplay_table` holds; the firmware structure
/// goes on past them.
pub const SIZE_11_0_7: usize = 30;

/// The `smu_11_0_7_powerplay_table` that the first 30 bytes hold.
pub open spec fn decode_11_0_7(b: Seq<u8>) -> smu_11_0_7_powerplay_table {
    smu_11_0_7_powerplay_table {
        header: header_at(b),
        table_revision: b[4],
        table_size: le16_at(b, 5),
        golden_pp_id: le32_at(b, 7),
        golden_revision: le32_at(b, 11),
        format_id: le16_at(b, 15),
        platform_caps: le32_at(b, 17),
        thermal_controller_type: b[21],
        small_power_limit1: le16_at(b, 22),
        small_power_limit2: le16_at(b, 24),
        boost_power_limit: le16_at(b, 26),
        software_shutdown_temp: le16_at(b, 28),
    }
}

/// Bytes of a `smu_11_0_7_powerplay_table`.
pub open spec fn encode_11_0_7(t: smu_11_0_7_powerplay_table) -> Seq<u8> {
    header_bytes(t.header)
        + seq![t.table_revision]
        + le16_bytes(t.table_size)
        + le32_bytes(t.golden_pp_id)
        + le32_bytes(t.golden_revision)
        + le16_bytes(t.format_id)
        + le32_bytes(t.platform_caps)
        + seq![t.thermal_controller_type]
        + le16_bytes(t.small_power_limit1)
        + le16_bytes(t.small_power_limit2)
        + le16_bytes(t.boost_power_limit)
        + le16_bytes(t.software_shutdown_temp)
}

impl smu_11_0_7_powerplay_table {
    /// The record that the first 30 bytes hold.
    pub fn from_bytes(b: &[u8]) -> (r: Self)
        requires
            b@.len() >= SIZE_11_0_7,
        ensures
            r == decode_11_0_7(b@),
    {
        smu_11_0_7_powerplay_table {
            header: atom_common_table_header::from_bytes(b),
            table_revision: read_u8(b, 4),
            table_size: read_u16(b, 5),
            golden_pp_id: read_u32(b, 7),
            golden_revision: read_u32(b, 11),
            format_id: read_u16(b, 15),
            platform_caps: read_u32(b, 17),
            thermal_controller_type: read_u8(b, 21),
            small_power_limit1: read_u16(b, 22),
            small_power_limit2: read_u16(b, 24),
            boost_power_limit: read_u16(b, 26),
            software_shutdown_temp: read_u16(b, 28),
        }
    }

    /// The 30 bytes of this record.
    pub fn to_bytes(&self) -> (r: Vec<u8>)
        ensures
            r@ == encode_11_0_7(*self),
    {
        let mut out = self.header.to_bytes();
        push_u8(&mut out, self.table_revision);
        push_u16(&mut out, self.table_size);
        push_u32(&mut out, self.golden_pp_id);
        push_u32(&mut out, self.golden_revision);
        push_u16(&mut out, self.format_id);
        push_u32(&mut out, self.platform_caps);
        push_u8(&mut out, self.thermal_controller_type);
        push_u16(&mut out, self.small_power_limit1);
        push_u16(&mut out, self.small_power_limit2);
        push_u16(&mut out, self.boost_power_limit);
        push_u16(&mut out, self.software_shutdown_temp);
        out
    }
}

/// Decoding the bytes of a record gives the record back.
pub proof fn lemma_decode_encode_11_0_7(t: smu_11_0_7_powerplay_table)
    ensures
        encode_11_0_7(t).len() == SIZE_11_0_7,
        decode_11_0_7(encode_11_0_7(t)) == t,
{
    let b = encode_11_0_7(t);
    lemma_header_round(t.header, b.subrange(4, b.len() as int));
    assert(b =~= header_bytes(t.header) + b.subrange(4, b.len() as int));
    assert(b[4] == t.table_revision);
    lemma_le16_field(b, 5, t.table_size);
    lemma_le32_field(b, 7, t.golden_pp_id);
    lemma_le32_field(b, 11, t.golden_revision);
    lemma_le16_field(b, 15, t.format_id);
    lemma_le32_field(b, 17, t.platform_caps);
    assert(b[21] == t.thermal_controller_type);
    lemma_le16_field(b, 22, t.small_power_limit1);
    lemma_le16_field(b, 24, t.small_power_limit2);
    lemma_le16_field(b, 26, t.boost_power_limit);
    lemma_le16_field(b, 28, t.software_shutdown_temp);
    assert(decode_11_0_7(b) =~= t);
}

/// Leading fixed-layout record of an SMU 13.0.0 (Navi31) power-play table, little-endian
/// and packed.
#[allow(non_camel_case_types)]
#[derive(Clone, Copy, Debug, PartialEq, Eq, Structural)]
pub struct smu_13_0_0_powerplay_table {
    pub header: atom_common_table_header,
    pub table_revision: u8,
    pub padding: u8,
    pub table_size: u16,
    pub golden_pp_id: u32,
    pub golden_revision: u32,
    pub format_id: u16,
    pub platform_caps: u32,
    pub thermal_controller_type: u8,
    pub small_power_limit1: u16,
    pub small_power_limit2: u16,
    pub boost_power_limit: u16,
    pub software_shutdown_temp: u16,
}

/// Bytes of the leading fields that a `smu_13_0_0_powerplay_table` holds; the firmware structure
/// goes on past them.
pub const SIZE_13_0_0: usize = 31;

/// The `smu_13_0_0_powerplay_table` that the first 31 bytes hold.
pub open spec fn decode_13_0_0(b: Seq<u8>) -> smu_13_0_0_powerplay_table {
    smu_13_0_0_powerplay_table {
        header: header_at(b),
        table_revision: b[4],
        padding: b[5],
        table_size: le16_at(b, 6),
        golden_pp_id: le32_at(b, 8),
        golden_revision: le32_at(b, 12),
        format_id: le16_at(b, 16),
        platform_caps: le32_at(b, 18),
        thermal_controller_type: b[22],
        small_power_limit1: le16_at(b, 23),
        small_power_limit2: le16_at(b, 25),
        boost_power_limit: le16_at(b, 27),
        software_shutdown_temp: le16_at(b, 29),
    }
}

/// Bytes of a `smu_13_0_0_powerplay_table`.
pub open spec fn encode_13_0_0(t: smu_13_0_0_powerplay_table) -> Seq<u8> {
    header_bytes(t.header)
        + seq![t.table_revision]
        + seq![t.padding]
        + le16_bytes(t.table_size)
        + le32_bytes(t.golden_pp_id)
        + le32_bytes(t.golden_revision)
        + le16_bytes(t.format_id)
        + le32_bytes(t.platform_caps)
        + seq![t.thermal_controller_type]
        + le16_bytes(t.small_power_limit1)
        + le16_bytes(t.small_power_limit2)
        + le16_bytes(t.boost_power_limit)
        + le16_bytes(t.software_shutdown_temp)
}

impl smu_13_0_0_powerplay_table {
    /// The record that the first 31 bytes hold.
    pub fn from_bytes(b: &[u8]) -> (r: Self)
        requires
            b@.len() >= SIZE_13_0_0,
        ensures
            r == decode_13_0_0(b@),
    {
        smu_13_0_0_powerplay_table {
            header: atom_common_table_header::from_bytes(b),
            table_revision: read_u8(b, 4),
            padding: read_u8(b, 5),
            table_size: read_u16(b, 6),
            golden_pp_id: read_u32(b, 8),
            golden_revision: read_u32(b, 12),
            format_id: read_u16(b, 16),
            platform_caps: read_u32(b, 18),
            thermal_controller_type: read_u8(b, 22),
            small_power_limit1: read_u16(b, 23),
            small_power_limit2: read_u16(b, 25),
            boost_power_limit: read_u16(b, 27),
            software_shutdown_temp: read_u16(b, 29),
        }
    }

    /// The 31 bytes of this record.
    pub fn to_bytes(&self) -> (r: Vec<u8>)
        ensures
            r@ == encode_13_0_0(*self),
    {
        let mut out = self.header.to_bytes();
        push_u8(&mut out, self.table_revision);
        push_u8(&mut out, self.padding);
        push_u16(&mut out, self.table_size);
        push_u32(&mut out, self.golden_pp_id);
        push_u32(&mut out, self.golden_revision);
        push_u16(&mut out, self.format_id);
        push_u32(&mut out, self.platform_caps);
        push_u8(&mut out, self.thermal_controller_type);
        push_u16(&mut out, self.small_power_limit1);
        push_u16(&mut out, self.small_power_limit2);
        push_u16(&mut out, self.boost_power_limit);
        push_u16(&mut out, self.software_shutdown_temp);
        out
    }
}

/// Decoding the bytes of a record gives the record back.
pub proof fn lemma_decode_encode_13_0_0(t: smu_13_0_0_powerplay_table)
    ensures
        encode_13_0_0(t).len() == SIZE_13_0_0,
        decode_13_0_0(encode_13_0_0(t)) == t,
{
    let b = encode_13_0_0(t);
    lemma_header_round(t.header, b.subrange(4, b.len() as int));
    assert(b =~= header_bytes(t.header) + b.subrange(4, b.len() as int));
    assert(b[4] == t.table_revision);
    assert(b[5] == t.padding);
    lemma_le16_field(b, 6, t.table_size);
    lemma_le32_field(b, 8, t.golden_pp_id);
    lemma_le32_field(b, 12, t.golden_revision);
    lemma_le16_field(b, 16, t.format_id);
    lemma_le32_field(b, 18, t.platform_caps);
    assert(b[22] == t.thermal_controller_type);
    lemma_le16_field(b, 23, t.small_power_limit1);
    lemma_le16_field(b, 25, t.small_power_limit2);
    lemma_le16_field(b, 27, t.boost_power_limit);
    lemma_le16_field(b, 29, t.software_shutdown_temp);
    assert(decode_13_0_0(b) =~= t);
}

/// Leading fixed-layout record of an SMU 13.0.7 power-play table, little-endian
/// and packed.
#[allow(non_camel_case_types)]
#[derive(Clone, Copy, Debug, PartialEq, Eq, Structural)]
pub struct smu_13_0_7_powerplay_table {
    pub header: atom_common_table_header,
    pub table_revision: u8,
    pub padding: u8,
    pub table_size: u16,
    pub golden_pp_id: u32,
    pub golden_revision: u32,
    pub format_id: u16,
    pub platform_caps: u32,
    pub thermal_controller_type: u8,
    pub small_power_limit1: u16,
    pub small_power_limit2: u16,
    pub boost_power_limit: u16,
    pub software_shutdown_temp: u16,
}

/// Bytes of the leading fields that a `smu_13_0_7_powerplay_table` holds; the firmware structure
/// goes on past them.
pub const SIZE_13_0_7: usize = 31;

/// The `smu_13_0_7_powerplay_table` that the first 31 bytes hold.
pub open spec fn decode_13_0_7(b: Seq<u8>) -> smu_13_0_7_powerplay_table {
    smu_13_0_7_powerplay_table {
        header: header_at(b),
        table_revision: b[4],
        padding: b[5],
        table_size: le16_at(b, 6),
        golden_pp_id: le32_at(b, 8),
        golden_revision: le32_at(b, 12),
        format_id: le16_at(b, 16),
        platform_caps: le32_at(b, 18),
        thermal_controller_type: b[22],
        small_power_limit1: le16_at(b, 23),
        small_power_limit2: le16_at(b, 25),
        boost_power_limit: le16_at(b, 27),
        software_shutdown_temp: le16_at(b, 29),
    }
}

/// Bytes of a `smu_13_0_7_powerplay_table`.
pub open spec fn encode_13_0_7(t: smu_13_0_7_powerplay_table) -> Seq<u8> {
    header_bytes(t.header)
        + seq![t.table_revision]
        + seq![t.padding]
        + le16_bytes(t.table_size)
        + le32_bytes(t.golden_pp_id)
        + le32_bytes(t.golden_revision)
        + le16_bytes(t.format_id)
        + le32_bytes(t.platform_caps)
        + seq![t.thermal_controller_type]
        + le16_bytes(t.small_power_limit1)
        + le16_bytes(t.small_power_limit2)
        + le16_bytes(t.boost_power_limit)
        + le16_bytes(t.software_shutdown_temp)
}

impl smu_13_0_7_powerplay_table {
    /// The record that the first 31 bytes hold.
    pub fn from_bytes(b: &[u8]) -> (r: Self)
        requires
            b@.len() >= SIZE_13_0_7,
        ensures
            r == decode_13_0_7(b@),
    {
        smu_13_0_7_powerplay_table {
            header: atom_common_table_header::from_bytes(b),
            table_revision: read_u8(b, 4),
            padding: read_u8(b, 5),
            table_size: read_u16(b, 6),
            golden_pp_id: read_u32(b, 8),
            golden_revision: read_u32(b, 12),
            format_id: read_u16(b, 16),
            platform_caps: read_u32(b, 18),
            thermal_controller_type: read_u8(b, 22),
            small_power_limit1: read_u16(b, 23),
            small_power_limit2: read_u16(b, 25),
            boost_power_limit: read_u16(b, 27),
            software_shutdown_temp: read_u16(b, 29),
        }
    }

    /// The 31 bytes of this record.
    pub fn to_bytes(&self) -> (r: Vec<u8>)
        ensures
            r@ == encode_13_0_7(*self),
    {
        let mut out = self.header.to_bytes();
        push_u8(&mut out, self.table_revision);
        push_u8(&mut out, self.padding);
        push_u16(&mut out, self.table_size);
        push_u32(&mut out, self.golden_pp_id);
        push_u32(&mut out, self.golden_revision);
        push_u16(&mut out, self.format_id);
        push_u32(&mut out, self.platform_caps);
        push_u8(&mut out, self.thermal_controller_type);
        push_u16(&mut out, self.small_power_limit1);
        push_u16(&mut out, self.small_power_limit2);
        push_u16(&mut out, self.boost_power_limit);
        push_u16(&mut out, self.software_shutdown_temp);
        out
    }
}

/// Decoding the bytes of a record gives the record back.
pub proof fn lemma_decode_encode_13_0_7(t: smu_13_0_7_powerplay_table)
    ensures
        encode_13_0_7(t).len() == SIZE_13_0_7,
        decode_13_0_7(encode_13_0_7(t)) == t,
{
    let b = encode_13_0_7(t);
    lemma_header_round(t.header, b.subrange(4, b.len() as int));
    assert(b =~= header_bytes(t.header) + b.subrange(4, b.len() as int));
    assert(b[4] == t.table_revision);
    assert(b[5] == t.padding);
    lemma_le16_field(b, 6, t.table_size);
    lemma_le32_field(b, 8, t.golden_pp_id);
    lemma_le32_field(b, 12, t.golden_revision);
    lemma_le16_field(b, 16, t.format_id);
    lemma_le32_field(b, 18, t.platform_caps);
    assert(b[22] == t.thermal_controller_type);
    lemma_le16_field(b, 23, t.small_power_limit1);
    lemma_le16_field(b, 25, t.small_power_limit2);
    lemma_le16_field(b, 27, t.boost_power_limit);
    lemma_le16_field(b, 29, t.software_shutdown_temp);
    assert(decode_13_0_7(b) =~= t);
}

/// A power-play table, by the format that its header's revision selects.
#[derive(Clone, Copy, Debug, PartialEq, Eq, Structural)]
pub enum PPTable {
    V11_0_0(smu_11_0_powerplay_table),
    V11_0_7(smu_11_0_7_powerplay_table),
    V13_0_0(smu_13_0_0_powerplay_table),
    V13_0_7(smu_13_0_7_powerplay_table),
    /// A header whose format revision no known format has.
    Unknown(atom_common_table_header),
    /// Too few bytes for the header, or for the format that the header selects.
    Invalid,
}

/// The table that a byte buffer holds: `Invalid` below the header's size;
/// else by format revision 12, 15 or 18, and 20 the matching record, or
/// `Invalid` where the buffer is shorter than that record; for any other
/// revision the header alone.
pub open spec fn pptable_of(b: Seq<u8>) -> PPTable {
    if b.len() < HEADER_SIZE {
        PPTable::Invalid
    } else {
        let h = header_at(b);
        if h.format_revision == 12 {
            if b.len() >= SIZE_11_0_0 { PPTable::V11_0_0(decode_11_0_0(b)) } else { PPTable::Invalid }
        } else if h.format_revision == 15 || h.format_revision == 18 {
            if b.len() >= SIZE_11_0_7 { PPTable::V11_0_7(decode_11_0_7(b)) } else { PPTable::Invalid }
        } else if h.format_revision == 20 {
            if b.len() >= SIZE_13_0_0 { PPTable::V13_0_0(decode_13_0_0(b)) } else { PPTable::Invalid }
        } else {
            PPTable::Unknown(h)
        }
    }
}

impl PPTable {
    /// Reads the common header and, by its format revision, the record that
    /// the bytes hold; see `pptable_of`.
    pub fn from_bytes(bytes: &[u8]) -> (r: Self)
        ensures
            r == pptable_of(bytes@),
    {
        if bytes.len() < HEADER_SIZE {
            return PPTable::Invalid;
        }
        let header = atom_common_table_header::from_bytes(bytes);
        match header.format_revision {
            12 => {
                if bytes.len() < SIZE_11_0_0 {
                    PPTable::Invalid
                } else {
                    PPTable::V11_0_0(smu_11_0_powerplay_table::from_bytes(bytes))
                }
            },
            15 | 18 => {
                if bytes.len() < SIZE_11_0_7 {
                    PPTable::Invalid
                } else {
                    PPTable::V11_0_7(smu_11_0_7_powerplay_table::from_bytes(bytes))
                }
            },
            20 => {
                if bytes.len() < SIZE_13_0_0 {
                    PPTable::Invalid
                } else {
                    PPTable::V13_0_0(smu_13_0_0_powerplay_table::from_bytes(bytes))
                }
            },
            _ => PPTable::Unknown(header),
        }
    }
}

/// A record of a dispatched format, written to bytes and followed by any
/// bytes, is read back as that format with the same fields.
pub proof fn lemma_round_trip_11_0_0(t: smu_11_0_powerplay_table, rest: Seq<u8>)
    requires
        t.header.format_revision == 12,
    ensures
        pptable_of(encode_11_0_0(t) + rest) == PPTable::V11_0_0(t),
{
    lemma_decode_encode_11_0_0(t);
    let e = encode_11_0_0(t);
    lemma_header_round(t.header, e.subrange(4, e.len() as int) + rest);
    assert(e + rest =~= header_bytes(t.header) + (e.subrange(4, e.len() as int) + rest));
    assert(decode_11_0_0(e + rest) =~= decode_11_0_0(e));
}

/// The same for revisions 15 and 18, which share one layout.
pub proof fn lemma_round_trip_11_0_7(t: smu_11_0_7_powerplay_table, rest: Seq<u8>)
    requires
        t.header.format_revision == 15 || t.header.format_revision == 18,
    ensures
        pptable_of(encode_11_0_7(t) + rest) == PPTable::V11_0_7(t),
{
    lemma_decode_encode_11_0_7(t);
    let e = encode_11_0_7(t);
    lemma_header_round(t.header, e.subrange(4, e.len() as int) + rest);
    assert(e + rest =~= header_bytes(t.header) + (e.subrange(4, e.len() as int) + rest));
    assert(decode_11_0_7(e + rest) =~= decode_11_0_7(e));
}

/// The same for revision 20.
pub proof fn lemma_round_trip_13_0_0(t: smu_13_0_0_powerplay_table, rest: Seq<u8>)
    requires
        t.header.format_revision == 20,
    ensures
        pptable_of(encode_13_0_0(t) + rest) == PPTable::V13_0_0(t),
{
    lemma_decode_encode_13_0_0(t);
    let e = encode_13_0_0(t);
    lemma_header_round(t.header, e.subrange(4, e.len() as int) + rest);
    assert(e + rest =~= header_bytes(t.header) + (e.subrange(4, e.len() as int) + rest));
    assert(decode_13_0_0(e + rest) =~= decode_13_0_0(e));
}

/// A header whose revision selects no format, followed by any bytes, is
/// read back as that header alone.
pub proof fn lemma_unknown_revision(h: atom_common_table_header, rest: Seq<u8>)
    requires
        h.format_revision != 12,
        h.format_revision != 15,
        h.format_revision != 18,
        h.format_revision != 20,
    ensures
        pptable_of(header_bytes(h) + rest) == PPTable::Unknown(h),
{
    lemma_header_round(h, rest);
}

/// Fewer bytes than the header, or than the record that the header selects,
/// are `Invalid`.
pub proof fn lemma_short_buffer_invalid(b: Seq<u8>)
    requires
        b.len() < HEADER_SIZE || (header_at(b).format_revision == 12 && b.len() < SIZE_11_0_0) || ((
        header_at(b).format_revision == 15 || header_at(b).format_revision == 18) && b.len()
            < SIZE_11_0_7) || (header_at(b).format_revision == 20 && b.len() < SIZE_13_0_0),
    ensures
        pptable_of(b) == PPTable::Invalid,
{
}

} // verus!
