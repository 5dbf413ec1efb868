//! The package format: header and offset-table decoding, per-entry frame
//! extraction with the byte de-obfuscation transform, and the value types
//! that tie an entry's position to its derived output name.

use vstd::prelude::*;

use crate::stream::{u32_at, u64_at, PackageStream};
use vstd::string::StringExecFns;

verus! {

/// The de-obfuscation transform applied to every payload byte as it is
/// read: subtract one with unsigned 8-bit wraparound.
pub open spec fn deobfuscate_byte(b: u8) -> u8 {
    if b == 0 {
        255
    } else {
        (b - 1) as u8
    }
}

/// The inverse transform, as the original packer applied it: add one with
/// unsigned 8-bit wraparound.
pub open spec fn obfuscate_byte(b: u8) -> u8 {
    if b == 255 {
        0
    } else {
        (b + 1) as u8
    }
}

/// Applying the de-obfuscation transform and then the packer's transform,
/// in either order, gives back the original byte, for every byte.
pub proof fn lemma_transform_round_trip(b: u8)
    ensures
        obfuscate_byte(deobfuscate_byte(b)) == b,
        deobfuscate_byte(obfuscate_byte(b)) == b,
{
}

/// De-obfuscate one payload byte.
pub fn decode_byte(b: u8) -> (r: u8)
    ensures
        r == deobfuscate_byte(b),
{
    b.wrapping_sub(1)
}

/// Unsigned 32-bit addition with wraparound, as the offset rebasing
/// performs it.
pub open spec fn wrap_add_u32(a: u32, b: u32) -> u32 {
    if a + b > u32::MAX {
        (a + b - 0x1_0000_0000) as u32
    } else {
        (a + b) as u32
    }
}

/// The absolute offset a relative offset decodes to: the rebasing constant
/// `declared_size + 4` added to it, in unsigned 32-bit arithmetic.
pub open spec fn rebase(rel: u32, declared_size: u32) -> u32 {
    wrap_add_u32(wrap_add_u32(rel, declared_size), 4)
}

/// The package's `declared_size` field: the little-endian 32-bit integer
/// at stream offset 0. Meaningful only when the stream has 8 bytes.
pub open spec fn declared_size_of(d: Seq<u8>) -> u32 {
    u32_at(d, 0)
}

/// The package's `entry_count` field: the little-endian 32-bit integer at
/// stream offset 4. Meaningful only when the stream has 8 bytes.
pub open spec fn entry_count_of(d: Seq<u8>) -> u32 {
    u32_at(d, 4)
}

/// Whether the stream holds the two leading header integers and all
/// `entry_count` 8-byte offset records.
pub open spec fn header_complete(d: Seq<u8>) -> bool {
    d.len() >= 8 && d.len() >= 8 + 8 * entry_count_of(d)
}

/// The relative offset stored in record `i`: the little-endian 32-bit
/// integer in the record's last four bytes (its first four are padding).
pub open spec fn relative_offset_of(d: Seq<u8>, i: int) -> u32 {
    u32_at(d, 8 + 8 * i + 4)
}

/// The absolute offset the table holds for entry `i`: record `i`'s
/// relative offset, rebased by `declared_size + 4`.
pub open spec fn absolute_offset_of(d: Seq<u8>, i: int) -> u32 {
    rebase(relative_offset_of(d, i), declared_size_of(d))
}

/// The zero-based index of the first offset record the stream is too short
/// to hold in full. Meaningful only when the stream has 8 bytes but not
/// all its records.
pub open spec fn header_fail_index(d: Seq<u8>) -> int {
    (d.len() - 8) / 8
}

/// The error header decoding reports on a stream too short for its own
/// header: which stage ran out of bytes.
pub open spec fn header_error_of(d: Seq<u8>) -> PackageError {
    if d.len() < 8 {
        PackageError::TruncatedHeader { record: None }
    } else {
        PackageError::TruncatedHeader { record: Some(header_fail_index(d) as u32) }
    }
}

/// Why a decode or extraction step failed, with enough context to say
/// which header stage or which entry was being worked on.
#[derive(Copy, Clone, Debug, PartialEq, Eq)]
pub enum PackageError {
    /// The stream ended while reading the two leading header integers
    /// (`record` is `None`) or while reading the offset record with the
    /// given zero-based index (`record` is `Some`).
    TruncatedHeader { record: Option<u32> },
    /// The requested absolute offset for the named entry lies beyond the
    /// stream's extent.
    SeekFailed { name: OggName, offset: u32 },
    /// The stream ended while reading the named entry's 8-byte length
    /// prefix.
    TruncatedFrame { name: OggName },
    /// The stream ended before the named entry's declared payload length
    /// could be read in full.
    TruncatedPayload { name: OggName },
}

/// An entry's sequential identity: its zero-based position in the offset
/// table, from which its output name is derived.
#[derive(Copy, Clone, Debug, PartialEq, Eq, Structural)]
pub struct OggName(pub u32);

/// The character for one decimal digit value.
pub open spec fn digit_char(d: int) -> char {
    if d == 0 {
        '0'
    } else if d == 1 {
        '1'
    } else if d == 2 {
        '2'
    } else if d == 3 {
        '3'
    } else if d == 4 {
        '4'
    } else if d == 5 {
        '5'
    } else if d == 6 {
        '6'
    } else if d == 7 {
        '7'
    } else if d == 8 {
        '8'
    } else {
        '9'
    }
}

/// The decimal digits of `n`, most significant first, with no leading
/// zeros (a single `'0'` for zero itself).
pub open spec fn decimal_digits(n: int) -> Seq<char>
    decreases n,
{
    if n < 10 {
        seq![digit_char(n)]
    } else {
        decimal_digits(n / 10).push(digit_char(n % 10))
    }
}

/// The decimal digits of `n`, zero-padded on the left to at least three
/// digits; wider values keep all their digits.
pub open spec fn padded_decimal(n: int) -> Seq<char> {
    if n < 10 {
        seq!['0', '0'] + decimal_digits(n)
    } else if n < 100 {
        seq!['0'] + decimal_digits(n)
    } else {
        decimal_digits(n)
    }
}

/// The output name derived from an entry identity: its padded decimal
/// form followed by the fixed `.ogg` extension.
pub open spec fn derived_name(n: int) -> Seq<char> {
    padded_decimal(n) + seq!['.', 'o', 'g', 'g']
}

/// Append the character for one decimal digit value to `s`.
fn append_digit(s: &mut String, d: u32)
    requires
        d < 10,
    ensures
        final(s)@ == old(s)@ + seq![digit_char(d as int)],
{
    let t: &str = if d == 0 {
        "0"
    } else if d == 1 {
        "1"
    } else if d == 2 {
        "2"
    } else if d == 3 {
        "3"
    } else if d == 4 {
        "4"
    } else if d == 5 {
        "5"
    } else if d == 6 {
        "6"
    } else if d == 7 {
        "7"
    } else if d == 8 {
        "8"
    } else {
        "9"
    };
    proof {
        reveal_strlit("0");
        reveal_strlit("1");
        reveal_strlit("2");
        reveal_strlit("3");
        reveal_strlit("4");
        reveal_strlit("5");
        reveal_strlit("6");
        reveal_strlit("7");
        reveal_strlit("8");
        reveal_strlit("9");
    }
    s.append(t);
}

/// Append the decimal digits of `n`, most significant first, to `s`.
fn append_decimal(s: &mut String, n: u32)
    ensures
        final(s)@ == old(s)@ + decimal_digits(n as int),
    decreases n,
{
    if n < 10 {
        append_digit(s, n);
    } else {
        append_decimal(s, n / 10);
        append_digit(s, n % 10);
    }
}

impl OggName {
    pub fn new(nr: u32) -> (r: OggName)
        ensures
            r.0 == nr,
    {
        OggName(nr)
    }

    /// Render the entry's output name: the identity as a decimal integer,
    /// zero-padded to at least three digits, followed by `.ogg`.
    pub fn to_string(&self) -> (r: String)
        ensures
            r@ == derived_name(self.0 as int),
    {
        let mut s = String::new();
        if self.0 < 10 {
            s.append("00");
        } else if self.0 < 100 {
            s.append("0");
        }
        append_decimal(&mut s, self.0);
        s.append(".ogg");
        proof {
            reveal_strlit("00");
            reveal_strlit("0");
            reveal_strlit(".ogg");
        }
        s
    }
}

/// An absolute byte offset (origin = start of the stream) at which an
/// entry's frame begins.
#[derive(Copy, Clone, Debug, PartialEq, Eq, Structural)]
pub struct OggOffset(pub u32);

/// What one extraction needs: the entry's identity and the absolute offset
/// of its frame.
#[derive(Copy, Clone, Debug, PartialEq, Eq, Structural)]
pub struct OggInfo {
    pub name: OggName,
    pub offset: OggOffset,
}

impl OggInfo {
    pub fn new(name: OggName, offset: OggOffset) -> (r: OggInfo)
        ensures
            r.name == name,
            r.offset == offset,
    {
        OggInfo { name, offset }
    }
}

/// Whether `off` is a reachable seek target in `d`: at or before the end
/// of the stream.
pub open spec fn seek_ok(d: Seq<u8>, off: int) -> bool {
    0 <= off <= d.len()
}

/// Whether the stream holds an entry's full 8-byte length prefix at `off`.
pub open spec fn frame_ok(d: Seq<u8>, off: int) -> bool {
    seek_ok(d, off) && off + 8 <= d.len()
}

/// The entry's declared payload length: the little-endian 64-bit integer
/// at `off`. Meaningful only when `frame_ok(d, off)`.
pub open spec fn payload_size_of(d: Seq<u8>, off: int) -> u64 {
    u64_at(d, off)
}

/// Whether the stream holds the entry's whole declared payload after the
/// length prefix at `off`.
pub open spec fn payload_ok(d: Seq<u8>, off: int) -> bool {
    frame_ok(d, off) && off + 8 + payload_size_of(d, off) <= d.len()
}

/// Whether the whole entry frame at `off` can be extracted from `d`.
pub open spec fn entry_extractable(d: Seq<u8>, off: int) -> bool {
    seek_ok(d, off) && frame_ok(d, off) && payload_ok(d, off)
}

/// The entry's decoded payload: the `payload_size_of` raw bytes following
/// the length prefix at `off`, each passed through the de-obfuscation
/// transform. Meaningful only when `payload_ok(d, off)`.
pub open spec fn decoded_payload(d: Seq<u8>, off: int) -> Seq<u8> {
    d.subrange(off + 8, off + 8 + payload_size_of(d, off)).map_values(
        |b: u8| deobfuscate_byte(b),
    )
}

/// The error entry extraction reports for the frame at `info.offset` in a
/// stream too short to hold it: which step ran out first.
pub open spec fn entry_error_of(d: Seq<u8>, info: OggInfo) -> PackageError {
    if !seek_ok(d, info.offset.0 as int) {
        PackageError::SeekFailed { name: info.name, offset: info.offset.0 }
    } else if !frame_ok(d, info.offset.0 as int) {
        PackageError::TruncatedFrame { name: info.name }
    } else {
        PackageError::TruncatedPayload { name: info.name }
    }
}

/// The decoded package header: the table of absolute entry offsets, in
/// record order.
#[derive(Clone, Debug)]
pub struct Header {
    file_offsets: Vec<OggOffset>,
}

impl View for Header {
    type V = Seq<OggOffset>;

    closed spec fn view(&self) -> Seq<OggOffset> {
        self.file_offsets@
    }
}

impl Header {
    /// Decode the package header from a stream positioned at offset 0:
    /// the two leading little-endian 32-bit integers `declared_size` and
    /// `entry_count`, then one 8-byte offset record per entry, each
    /// rebased to an absolute offset by `declared_size + 4`.
    ///
    /// Succeeds exactly when the stream holds the whole header, leaving
    /// the cursor just past it; fails with `TruncatedHeader` otherwise,
    /// naming the record index that could not be read in full, or no
    /// index when even the two leading integers are short.
    pub fn read_from(stream: &mut PackageStream) -> (r: Result<Header, PackageError>)
        requires
            old(stream).wf(),
            old(stream).pos() == 0,
        ensures
            final(stream).bytes() == old(stream).bytes(),
            final(stream).wf(),
            r is Ok <==> header_complete(old(stream).bytes()),
            r matches Ok(h) ==> {
                let d = old(stream).bytes();
                &&& h@.len() == entry_count_of(d) as int
                &&& (forall|i: int|
                    0 <= i < h@.len() ==> (#[trigger] h@[i]).0 == absolute_offset_of(d, i))
                &&& final(stream).pos() == 8 + 8 * (entry_count_of(d) as int)
            },
            r matches Err(e) ==> e == header_error_of(old(stream).bytes()),
    {
        let ghost d = stream.bytes();
        let declared_size = match stream.read_u32_le() {
            Some(v) => v,
            None => {
                return Err(PackageError::TruncatedHeader { record: None });
            },
        };
        let entry_count = match stream.read_u32_le() {
            Some(v) => v,
            None => {
                return Err(PackageError::TruncatedHeader { record: None });
            },
        };
        let mut file_offsets: Vec<OggOffset> = Vec::new();
        let mut i: u32 = 0;
        while i < entry_count
            invariant
                d == old(stream).bytes(),
                stream.wf(),
                stream.bytes() == d,
                stream.pos() == 8 + 8 * (i as int),
                i <= entry_count,
                declared_size == declared_size_of(d),
                entry_count == entry_count_of(d),
                8 + 8 * (i as int) <= d.len(),
                file_offsets@.len() == i as int,
                forall|j: int|
                    0 <= j < i as int ==> (#[trigger] file_offsets@[j]).0 == absolute_offset_of(
                        d,
                        j,
                    ),
            decreases entry_count - i,
        {
            let rel = match stream.read_offset_record() {
                Some(v) => v,
                None => {
                    return Err(PackageError::TruncatedHeader { record: Some(i) });
                },
            };
            file_offsets.push(OggOffset(rel.wrapping_add(declared_size).wrapping_add(4)));
            i = i + 1;
        }
        Ok(Header { file_offsets })
    }

    /// The absolute entry offsets, index-aligned with entry identity.
    pub fn offsets(&self) -> (r: &[OggOffset])
        ensures
            r@ == self@,
    {
        self.file_offsets.as_slice()
    }
}

/// One extracted entry: its decoded payload and the identity its output
/// name is derived from.
#[derive(Clone, Debug)]
pub struct OggFile {
    pub name: OggName,
    pub data: Vec<u8>,
}

impl OggFile {
    /// Extract one entry: seek to `info.offset`, read the 8-byte
    /// little-endian length prefix there, then read exactly that many
    /// payload bytes, de-obfuscating each one.
    ///
    /// The seek is unconditional: nothing is assumed about where an
    /// earlier read or extraction left the cursor. Succeeds exactly when
    /// the stream holds the whole frame; fails with `SeekFailed`,
    /// `TruncatedFrame` or `TruncatedPayload` for the first step that
    /// runs out of stream, naming the entry. No payload is handed out
    /// unless it was read in full.
    pub fn read_from(stream: &mut PackageStream, info: OggInfo) -> (r: Result<
        OggFile,
        PackageError,
    >)
        requires
            old(stream).wf(),
        ensures
            final(stream).bytes() == old(stream).bytes(),
            final(stream).wf(),
            r is Ok <==> entry_extractable(old(stream).bytes(), info.offset.0 as int),
            r matches Ok(f) ==> {
                let d = old(stream).bytes();
                let off = info.offset.0 as int;
                &&& f.name == info.name
                &&& f.data@ == decoded_payload(d, off)
                &&& final(stream).pos() == off + 8 + payload_size_of(d, off)
            },
            r matches Err(e) ==> e == entry_error_of(old(stream).bytes(), info),
    {
        let ghost d = stream.bytes();
        let ghost off = info.offset.0 as int;
        if !stream.seek(info.offset.0) {
            return Err(PackageError::SeekFailed { name: info.name, offset: info.offset.0 });
        }
        let payload_size = match stream.read_u64_le() {
            Some(v) => v,
            None => {
                return Err(PackageError::TruncatedFrame { name: info.name });
            },
        };
        if payload_size > stream.remaining() as u64 {
            return Err(PackageError::TruncatedPayload { name: info.name });
        }
        let raw = stream.read_bytes(payload_size as usize).unwrap();
        let mut data: Vec<u8> = Vec::new();
        let mut j: usize = 0;
        while j < raw.len()
            invariant
                raw@.len() == payload_size_of(d, off),
                data@.len() == j,
                j <= raw@.len(),
                forall|k: int| 0 <= k < j ==> data@[k] == deobfuscate_byte(#[trigger] raw@[k]),
            decreases raw@.len() - j,
        {
            data.push(decode_byte(raw[j]));
            j = j + 1;
        }
        Ok(OggFile { name: info.name, data })
    }

    /// The entry's derived output name.
    pub fn name(&self) -> (r: String)
        ensures
            r@ == derived_name(self.name.0 as int),
    {
        self.name.to_string()
    }
}

/// Header decode correctness: for every table entry of a complete header,
/// the absolute offset is exactly `declared_size + 4 + relative_offset`,
/// whenever that sum fits in 32 bits (the rebasing arithmetic wraps, so
/// larger sums are left out).
pub proof fn lemma_absolute_offset_exact(d: Seq<u8>, i: int)
    requires
        header_complete(d),
        0 <= i < entry_count_of(d),
        declared_size_of(d) + 4 + relative_offset_of(d, i) <= u32::MAX,
    ensures
        absolute_offset_of(d, i) == declared_size_of(d) + 4 + relative_offset_of(d, i),
{
}

/// Decoding is a pure function of the stream's bytes: two independent
/// streams over byte-identical buffers see the same header fields, the
/// same absolute offset for every entry, and the same payload length and
/// decoded payload at every frame offset. The derived name depends only
/// on the entry's position, so byte-identical packages also yield
/// identical names.
pub proof fn lemma_decode_deterministic(d1: Seq<u8>, d2: Seq<u8>, off: int)
    requires
        d1 == d2,
    ensures
        header_complete(d1) == header_complete(d2),
        declared_size_of(d1) == declared_size_of(d2),
        entry_count_of(d1) == entry_count_of(d2),
        forall|i: int| absolute_offset_of(d1, i) == absolute_offset_of(d2, i),
        entry_extractable(d1, off) == entry_extractable(d2, off),
        payload_size_of(d1, off) == payload_size_of(d2, off),
        decoded_payload(d1, off) == decoded_payload(d2, off),
{
}

} // verus!
