//! Width-aware access to the vendor register space of the controller:
//! alignment and bounds validation, byte-enable masks, chunked bulk
//! transfers, and classification of the silicon revision.

use vstd::prelude::*;

use crate::errors::CtrlError;
use crate::usb::{UsbPort, usb_read_control, usb_write_control};

verus! {

/// Vendor request type for register reads (device-to-host).
pub const REQT_READ: u8 = 0xc0;
/// Vendor request type for register writes (host-to-device).
pub const REQT_WRITE: u8 = 0x40;
/// Vendor request code for register access.
pub const REQ_REGS: u8 = 0x05;

/// Selector merged into the transfer's index field for the USB space.
pub const MCU_TYPE_USB: u16 = 0x0000;
/// Selector merged into the transfer's index field for the PLA space.
pub const MCU_TYPE_PLA: u16 = 0x0100;

/// Byte-enable mask with all four bytes of the lane significant.
pub const BYTE_EN_DWORD: u8 = 0xff;
/// Byte-enable mask for a word, before shifting into the right half.
pub const BYTE_EN_WORD: u8 = 0x33;
/// Byte-enable mask for a single byte, before shifting into position.
pub const BYTE_EN_BYTE: u8 = 0x11;

/// Largest number of bytes moved by one read transfer.
pub const CTRL_READ_LIMIT: usize = 64;
/// Largest number of bytes moved by one write transfer.
pub const CTRL_WRITE_LIMIT: usize = 512;

/// Offset of the control register whose upper half holds the version code.
pub const PLA_TCR0: u16 = 0xe610;
/// Mask applied to the shifted version register to isolate the code.
pub const VERSION_MASK: u32 = 0x7cf0;

/// Which of the two vendor register namespaces an access addresses.
#[derive(Debug, Clone, Copy, PartialEq, Eq, Structural)]
pub enum RegType {
    Usb,
    Pla,
}

/// The 16-bit selector that a register space contributes to the
/// transfer's index field.
pub open spec fn spec_reg_type_raw(ty: RegType) -> u16 {
    match ty {
        RegType::Usb => MCU_TYPE_USB,
        RegType::Pla => MCU_TYPE_PLA,
    }
}

impl RegType {
    /// The selector value of this register space.
    pub fn to_raw(self) -> (r: u16)
        ensures
            r == spec_reg_type_raw(self),
    {
        match self {
            RegType::Usb => MCU_TYPE_USB,
            RegType::Pla => MCU_TYPE_PLA,
        }
    }
}

/// An alignment requirement on a byte offset or a length.
#[derive(Debug, Clone, Copy)]
pub enum Align {
    Dword,
    Word,
}

/// What each alignment requirement asks of a value.
pub open spec fn spec_is_aligned(a: Align, offset: usize) -> bool {
    match a {
        Align::Word => offset % 2 == 0,
        Align::Dword => offset % 4 == 0,
    }
}

impl Align {
    /// True iff `offset` satisfies this alignment requirement.
    pub fn is_aligned(self, offset: usize) -> (r: bool)
        ensures
            r == spec_is_aligned(self, offset),
    {
        match self {
            Align::Word => offset % 2 == 0,
            Align::Dword => offset % 4 == 0,
        }
    }
}

/// `offset` with its two low bits cleared: the start of the dword lane
/// that contains it.
pub fn dword_align(offset: u16) -> (r: u16)
    ensures
        r == (offset & !3u16),
        r % 4 == 0,
        r <= offset,
        offset - r == offset % 4,
{
    proof {
        assert((offset & !3u16) % 4 == 0 && (offset & !3u16) <= offset
            && offset - (offset & !3u16) == offset % 4) by (bit_vector);
    }
    offset & !3u16
}

/// Whether a dword-aligned access of `len` bytes at `offset` stays inside
/// the 16-bit register address space.
pub open spec fn spec_check_bound(offset: u16, len: usize) -> Result<(), CtrlError> {
    if offset % 4 != 0 || len % 4 != 0 {
        Err(CtrlError::Align)
    } else if offset + len > u16::MAX {
        Err(CtrlError::Bound)
    } else {
        Ok(())
    }
}

/// Validates that `offset` and `len` are both dword-aligned and that the
/// access ends inside the 16-bit register address space.
pub fn check_bound(offset: u16, len: usize) -> (r: Result<(), CtrlError>)
    ensures
        r == spec_check_bound(offset, len),
        r is Ok <==> offset % 4 == 0 && len % 4 == 0 && offset + len <= u16::MAX,
{
    let align = Align::Dword;
    if !align.is_aligned(offset as usize) || !align.is_aligned(len) {
        return Err(CtrlError::Align);
    }
    if len > u16::MAX as usize - offset as usize {
        Err(CtrlError::Bound)
    } else {
        Ok(())
    }
}

/// The two-of-four byte-enable mask shifted into the half of the lane
/// that an even offset selects: `0x33` for the low word, `0xcc` for the
/// high word.
pub fn word_byte_mask(offset: u16) -> (m: u8)
    ensures
        m == BYTE_EN_WORD << (offset & 2),
{
    proof {
        assert(offset & 2 <= 2) by (bit_vector);
    }
    BYTE_EN_WORD << (offset & 2)
}

/// The one-of-four byte-enable mask shifted into the quarter of the
/// lane that the offset selects: `0x11`, `0x22`, `0x44` or `0x88`.
pub fn byte_byte_mask(offset: u16) -> (m: u8)
    ensures
        m == BYTE_EN_BYTE << (offset & 3),
{
    proof {
        assert(offset & 3 <= 3) by (bit_vector);
    }
    BYTE_EN_BYTE << (offset & 3)
}

/// The word at the half of the dword lane that an even offset selects.
pub fn extract_word(lane: u32, offset: u16) -> (r: u16)
    ensures
        r == (lane >> (((offset & 2) * 8) as u32)) as u16,
{
    proof {
        assert(offset & 2 <= 2) by (bit_vector);
    }
    let shift: u32 = (offset & 2) as u32 * 8;
    (lane >> shift) as u16
}

/// The word placed into the half of the dword lane that an even offset
/// selects; the other half of the lane is zero.
pub fn word_lane(value: u16, offset: u16) -> (r: u32)
    ensures
        r == (value as u32) << (((offset & 2) * 8) as u32),
{
    proof {
        assert(offset & 2 <= 2) by (bit_vector);
    }
    let shift: u32 = (offset & 2) as u32 * 8;
    (value as u32) << shift
}

/// The byte at the quarter of the dword lane that the offset selects.
pub fn extract_byte(lane: u32, offset: u16) -> (r: u8)
    ensures
        r == ((lane >> (((offset & 3) * 8) as u32)) & 0xff) as u8,
{
    proof {
        assert(offset & 3 <= 3) by (bit_vector);
    }
    let shift: u32 = (offset & 3) as u32 * 8;
    ((lane >> shift) & 0xff) as u8
}

/// The byte placed at the quarter of the dword lane that the offset
/// selects; the rest of the lane is zero.
pub fn byte_lane(value: u8, offset: u16) -> (r: u32)
    ensures
        r == (value as u32) << (((offset & 3) * 8) as u32),
{
    proof {
        assert(offset & 3 <= 3) by (bit_vector);
    }
    let shift: u32 = (offset & 3) as u32 * 8;
    (value as u32) << shift
}

/// The four bytes of a 32-bit value, little-endian, each pinned.
pub fn le_bytes_of(value: u32) -> (v: Vec<u8>)
    ensures
        v@.len() == 4,
        v@[0] == (value & 0xff) as u8,
        v@[1] == ((value >> 8u32) & 0xff) as u8,
        v@[2] == ((value >> 16u32) & 0xff) as u8,
        v@[3] == ((value >> 24u32) & 0xff) as u8,
{
    vec![
        (value & 0xff) as u8,
        ((value >> 8) & 0xff) as u8,
        ((value >> 16) & 0xff) as u8,
        ((value >> 24) & 0xff) as u8,
    ]
}

/// The 32-bit value assembled little-endian from four bytes.
pub fn u32_from_le(b: &Vec<u8>) -> (r: u32)
    requires
        b@.len() == 4,
    ensures
        r == (b@[0] as u32) | ((b@[1] as u32) << 8u32) | ((b@[2] as u32) << 16u32) | ((
        b@[3] as u32) << 24u32),
{
    b[0] as u32 | (b[1] as u32) << 8 | (b[2] as u32) << 16 | (b[3] as u32) << 24
}

/// The `len` bytes of `data` starting at `start`, as one chunk's
/// payload.
pub fn chunk_payload(data: &Vec<u8>, start: usize, len: usize) -> (v: Vec<u8>)
    requires
        start + len <= data@.len(),
    ensures
        v@ == data@.subrange(start as int, (start + len) as int),
{
    let n: usize = data.len();
    let mut v: Vec<u8> = Vec::new();
    let mut j: usize = 0;
    while j < len
        invariant
            j <= len,
            n == data@.len(),
            start + len <= data@.len(),
            v@.len() == j,
            forall|k: int| 0 <= k < j ==> v@[k] == data@[start + k],
        decreases len - j,
    {
        let b = data[start + j];
        v.push(b);
        j = j + 1;
    }
    proof {
        assert(v@ =~= data@.subrange(start as int, (start + len) as int));
    }
    v
}

/// Writes one chunk back into `data` at `start`, leaving every byte
/// outside the chunk's span untouched.
pub fn splice_chunk(data: &mut Vec<u8>, start: usize, chunk: &Vec<u8>)
    requires
        start + chunk@.len() <= old(data)@.len(),
    ensures
        final(data)@.len() == old(data)@.len(),
        final(data)@ == old(data)@.take(start as int) + chunk@ + old(data)@.skip((start
            + chunk@.len()) as int),
{
    let n: usize = data.len();
    let mut j: usize = 0;
    while j < chunk.len()
        invariant
            j <= chunk@.len(),
            n == old(data)@.len(),
            start + chunk@.len() <= old(data)@.len(),
            data@.len() == old(data)@.len(),
            forall|k: int|
                0 <= k < data@.len() && !(start <= k < start + j) ==> data@[k] == old(data)@[k],
            forall|k: int| 0 <= k < j ==> data@[start + k] == chunk@[k],
        decreases chunk@.len() - j,
    {
        let b = chunk[j];
        data.set(start + j, b);
        j = j + 1;
    }
    proof {
        assert(data@ =~= old(data)@.take(start as int) + chunk@ + old(data)@.skip((start
            + chunk@.len()) as int));
    }
}

/// The lengths of the pieces that a bulk transfer of `len` bytes is cut
/// into under a per-transfer limit: full pieces of `limit` bytes, then
/// whatever remains.
pub open spec fn spec_chunk_lens(len: usize, limit: usize) -> Seq<usize>
    decreases len,
{
    if limit == 0 || len == 0 {
        Seq::empty()
    } else if len <= limit {
        seq![len]
    } else {
        seq![limit] + spec_chunk_lens((len - limit) as usize, limit)
    }
}

/// The total number of bytes over a sequence of chunk lengths.
pub open spec fn spec_sum(s: Seq<usize>) -> int
    decreases s.len(),
{
    if s.len() == 0 {
        0
    } else {
        s[0] + spec_sum(s.skip(1))
    }
}

/// How a bulk transfer is chunked: no piece exceeds the limit, every
/// piece but the last is exactly the limit — so each piece after the
/// first begins at a multiple of the limit past the start — no piece is
/// empty, and the pieces cover the whole length.
pub proof fn lemma_chunk_lens(len: usize, limit: usize)
    requires
        limit > 0,
    ensures
        spec_chunk_lens(len, limit).len() == 0 <==> len == 0,
        forall|i: int|
            0 <= i < spec_chunk_lens(len, limit).len() ==> 0 < #[trigger] spec_chunk_lens(
                len,
                limit,
            )[i] <= limit,
        forall|i: int|
            0 <= i < spec_chunk_lens(len, limit).len() - 1 ==> #[trigger] spec_chunk_lens(
                len,
                limit,
            )[i] == limit,
        spec_sum(spec_chunk_lens(len, limit)) == len,
    decreases len,
{
    if len == 0 {
    } else if len <= limit {
        assert(spec_chunk_lens(len, limit) =~= seq![len]);
        assert(spec_sum(seq![len]) == len as int + spec_sum(seq![len].skip(1)));
        assert(seq![len].skip(1) =~= Seq::<usize>::empty());
    } else {
        let rest = spec_chunk_lens((len - limit) as usize, limit);
        lemma_chunk_lens((len - limit) as usize, limit);
        let whole = seq![limit] + rest;
        assert(spec_chunk_lens(len, limit) =~= whole);
        assert(whole.skip(1) =~= rest);
        assert(spec_sum(whole) == limit + spec_sum(rest));
    }
}

/// The chunk schedule as a value: the lengths, in order, of the
/// transfers that a bulk operation of `len` bytes issues under the given
/// per-transfer limit.
pub fn chunk_lens(len: usize, limit: usize) -> (r: Vec<usize>)
    requires
        limit > 0,
    ensures
        r@ == spec_chunk_lens(len, limit),
{
    let mut r: Vec<usize> = Vec::new();
    let mut done: usize = 0;
    while done < len
        invariant
            limit > 0,
            done <= len,
            r@ + spec_chunk_lens((len - done) as usize, limit) == spec_chunk_lens(len, limit),
        decreases len - done,
    {
        let remaining: usize = len - done;
        let chunk: usize = if remaining < limit {
            remaining
        } else {
            limit
        };
        proof {
            assert(spec_chunk_lens(remaining, limit) =~= seq![chunk] + spec_chunk_lens(
                (remaining - chunk) as usize,
                limit,
            ));
            assert((r@ + (seq![chunk] + spec_chunk_lens((remaining - chunk) as usize, limit)))
                =~= ((r@ + seq![chunk]) + spec_chunk_lens((remaining - chunk) as usize, limit)));
        }
        r.push(chunk);
        done = done + chunk;
    }
    proof {
        assert(spec_chunk_lens((len - done) as usize, limit) =~= Seq::<usize>::empty());
        assert(r@ + Seq::<usize>::empty() =~= r@);
    }
    r
}

/// The silicon revisions the driver knows, or the raw code of one it
/// does not.
#[derive(Debug, Clone, Copy, PartialEq, Eq, Structural)]
pub enum Version {
    V1,
    V2,
    V3,
    V4,
    V5,
    V6,
    V7,
    V8,
    V9,
    Test1,
    V10,
    V11,
    V12,
    V13,
    V14,
    V15,
    Unknown(u16),
}

/// True iff `code` is one of the fifteen known revision codes.
pub open spec fn spec_is_known_code(code: u16) -> bool {
    ||| code == 0x4c00 ||| code == 0x4c10 ||| code == 0x5c00 ||| code == 0x5c10
    ||| code == 0x5c20 ||| code == 0x5c30 ||| code == 0x4800 ||| code == 0x6000
    ||| code == 0x6010 ||| code == 0x7010 ||| code == 0x7020 ||| code == 0x7030
    ||| code == 0x7400 ||| code == 0x7410 ||| code == 0x6400 ||| code == 0x7420
}

/// The revision that each known code names; any other code maps to
/// `Unknown` carrying the code itself.
pub open spec fn spec_version_from_raw(code: u16) -> Version {
    if code == 0x4c00 { Version::V1 }
    else if code == 0x4c10 { Version::V2 }
    else if code == 0x5c00 { Version::V3 }
    else if code == 0x5c10 { Version::V4 }
    else if code == 0x5c20 { Version::V5 }
    else if code == 0x5c30 { Version::V6 }
    else if code == 0x4800 { Version::V7 }
    else if code == 0x6000 { Version::V8 }
    else if code == 0x6010 { Version::V9 }
    else if code == 0x7010 { Version::Test1 }
    else if code == 0x7020 { Version::V10 }
    else if code == 0x7030 { Version::V11 }
    else if code == 0x7400 { Version::V12 }
    else if code == 0x7410 { Version::V13 }
    else if code == 0x6400 { Version::V14 }
    else if code == 0x7420 { Version::V15 }
    else { Version::Unknown(code) }
}

impl Version {
    /// Classifies a version code against the table of known revisions.
    pub fn from_raw(code: u16) -> (r: Version)
        ensures
            r == spec_version_from_raw(code),
            r is Unknown <==> !spec_is_known_code(code),
            r is Unknown ==> r == Version::Unknown(code),
    {
        match code {
            0x4c00 => Version::V1,
            0x4c10 => Version::V2,
            0x5c00 => Version::V3,
            0x5c10 => Version::V4,
            0x5c20 => Version::V5,
            0x5c30 => Version::V6,
            0x4800 => Version::V7,
            0x6000 => Version::V8,
            0x6010 => Version::V9,
            0x7010 => Version::Test1,
            0x7020 => Version::V10,
            0x7030 => Version::V11,
            0x7400 => Version::V12,
            0x7410 => Version::V13,
            0x6400 => Version::V14,
            0x7420 => Version::V15,
            _ => Version::Unknown(code),
        }
    }
}

/// Any code outside the fifteen known revision codes classifies as
/// `Unknown`, carrying that code, and never as a named revision.
pub proof fn lemma_unknown_code_classified(code: u16)
    requires
        !spec_is_known_code(code),
    ensures
        spec_version_from_raw(code) == Version::Unknown(code),
{
}

impl Version {
    /// Classifies the raw content of the version register: the code is
    /// the upper half of the dword, masked with `VERSION_MASK`.
    pub fn from_dword(w: u32) -> (r: Version)
        ensures
            r == spec_version_from_raw(((w >> 16u32) & VERSION_MASK) as u16),
    {
        Version::from_raw(((w >> 16) & VERSION_MASK) as u16)
    }

    /// The admission rule that gates a register handle: a version read
    /// from the device is accepted exactly when it is a known revision.
    pub fn check_known(self) -> (r: Result<(), CtrlError>)
        ensures
            r is Ok <==> !(self is Unknown),
            r is Err ==> r == Err::<(), CtrlError>(CtrlError::UnknownDevice),
    {
        match self {
            Version::Unknown(_) => Err(CtrlError::UnknownDevice),
            _ => Ok(()),
        }
    }
}

/// An exclusively owned session with one device: the open transport
/// channel plus the fixed per-operation timeout.
pub struct CtrlDevice {
    port: UsbPort,
    timeout_ms: u64,
}

impl CtrlDevice {
    /// Opens a register session over an already-open device handle.
    /// Admission is gated on the version register: an unrecognised
    /// revision is rejected with `UnknownDevice`.
    pub fn new(port: UsbPort) -> (r: Result<CtrlDevice, CtrlError>)
        ensures
            r matches Err(e) ==> e == CtrlError::UnknownDevice
                || e == CtrlError::Partial
                || e matches CtrlError::Usb(_),
    {
        let ctrl = CtrlDevice { port, timeout_ms: 5000 };
        match ctrl.version() {
            Ok(v) => match v.check_known() {
                Ok(_) => Ok(ctrl),
                Err(e) => Err(e),
            },
            Err(e) => Err(e),
        }
    }

    /// The underlying transport port, for descriptor reads outside the
    /// register layer.
    pub fn handle(&self) -> &UsbPort {
        &self.port
    }

    /// Reads the version register and classifies the shifted, masked code
    /// against the table of known revisions. The register lies at a
    /// dword-aligned offset well inside the address space, so neither
    /// `Align` nor `Bound` can come back.
    pub fn version(&self) -> (r: Result<Version, CtrlError>)
        ensures
            r matches Ok(v) ==> exists|w: u32|
                v == spec_version_from_raw(((w >> 16) & VERSION_MASK) as u16),
            r matches Err(e) ==> e == CtrlError::Partial || e matches CtrlError::Usb(_),
    {
        match self.read_dword(RegType::Pla, PLA_TCR0) {
            Ok(w) => Ok(Version::from_dword(w)),
            Err(e) => Err(e),
        }
    }

    /// One masked read transfer: validates the bounds, issues the
    /// control transfer, and demands that every requested byte arrived.
    fn read_reg(&self, ty: RegType, offset: u16, byte_mask: u8, data: &mut Vec<u8>) -> (r: Result<
        (),
        CtrlError,
    >)
        ensures
            final(data)@.len() == old(data)@.len(),
            old(data)@.len() == 0 ==> r is Ok && final(data)@ == old(data)@,
            r == Err::<(), CtrlError>(CtrlError::Align) <==> old(data)@.len() > 0 && !(offset % 4
                == 0 && old(data)@.len() % 4 == 0),
            r == Err::<(), CtrlError>(CtrlError::Bound) <==> old(data)@.len() > 0 && offset % 4
                == 0 && old(data)@.len() % 4 == 0 && offset + old(data)@.len() > u16::MAX,
            r matches Err(e) ==> e == CtrlError::Align || e == CtrlError::Bound
                || e == CtrlError::Partial || e matches CtrlError::Usb(_),
    {
        if data.len() == 0 {
            return Ok(());
        }
        match check_bound(offset, data.len()) {
            Ok(_) => {}
            Err(e) => {
                return Err(e);
            }
        }
        let index: u16 = ty.to_raw() | byte_mask as u16;
        match usb_read_control(
            &self.port,
            REQT_READ,
            REQ_REGS,
            offset,
            index,
            data,
            self.timeout_ms,
        ) {
            Ok(n) => {
                if n != data.len() {
                    Err(CtrlError::Partial)
                } else {
                    Ok(())
                }
            }
            Err(e) => Err(CtrlError::Usb(e)),
        }
    }

    /// One masked write transfer: validates the bounds, issues the
    /// control transfer, and demands that every byte was taken.
    fn write_reg(&self, ty: RegType, offset: u16, byte_mask: u8, data: &Vec<u8>) -> (r: Result<
        (),
        CtrlError,
    >)
        ensures
            data@.len() == 0 ==> r is Ok,
            r == Err::<(), CtrlError>(CtrlError::Align) <==> data@.len() > 0 && !(offset % 4 == 0
                && data@.len() % 4 == 0),
            r == Err::<(), CtrlError>(CtrlError::Bound) <==> data@.len() > 0 && offset % 4 == 0
                && data@.len() % 4 == 0 && offset + data@.len() > u16::MAX,
            r matches Err(e) ==> e == CtrlError::Align || e == CtrlError::Bound
                || e == CtrlError::Partial || e matches CtrlError::Usb(_),
    {
        if data.len() == 0 {
            return Ok(());
        }
        match check_bound(offset, data.len()) {
            Ok(_) => {}
            Err(e) => {
                return Err(e);
            }
        }
        let index: u16 = ty.to_raw() | byte_mask as u16;
        match usb_write_control(
            &self.port,
            REQT_WRITE,
            REQ_REGS,
            offset,
            index,
            data,
            self.timeout_ms,
        ) {
            Ok(n) => {
                if n != data.len() {
                    Err(CtrlError::Partial)
                } else {
                    Ok(())
                }
            }
            Err(e) => Err(CtrlError::Usb(e)),
        }
    }

    /// Reads one 32-bit register. The offset must be a multiple of four;
    /// the value is assembled little-endian from the four bytes read.
    pub fn read_dword(&self, ty: RegType, offset: u16) -> (r: Result<u32, CtrlError>)
        ensures
            r == Err::<u32, CtrlError>(CtrlError::Align) <==> offset % 4 != 0,
            r == Err::<u32, CtrlError>(CtrlError::Bound) <==> offset % 4 == 0 && offset + 4
                > u16::MAX,
            r matches Err(e) ==> e == CtrlError::Align || e == CtrlError::Bound
                || e == CtrlError::Partial || e matches CtrlError::Usb(_),
    {
        let mut data: Vec<u8> = vec![0u8, 0u8, 0u8, 0u8];
        match self.read_reg(ty, offset, BYTE_EN_DWORD, &mut data) {
            Ok(_) => Ok(u32_from_le(&data)),
            Err(e) => Err(e),
        }
    }

    /// Writes one 32-bit register, little-endian, all four bytes enabled.
    /// The offset must be a multiple of four.
    pub fn write_dword(&self, ty: RegType, offset: u16, value: u32) -> (r: Result<(), CtrlError>)
        ensures
            r == Err::<(), CtrlError>(CtrlError::Align) <==> offset % 4 != 0,
            r == Err::<(), CtrlError>(CtrlError::Bound) <==> offset % 4 == 0 && offset + 4
                > u16::MAX,
            r matches Err(e) ==> e == CtrlError::Align || e == CtrlError::Bound
                || e == CtrlError::Partial || e matches CtrlError::Usb(_),
    {
        let data = le_bytes_of(value);
        self.write_reg(ty, offset, BYTE_EN_DWORD, &data)
    }

    /// Bulk read with every byte of each dword enabled. Both the offset
    /// and the buffer length must be multiples of four and the access
    /// must end inside the 16-bit address space; the transfer is cut
    /// into the pieces that `chunk_lens` schedules, at most
    /// `CTRL_READ_LIMIT` bytes each, issued in order.
    /// A zero-length read succeeds without touching the transport.
    pub fn read(&self, ty: RegType, offset: u16, data: &mut Vec<u8>) -> (r: Result<(), CtrlError>)
        ensures
            final(data)@.len() == old(data)@.len(),
            old(data)@.len() == 0 ==> r is Ok,
            r == Err::<(), CtrlError>(CtrlError::Align) <==> old(data)@.len() > 0 && !(offset % 4
                == 0 && old(data)@.len() % 4 == 0),
            r == Err::<(), CtrlError>(CtrlError::Bound) <==> old(data)@.len() > 0 && offset % 4
                == 0 && old(data)@.len() % 4 == 0 && offset + old(data)@.len() > u16::MAX,
            r matches Err(e) ==> e == CtrlError::Align || e == CtrlError::Bound
                || e == CtrlError::Partial || e matches CtrlError::Usb(_),
    {
        if data.len() == 0 {
            return Ok(());
        }
        match check_bound(offset, data.len()) {
            Ok(_) => {}
            Err(e) => {
                return Err(e);
            }
        }
        let len: usize = data.len();
        let lens = chunk_lens(len, CTRL_READ_LIMIT);
        let mut done: usize = 0;
        let mut i: usize = 0;
        while i < lens.len()
            invariant
                lens@ == spec_chunk_lens(len, CTRL_READ_LIMIT),
                i <= lens@.len(),
                done <= len,
                spec_chunk_lens((len - done) as usize, CTRL_READ_LIMIT) == lens@.skip(i as int),
                data@.len() == len,
                len == old(data)@.len(),
                offset % 4 == 0,
                len % 4 == 0,
                done % 4 == 0,
                offset + len <= u16::MAX,
            decreases lens@.len() - i,
        {
            let chunk: usize = lens[i];
            proof {
                assert(lens@.skip(i as int)[0] == lens@[i as int]);
                assert(lens@.skip(i as int).skip(1) =~= lens@.skip(i as int + 1));
                assert(spec_chunk_lens(((len - done) - chunk) as usize, CTRL_READ_LIMIT)
                    =~= lens@.skip(i as int + 1));
            }
            let mut buf: Vec<u8> = Vec::new();
            let mut j: usize = 0;
            while j < chunk
                invariant
                    j <= chunk,
                    buf@.len() == j,
                decreases chunk - j,
            {
                buf.push(0u8);
                j = j + 1;
            }
            let cur: u16 = (offset as usize + done) as u16;
            match self.read_reg(ty, cur, BYTE_EN_DWORD, &mut buf) {
                Ok(_) => {}
                Err(e) => {
                    return Err(e);
                }
            }
            splice_chunk(data, done, &buf);
            done = done + chunk;
            i = i + 1;
        }
        Ok(())
    }

    /// Bulk write with every byte of each dword enabled. The same
    /// alignment and bound rules as for the bulk read apply; the
    /// transfer is cut into the pieces that `chunk_lens` schedules, at
    /// most `CTRL_WRITE_LIMIT` bytes each, issued in order. A zero-length write succeeds without touching
    /// the transport.
    pub fn write(&self, ty: RegType, offset: u16, data: &Vec<u8>) -> (r: Result<(), CtrlError>)
        ensures
            data@.len() == 0 ==> r is Ok,
            r == Err::<(), CtrlError>(CtrlError::Align) <==> data@.len() > 0 && !(offset % 4 == 0
                && data@.len() % 4 == 0),
            r == Err::<(), CtrlError>(CtrlError::Bound) <==> data@.len() > 0 && offset % 4 == 0
                && data@.len() % 4 == 0 && offset + data@.len() > u16::MAX,
            r matches Err(e) ==> e == CtrlError::Align || e == CtrlError::Bound
                || e == CtrlError::Partial || e matches CtrlError::Usb(_),
    {
        if data.len() == 0 {
            return Ok(());
        }
        match check_bound(offset, data.len()) {
            Ok(_) => {}
            Err(e) => {
                return Err(e);
            }
        }
        let len: usize = data.len();
        let lens = chunk_lens(len, CTRL_WRITE_LIMIT);
        let mut done: usize = 0;
        let mut i: usize = 0;
        while i < lens.len()
            invariant
                lens@ == spec_chunk_lens(len, CTRL_WRITE_LIMIT),
                i <= lens@.len(),
                done <= len,
                spec_chunk_lens((len - done) as usize, CTRL_WRITE_LIMIT) == lens@.skip(i as int),
                data@.len() == len,
                offset % 4 == 0,
                len % 4 == 0,
                done % 4 == 0,
                offset + len <= u16::MAX,
            decreases lens@.len() - i,
        {
            let chunk: usize = lens[i];
            proof {
                assert(lens@.skip(i as int)[0] == lens@[i as int]);
                assert(lens@.skip(i as int).skip(1) =~= lens@.skip(i as int + 1));
                assert(spec_chunk_lens(((len - done) - chunk) as usize, CTRL_WRITE_LIMIT)
                    =~= lens@.skip(i as int + 1));
            }
            let buf = chunk_payload(data, done, chunk);
            let cur: u16 = (offset as usize + done) as u16;
            match self.write_reg(ty, cur, BYTE_EN_DWORD, &buf) {
                Ok(_) => {}
                Err(e) => {
                    return Err(e);
                }
            }
            done = done + chunk;
            i = i + 1;
        }
        Ok(())
    }

    /// Reads one 16-bit register. The offset must be even; the access is
    /// widened to the surrounding dword lane with a two-byte enable mask
    /// and the word is extracted from the matching half of the lane.
    pub fn read_word(&self, ty: RegType, offset: u16) -> (r: Result<u16, CtrlError>)
        ensures
            r == Err::<u16, CtrlError>(CtrlError::Align) <==> offset % 2 != 0,
            r == Err::<u16, CtrlError>(CtrlError::Bound) <==> offset % 2 == 0 && offset
                >= 0xfffc,
            r matches Err(e) ==> e == CtrlError::Align || e == CtrlError::Bound
                || e == CtrlError::Partial || e matches CtrlError::Usb(_),
    {
        if !Align::Word.is_aligned(offset as usize) {
            return Err(CtrlError::Align);
        }
        let aligned: u16 = dword_align(offset);
        proof {
            assert((offset & !3u16) >= 0xfffc <==> offset >= 0xfffc) by (bit_vector);
        }
        let byte_mask: u8 = word_byte_mask(offset);
        let mut data: Vec<u8> = vec![0u8, 0u8, 0u8, 0u8];
        match self.read_reg(ty, aligned, byte_mask, &mut data) {
            Ok(_) => {
                let lane: u32 = u32_from_le(&data);
                Ok(extract_word(lane, offset))
            }
            Err(e) => Err(e),
        }
    }

    /// Writes one 16-bit register. The offset must be even; the word is
    /// placed in the matching half of the dword lane and only its two
    /// bytes are enabled.
    pub fn write_word(&self, ty: RegType, offset: u16, value: u16) -> (r: Result<(), CtrlError>)
        ensures
            r == Err::<(), CtrlError>(CtrlError::Align) <==> offset % 2 != 0,
            r == Err::<(), CtrlError>(CtrlError::Bound) <==> offset % 2 == 0 && offset
                >= 0xfffc,
            r matches Err(e) ==> e == CtrlError::Align || e == CtrlError::Bound
                || e == CtrlError::Partial || e matches CtrlError::Usb(_),
    {
        if !Align::Word.is_aligned(offset as usize) {
            return Err(CtrlError::Align);
        }
        let aligned: u16 = dword_align(offset);
        proof {
            assert((offset & !3u16) >= 0xfffc <==> offset >= 0xfffc) by (bit_vector);
        }
        let byte_mask: u8 = word_byte_mask(offset);
        let data = le_bytes_of(word_lane(value, offset));
        self.write_reg(ty, aligned, byte_mask, &data)
    }

    /// Reads one byte. Any offset is accepted; the access is widened to
    /// the surrounding dword lane with only that byte enabled, and the
    /// byte is extracted from its position within the lane.
    pub fn read_byte(&self, ty: RegType, offset: u16) -> (r: Result<u8, CtrlError>)
        ensures
            !(r == Err::<u8, CtrlError>(CtrlError::Align)),
            r == Err::<u8, CtrlError>(CtrlError::Bound) <==> offset >= 0xfffc,
            r matches Err(e) ==> e == CtrlError::Bound || e == CtrlError::Partial
                || e matches CtrlError::Usb(_),
    {
        let aligned: u16 = dword_align(offset);
        proof {
            assert((offset & !3u16) >= 0xfffc <==> offset >= 0xfffc) by (bit_vector);
        }
        let byte_mask: u8 = byte_byte_mask(offset);
        let mut data: Vec<u8> = vec![0u8, 0u8, 0u8, 0u8];
        match self.read_reg(ty, aligned, byte_mask, &mut data) {
            Ok(_) => {
                let lane: u32 = u32_from_le(&data);
                Ok(extract_byte(lane, offset))
            }
            Err(e) => Err(e),
        }
    }

    /// Writes one byte. Any offset is accepted; the byte is placed at its
    /// position within the dword lane and only that byte is enabled.
    pub fn write_byte(&self, ty: RegType, offset: u16, value: u8) -> (r: Result<(), CtrlError>)
        ensures
            !(r == Err::<(), CtrlError>(CtrlError::Align)),
            r == Err::<(), CtrlError>(CtrlError::Bound) <==> offset >= 0xfffc,
            r matches Err(e) ==> e == CtrlError::Bound || e == CtrlError::Partial
                || e matches CtrlError::Usb(_),
    {
        let aligned: u16 = dword_align(offset);
        proof {
            assert((offset & !3u16) >= 0xfffc <==> offset >= 0xfffc) by (bit_vector);
        }
        let byte_mask: u8 = byte_byte_mask(offset);
        let data = le_bytes_of(byte_lane(value, offset));
        self.write_reg(ty, aligned, byte_mask, &data)
    }
}

} // verus!
