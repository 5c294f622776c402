//! Byte images exchanged with the kernel: the 16-byte frame record and the
//! broadcast-manager message that installs a periodic transmission.
//!
//! Multi-byte fields are little-endian, the byte order of the targets that
//! run socketCAN in practice (x86, ARM, RISC-V). The layouts are those of a
//! 64-bit kernel ABI: a C `long`, and so each half of a `bcm_timeval`, is
//! 8 bytes wide, and the frame record is aligned to 8 bytes.
use vstd::prelude::*;

use crate::frame::{CANFilter, CANFrame, FrameModel};

verus! {

/// Broadcast-manager opcode: create or update a transmission job.
pub const TX_SETUP: u32 = 1;

/// Broadcast-manager flag: take the intervals of the message.
pub const BCM_SETTIMER: u16 = 0x0001;

/// Broadcast-manager flag: start the timer with the intervals given.
pub const BCM_STARTTIMER: u16 = 0x0002;

/// Size of the frame record.
pub const FRAME_RECORD_LEN: usize = 16;

/// Size of a broadcast-manager message that carries one frame.
pub const BCM_MESSAGE_LEN: usize = 72;

pub open spec fn u32_le(x: u32) -> Seq<u8> {
    seq![x as u8, (x >> 8u32) as u8, (x >> 16u32) as u8, (x >> 24u32) as u8]
}

pub open spec fn u64_le(x: u64) -> Seq<u8> {
    u32_le(x as u32) + u32_le((x >> 32u64) as u32)
}

/// The value of four little-endian bytes.
pub open spec fn u32_from_le(b0: u8, b1: u8, b2: u8, b3: u8) -> u32 {
    (b0 as u32) | ((b1 as u32) << 8u32) | ((b2 as u32) << 16u32) | ((b3 as u32) << 24u32)
}

/// The kernel's `struct can_frame`: identifier field, length, padding and
/// two reserved bytes, then the 8-byte buffer.
pub open spec fn frame_record(m: FrameModel) -> Seq<u8> {
    u32_le(m.raw) + seq![m.len, m.pad, m.res0, m.res1] + m.data
}

proof fn lemma_u32_le_of_bytes(b0: u8, b1: u8, b2: u8, b3: u8)
    ensures
        u32_le(u32_from_le(b0, b1, b2, b3)) == seq![b0, b1, b2, b3],
{
    let x = u32_from_le(b0, b1, b2, b3);
    assert(x as u8 == b0 && (x >> 8u32) as u8 == b1 && (x >> 16u32) as u8 == b2 && (x
        >> 24u32) as u8 == b3) by (bit_vector)
        requires
            x == (b0 as u32) | ((b1 as u32) << 8u32) | ((b2 as u32) << 16u32) | ((b3 as u32)
                << 24u32),
    ;
    assert(u32_le(x) =~= seq![b0, b1, b2, b3]);
}

fn push_u32_le(out: &mut Vec<u8>, x: u32)
    ensures
        final(out)@ == old(out)@ + u32_le(x),
{
    out.push(x as u8);
    out.push((x >> 8) as u8);
    out.push((x >> 16) as u8);
    out.push((x >> 24) as u8);
    assert(final(out)@ =~= old(out)@ + u32_le(x));
}

fn push_u64_le(out: &mut Vec<u8>, x: u64)
    ensures
        final(out)@ == old(out)@ + u64_le(x),
{
    push_u32_le(out, x as u32);
    push_u32_le(out, (x >> 32) as u32);
    assert(final(out)@ =~= old(out)@ + u64_le(x));
}

fn push_frame_record(out: &mut Vec<u8>, frame: &CANFrame)
    ensures
        final(out)@ == old(out)@ + frame_record(frame@),
        final(out)@.len() == old(out)@.len() + 16,
{
    let parts = frame.parts();
    push_u32_le(out, parts.0);
    out.push(parts.1);
    out.push(parts.2);
    out.push(parts.3);
    out.push(parts.4);
    assert(out@ =~= old(out)@ + u32_le(frame@.raw) + seq![
        frame@.len,
        frame@.pad,
        frame@.res0,
        frame@.res1,
    ] + frame@.data.subrange(0, 0));
    let mut i: usize = 0;
    while i < 8
        invariant
            0 <= i <= 8,
            parts.5@ == frame@.data,
            frame@.data.len() == 8,
            out@ == old(out)@ + u32_le(frame@.raw) + seq![
                frame@.len,
                frame@.pad,
                frame@.res0,
                frame@.res1,
            ] + frame@.data.subrange(0, i as int),
        decreases 8 - i,
    {
        out.push(parts.5[i]);
        i = i + 1;
        assert(frame@.data.subrange(0, i as int) =~= frame@.data.subrange(0, i - 1).push(
            frame@.data[i - 1],
        ));
    }
    assert(frame@.data.subrange(0, 8) =~= frame@.data);
}

impl CANFrame {
    /// The 16-byte record of this frame as the kernel reads and writes it.
    pub fn to_wire(&self) -> (r: Vec<u8>)
        ensures
            r@ == frame_record(self@),
            r@.len() == FRAME_RECORD_LEN,
    {
        let mut out: Vec<u8> = Vec::new();
        push_frame_record(&mut out, self);
        assert(out@ =~= frame_record(self@));
        out
    }

    /// Reads a frame back from its 16-byte record. Fails on a record of
    /// another size and on one whose length byte exceeds 8.
    pub fn from_wire(bytes: &[u8]) -> (r: Option<CANFrame>)
        ensures
            r is Some <==> (bytes@.len() == 16 && bytes@[4] <= 8),
            r matches Some(f) ==> frame_record(f@) == bytes@,
    {
        if bytes.len() != FRAME_RECORD_LEN || bytes[4] > 8 {
            return None;
        }
        let raw = (bytes[0] as u32) | ((bytes[1] as u32) << 8) | ((bytes[2] as u32) << 16) | ((
        bytes[3] as u32) << 24);
        let mut data = [0u8; 8];
        let mut i: usize = 0;
        while i < 8
            invariant
                0 <= i <= 8,
                bytes@.len() == 16,
                data@.len() == 8,
                forall|k: int| 0 <= k < i ==> data@[k] == bytes@[8 + k],
            decreases 8 - i,
        {
            data[i] = bytes[8 + i];
            i = i + 1;
        }
        let f = CANFrame::from_parts(raw, bytes[4], bytes[5], bytes[6], bytes[7], data);
        proof {
            lemma_u32_le_of_bytes(bytes@[0], bytes@[1], bytes@[2], bytes@[3]);
            assert(frame_record(f@) =~= bytes@);
        }
        Some(f)
    }
}

/// A time interval as the kernel's `struct bcm_timeval` holds it.
#[derive(Debug, Clone, Copy, PartialEq, Eq, Structural)]
pub struct BCMInterval {
    pub tv_sec: i64,
    pub tv_usec: i64,
}

/// The head of a broadcast-manager message, followed by its one frame, as
/// the kernel's `struct bcm_msg_head` lays it out.
#[derive(Debug, Clone, Copy)]
pub struct BCMMessageHeader {
    pub opcode: u32,
    pub flags: u32,
    pub count: u32,
    pub ival1: BCMInterval,
    pub ival2: BCMInterval,
    pub can_id: u32,
    pub nframes: u32,
    pub frames: CANFrame,
}

/// The bytes of a broadcast-manager message: three 32-bit fields, four
/// bytes of alignment padding, the two intervals, the identifier, the frame
/// count, then the frame record.
pub open spec fn bcm_message_bytes(h: BCMMessageHeader) -> Seq<u8> {
    u32_le(h.opcode) + u32_le(h.flags) + u32_le(h.count) + u32_le(0) + u64_le(
        h.ival1.tv_sec as u64,
    ) + u64_le(h.ival1.tv_usec as u64) + u64_le(h.ival2.tv_sec as u64) + u64_le(
        h.ival2.tv_usec as u64,
    ) + u32_le(h.can_id) + u32_le(h.nframes) + frame_record(h.frames@)
}

impl BCMMessageHeader {
    /// The message that starts sending `frame` every `microseconds`: opcode
    /// `TX_SETUP`, flags set-timer and start-timer, count 0, no initial
    /// interval, the repeat interval split into whole seconds and the
    /// microseconds below one second, and the frame's identifier.
    pub fn tx_setup(microseconds: u64, frame: CANFrame) -> (r: BCMMessageHeader)
        ensures
            r.opcode == TX_SETUP,
            r.flags == (BCM_SETTIMER | BCM_STARTTIMER) as u32,
            r.flags == 3,
            r.count == 0,
            r.ival1 == (BCMInterval { tv_sec: 0, tv_usec: 0 }),
            r.ival2 == (BCMInterval {
                tv_sec: (microseconds / 1_000_000) as i64,
                tv_usec: (microseconds % 1_000_000) as i64,
            }),
            r.ival2.tv_sec * 1_000_000 + r.ival2.tv_usec == microseconds,
            0 <= r.ival2.tv_usec < 1_000_000,
            r.can_id == frame@.id(),
            r.nframes == 1,
            r.frames@ == frame@,
    {
        let flags = (BCM_SETTIMER | BCM_STARTTIMER) as u32;
        let seconds = microseconds / 1_000_000;
        let micros = microseconds % 1_000_000;
        assert(seconds <= 18_446_744_073_709u64);
        assert((BCM_SETTIMER | BCM_STARTTIMER) == 3u16) by (bit_vector);
        BCMMessageHeader {
            opcode: TX_SETUP,
            flags,
            count: 0,
            ival1: BCMInterval { tv_sec: 0, tv_usec: 0 },
            ival2: BCMInterval { tv_sec: seconds as i64, tv_usec: micros as i64 },
            can_id: frame.id(),
            nframes: 1,
            frames: frame,
        }
    }

    /// The message as one block of 72 bytes, to be written in one call.
    pub fn to_bytes(&self) -> (r: Vec<u8>)
        ensures
            r@ == bcm_message_bytes(*self),
            r@.len() == BCM_MESSAGE_LEN,
    {
        let mut out: Vec<u8> = Vec::new();
        push_u32_le(&mut out, self.opcode);
        push_u32_le(&mut out, self.flags);
        push_u32_le(&mut out, self.count);
        push_u32_le(&mut out, 0);
        push_u64_le(&mut out, #[verifier::truncate] (self.ival1.tv_sec as u64));
        push_u64_le(&mut out, #[verifier::truncate] (self.ival1.tv_usec as u64));
        push_u64_le(&mut out, #[verifier::truncate] (self.ival2.tv_sec as u64));
        push_u64_le(&mut out, #[verifier::truncate] (self.ival2.tv_usec as u64));
        push_u32_le(&mut out, self.can_id);
        push_u32_le(&mut out, self.nframes);
        push_frame_record(&mut out, &self.frames);
        assert(out@ =~= bcm_message_bytes(*self));
        out
    }
}

impl CANFilter {
    /// The 8-byte record of this filter: identifier, then mask.
    pub fn to_wire(&self) -> (r: Vec<u8>)
        ensures
            r@ == u32_le(self@.0) + u32_le(self@.1),
    {
        let (id, mask) = self.parts();
        let mut out: Vec<u8> = Vec::new();
        push_u32_le(&mut out, id);
        push_u32_le(&mut out, mask);
        assert(out@ =~= u32_le(self@.0) + u32_le(self@.1));
        out
    }
}

/// The records of a list of filters, one after the other, as the kernel
/// takes them in one option.
pub open spec fn filters_record(filters: Seq<CANFilter>) -> Seq<u8>
    decreases filters.len(),
{
    if filters.len() == 0 {
        Seq::empty()
    } else {
        filters_record(filters.drop_last()) + u32_le(filters.last()@.0) + u32_le(filters.last()@.1)
    }
}

/// The records of `filters`, in order.
pub fn filters_to_wire(filters: &[CANFilter]) -> (r: Vec<u8>)
    ensures
        r@ == filters_record(filters@),
{
    let mut out: Vec<u8> = Vec::new();
    let mut i: usize = 0;
    while i < filters.len()
        invariant
            i <= filters@.len(),
            out@ == filters_record(filters@.subrange(0, i as int)),
        decreases filters@.len() - i,
    {
        let (id, mask) = filters[i].parts();
        push_u32_le(&mut out, id);
        push_u32_le(&mut out, mask);
        proof {
            let next = filters@.subrange(0, i as int + 1);
            assert(next.drop_last() =~= filters@.subrange(0, i as int));
        }
        i = i + 1;
    }
    assert(filters@.subrange(0, filters@.len() as int) =~= filters@);
    out
}

/// Whether a write that returned `written` moved the whole block of
/// `expected` bytes; a negative result is a failure and a short count is
/// one too, never retried.
pub fn write_complete(written: isize, expected: usize) -> (r: bool)
    ensures
        r == (written >= 0 && written as int == expected as int),
{
    written >= 0 && written as usize == expected
}

} // verus!
