//! The CAN frame: a 32-bit identifier field that packs three flag bits above
//! the numeric identifier, a payload length and an 8-byte payload buffer.
use vstd::prelude::*;

verus! {

/// If set, the identifier is in the 29-bit extended format.
pub const EFF_FLAG: u32 = 0x80000000;

/// Remote transmission request flag.
pub const RTR_FLAG: u32 = 0x40000000;

/// Error frame flag.
pub const ERR_FLAG: u32 = 0x20000000;

/// Valid bits of a standard (11-bit) identifier.
pub const SFF_MASK: u32 = 0x000007ff;

/// Valid bits of an extended (29-bit) identifier.
pub const EFF_MASK: u32 = 0x1fffffff;

/// Valid bits of the error class field of an error frame.
pub const ERR_MASK: u32 = 0x1fffffff;

/// Largest payload of a classic CAN frame.
pub const MAX_DATA_LEN: usize = 8;

/// Why a frame could not be built.
#[derive(Debug, Clone, Copy, PartialEq, Eq, Structural)]
pub enum FrameError {
    /// The payload was longer than 8 bytes.
    TooMuchData,
    /// The identifier was greater than `EFF_MASK`.
    IDTooLarge,
}

/// The mathematical content of a frame, field by field as it lies in memory.
pub ghost struct FrameModel {
    /// identifier and EFF/RTR/ERR flags
    pub raw: u32,
    /// payload length; bytes of `data` beyond it are not part of the payload
    pub len: u8,
    pub pad: u8,
    pub res0: u8,
    pub res1: u8,
    /// the whole 8-byte payload buffer
    pub data: Seq<u8>,
}

impl FrameModel {
    pub open spec fn is_extended(self) -> bool {
        self.raw & EFF_FLAG != 0
    }

    pub open spec fn is_rtr(self) -> bool {
        self.raw & RTR_FLAG != 0
    }

    pub open spec fn is_error(self) -> bool {
        self.raw & ERR_FLAG != 0
    }

    /// The numeric identifier without flags, masked by the frame's format.
    pub open spec fn id(self) -> u32 {
        if self.is_extended() {
            self.raw & EFF_MASK
        } else {
            self.raw & SFF_MASK
        }
    }

    /// The error class bits of an error frame.
    pub open spec fn err(self) -> u32 {
        self.raw & ERR_MASK
    }

    /// The valid part of the payload buffer.
    pub open spec fn payload(self) -> Seq<u8> {
        self.data.subrange(0, self.len as int)
    }
}

/// The identifier field that encoding stores for `id` and the two flags:
/// `id` itself, with the extended flag set when it does not fit 11 bits.
pub open spec fn raw_id_of(id: u32, rtr: bool, err: bool) -> u32 {
    let a = if id > SFF_MASK { id | EFF_FLAG } else { id };
    let b = if rtr { a | RTR_FLAG } else { a };
    if err { b | ERR_FLAG } else { b }
}

/// `payload` followed by zeros up to 8 bytes.
pub open spec fn padded(payload: Seq<u8>) -> Seq<u8> {
    payload + Seq::new((8 - payload.len()) as nat, |i: int| 0u8)
}

/// What encoding `payload` under `id` with the given flags yields.
pub open spec fn encode_spec(id: u32, payload: Seq<u8>, rtr: bool, err: bool) -> Result<
    FrameModel,
    FrameError,
> {
    if payload.len() > 8 {
        Err(FrameError::TooMuchData)
    } else if id > EFF_MASK {
        Err(FrameError::IDTooLarge)
    } else {
        Ok(
            FrameModel {
                raw: raw_id_of(id, rtr, err),
                len: payload.len() as u8,
                pad: 0,
                res0: 0,
                res1: 0,
                data: padded(payload),
            },
        )
    }
}

/// Encoding a valid identifier and payload and reading the fields back
/// gives what went in: the identifier (masked by the format that encoding
/// chose), both flags, the extended flag exactly for identifiers over 11
/// bits, and the payload.
pub proof fn lemma_encode_decode(id: u32, payload: Seq<u8>, rtr: bool, err: bool)
    requires
        id <= EFF_MASK,
        payload.len() <= 8,
    ensures
        encode_spec(id, payload, rtr, err) matches Ok(m) && m.id() == id && m.is_rtr() == rtr
            && m.is_error() == err && m.is_extended() == (id > SFF_MASK) && m.payload()
            == payload,
{
    let m = encode_spec(id, payload, rtr, err)->Ok_0;
    let raw = m.raw;
    assert(raw == raw_id_of(id, rtr, err));
    assert(id <= EFF_MASK ==> {
        let a = if id > SFF_MASK { id | EFF_FLAG } else { id };
        let b = if rtr { a | RTR_FLAG } else { a };
        let c = if err { b | ERR_FLAG } else { b };
        &&& (c & EFF_FLAG != 0) == (id > SFF_MASK)
        &&& (c & RTR_FLAG != 0) == rtr
        &&& (c & ERR_FLAG != 0) == err
        &&& (c & EFF_FLAG != 0 ==> c & EFF_MASK == id)
        &&& (c & EFF_FLAG == 0 ==> c & SFF_MASK == id)
    }) by (bit_vector);
    assert(m.payload() =~= payload);
}

/// A payload over 8 bytes is refused, whatever the identifier.
pub proof fn lemma_too_much_data(id: u32, payload: Seq<u8>, rtr: bool, err: bool)
    requires
        payload.len() > 8,
    ensures
        encode_spec(id, payload, rtr, err) == Err::<FrameModel, FrameError>(FrameError::TooMuchData),
{
}

/// An identifier over `EFF_MASK` with a payload that fits is refused.
pub proof fn lemma_id_too_large(id: u32, payload: Seq<u8>, rtr: bool, err: bool)
    requires
        id > EFF_MASK,
        payload.len() <= 8,
    ensures
        encode_spec(id, payload, rtr, err) == Err::<FrameModel, FrameError>(FrameError::IDTooLarge),
{
}

/// A classic CAN frame, laid out as the kernel's `struct can_frame`.
///
/// It is built only through the validating encoder, the zero frame, or the
/// decoder of the wire record, so its length never exceeds 8.
#[derive(Debug, Clone, Copy)]
pub struct CANFrame {
    id: u32,
    data_len: u8,
    pad: u8,
    res0: u8,
    res1: u8,
    data: [u8; 8],
}

impl View for CANFrame {
    type V = FrameModel;

    closed spec fn view(&self) -> FrameModel {
        FrameModel {
            raw: self.id,
            len: self.data_len,
            pad: self.pad,
            res0: self.res0,
            res1: self.res1,
            data: self.data@,
        }
    }
}

impl CANFrame {
    #[verifier::type_invariant]
    closed spec fn inv(self) -> bool {
        self.data_len <= 8
    }

    /// Builds a frame, setting the extended flag on identifiers that do not
    /// fit 11 bits. Fails on a payload over 8 bytes, then on an identifier
    /// over `EFF_MASK`; nothing is clamped.
    pub fn new(id: u32, data: &[u8], rtr: bool, err: bool) -> (r: Result<CANFrame, FrameError>)
        ensures
            r matches Ok(f) ==> encode_spec(id, data@, rtr, err) == Ok::<FrameModel, FrameError>(f@),
            r matches Err(e) ==> encode_spec(id, data@, rtr, err) == Err::<FrameModel, FrameError>(e),
    {
        if data.len() > MAX_DATA_LEN {
            return Err(FrameError::TooMuchData);
        }
        if id > EFF_MASK {
            return Err(FrameError::IDTooLarge);
        }
        let mut raw = id;
        if id > SFF_MASK {
            raw = raw | EFF_FLAG;
        }
        if rtr {
            raw = raw | RTR_FLAG;
        }
        if err {
            raw = raw | ERR_FLAG;
        }
        let mut full_data = [0u8; 8];
        let mut n: usize = 0;
        while n < data.len()
            invariant
                data@.len() <= 8,
                n <= data@.len(),
                full_data@.len() == 8,
                forall|i: int| 0 <= i < n ==> full_data@[i] == data@[i],
                forall|i: int| n <= i < 8 ==> full_data@[i] == 0u8,
            decreases data@.len() - n,
        {
            full_data[n] = data[n];
            n = n + 1;
        }
        let f = CANFrame {
            id: raw,
            data_len: data.len() as u8,
            pad: 0,
            res0: 0,
            res1: 0,
            data: full_data,
        };
        assert(f@.data =~= padded(data@));
        Ok(f)
    }

    /// The fields as they lie in memory.
    pub(crate) fn parts(&self) -> (r: (u32, u8, u8, u8, u8, [u8; 8]))
        ensures
            r.0 == self@.raw,
            r.1 == self@.len,
            r.2 == self@.pad,
            r.3 == self@.res0,
            r.4 == self@.res1,
            r.5@ == self@.data,
            self@.len <= 8,
            self@.data.len() == 8,
    {
        proof {
            use_type_invariant(self);
        }
        (self.id, self.data_len, self.pad, self.res0, self.res1, self.data)
    }

    /// A frame from its fields as they lie in memory.
    pub(crate) fn from_parts(raw: u32, len: u8, pad: u8, res0: u8, res1: u8, data: [u8; 8]) -> (r:
        CANFrame)
        requires
            len <= 8,
        ensures
            r@ == (FrameModel { raw, len, pad, res0, res1, data: data@ }),
    {
        CANFrame { id: raw, data_len: len, pad, res0, res1, data }
    }

    /// The identifier without flags.
    pub fn id(&self) -> (r: u32)
        ensures
            r == self@.id(),
    {
        if self.is_extended() {
            self.id & EFF_MASK
        } else {
            self.id & SFF_MASK
        }
    }

    /// The error class bits.
    pub fn err(&self) -> (r: u32)
        ensures
            r == self@.err(),
    {
        self.id & ERR_MASK
    }

    pub fn is_extended(&self) -> (r: bool)
        ensures
            r == self@.is_extended(),
    {
        self.id & EFF_FLAG != 0
    }

    pub fn is_error(&self) -> (r: bool)
        ensures
            r == self@.is_error(),
    {
        self.id & ERR_FLAG != 0
    }

    pub fn is_rtr(&self) -> (r: bool)
        ensures
            r == self@.is_rtr(),
    {
        self.id & RTR_FLAG != 0
    }

    /// The valid part of the payload.
    pub fn data(&self) -> (r: &[u8])
        ensures
            r@ == self@.payload(),
            r@.len() == self@.len,
            self@.len <= 8,
            self@.data.len() == 8,
    {
        proof {
            use_type_invariant(self);
        }
        vstd::slice::slice_subrange(self.data.as_slice(), 0, self.data_len as usize)
    }

    /// The payload buffer as an array.
    pub closed spec fn buffer(&self) -> [u8; 8] {
        self.data
    }

    /// The whole payload buffer, bytes beyond the length included.
    pub fn raw_data(&self) -> (r: [u8; 8])
        ensures
            r@ == self@.data,
            r == self.buffer(),
    {
        self.data
    }

    /// The payload length.
    pub fn len(&self) -> (r: usize)
        ensures
            r == self@.len,
            r <= 8,
    {
        proof {
            use_type_invariant(self);
        }
        self.data_len as usize
    }
}

impl Default for CANFrame {
    /// The all-zero frame: identifier 0, no flags, empty payload.
    fn default() -> (r: CANFrame)
        ensures
            r@ == (FrameModel { raw: 0, len: 0, pad: 0, res0: 0, res1: 0, data: Seq::new(8, |i: int| 0u8) }),
    {
        let f = CANFrame { id: 0, data_len: 0, pad: 0, res0: 0, res1: 0, data: [0u8; 8] };
        assert(f@.data =~= Seq::new(8, |i: int| 0u8));
        f
    }
}

/// A receive filter as the kernel's `struct can_filter` holds it: a frame
/// passes when its identifier field agrees with `id` on the bits of `mask`.
#[derive(Debug, Clone, Copy, PartialEq, Eq, Structural)]
pub struct CANFilter {
    id: u32,
    mask: u32,
}

impl View for CANFilter {
    /// The identifier and the mask.
    type V = (u32, u32);

    closed spec fn view(&self) -> (u32, u32) {
        (self.id, self.mask)
    }
}

impl CANFilter {
    /// A filter on `id` under `mask`; every pair is accepted.
    pub fn new(id: u32, mask: u32) -> (r: Result<CANFilter, FrameError>)
        ensures
            r matches Ok(f) && f@ == (id, mask),
    {
        Ok(CANFilter { id, mask })
    }

    /// The identifier and the mask.
    pub fn parts(&self) -> (r: (u32, u32))
        ensures
            r == self@,
    {
        (self.id, self.mask)
    }
}

} // verus!
