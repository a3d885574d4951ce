//! CI-144 frame parser: zero-copy views into a byte buffer.
//!
//! ```text
//! [ 8-byte BIND-19 header ] [ 4-byte PFP ] [ 28-byte SAP (optional) ] [ payload ]
//! ```
//!
//! Header: magic(2) flags(1) type(1) seq(2, big-endian) present(1) payload_len(1).
//! Bit 7 of `present` marks a PFP, bit 6 a SAP.

use vstd::prelude::*;

verus! {

/// CI-144 family magic, high byte.
pub const CI144_MAGIC_HI: u8 = 0xCF;

/// CI-144 family magic, as the first two bytes of a frame.
pub const CI144_MAGIC: [u8; 2] = [0xCFu8, 0x14u8];

/// CI-144 family magic, low byte.
pub const CI144_MAGIC_LO: u8 = 0x14;

/// BIND-19 header size.
pub const HEADER_SIZE: usize = 8;

/// PFP size.
pub const PFP_SIZE: usize = 4;

/// SAP size.
pub const SAP_SIZE: usize = 28;

/// Minimum frame size (header + PFP).
pub const MIN_FRAME_SIZE: usize = 12;

/// Frame type: data frame.
pub const FRAME_TYPE_DATA: u8 = 0x01;

/// Frame type: control frame.
pub const FRAME_TYPE_CONTROL: u8 = 0x02;

/// Present flag: PFP present.
pub const PRESENT_PFP: u8 = 0x80;

/// Present flag: SAP present.
pub const PRESENT_SAP: u8 = 0x40;

/// Whether the present byte marks a PFP.
pub open spec fn spec_has_pfp(present: u8) -> bool {
    present & PRESENT_PFP != 0
}

/// Whether the present byte marks a SAP.
pub open spec fn spec_has_sap(present: u8) -> bool {
    present & PRESENT_SAP != 0
}

/// Frame parsing error.
#[allow(inconsistent_fields)]
#[derive(Debug, Clone, Copy, PartialEq, Eq)]
pub enum FrameError {
    /// Frame shorter than the header.
    TooShort { expected: usize, actual: usize },
    /// Wrong family magic; carries the two bytes read.
    InvalidMagic { actual: [u8; 2] },
    /// PFP announced but cut short.
    TruncatedPfp { offset: usize, available: usize },
    /// SAP announced but cut short.
    TruncatedSap { offset: usize, available: usize },
    /// The frame carries no PFP.
    PfpNotPresent,
}

/// BIND-19 frame header (8 bytes, parsed).
#[derive(Debug, Clone, Copy, PartialEq, Eq)]
pub struct FrameHeader {
    /// CI-144 family magic (0xCF14).
    pub magic: [u8; 2],
    /// Sub-protocol ID and feature flags.
    pub flags: u8,
    /// Frame type (0x01 data, 0x02 control).
    pub frame_type: u8,
    /// Sequence counter.
    pub seq: u16,
    /// Present flags (PFP, SAP).
    pub present: u8,
    /// Payload length (low byte).
    pub payload_len: u8,
}

/// The serialized header: magic, flags, type, big-endian seq, present,
/// payload length.
pub open spec fn header_bytes(h: FrameHeader) -> Seq<u8> {
    seq![h.magic[0], h.magic[1], h.flags, h.frame_type, (h.seq / 256) as u8,
         (h.seq % 256) as u8, h.present, h.payload_len]
}

/// Whether a header holds the fields of the first eight bytes of `data`.
pub open spec fn header_of(h: FrameHeader, data: Seq<u8>) -> bool {
    &&& h.magic@ == data.subrange(0, 2)
    &&& h.flags == data[2]
    &&& h.frame_type == data[3]
    &&& h.seq as int == data[4] as int * 256 + data[5] as int
    &&& h.present == data[6]
    &&& h.payload_len == data[7]
}

/// Whether the first two bytes are the family magic.
pub open spec fn magic_ok(data: Seq<u8>) -> bool {
    data[0] == CI144_MAGIC_HI && data[1] == CI144_MAGIC_LO
}

/// The error `FrameHeader::parse` reports for `data`, if any.
pub open spec fn header_error(data: Seq<u8>) -> Option<FrameError> {
    if data.len() < 8 {
        Some(FrameError::TooShort { expected: 8, actual: data.len() as usize })
    } else if !magic_ok(data) {
        Some(FrameError::InvalidMagic { actual: [data[0], data[1]] })
    } else {
        None
    }
}

impl FrameHeader {
    /// Parse a header from the first eight bytes of `data`.
    pub fn parse(data: &[u8]) -> (r: Result<FrameHeader, FrameError>)
        ensures
            match header_error(data@) {
                Some(e) => r == Err::<FrameHeader, FrameError>(e),
                None => r matches Ok(h) && header_of(h, data@),
            },
    {
        if data.len() < HEADER_SIZE {
            return Err(FrameError::TooShort { expected: HEADER_SIZE, actual: data.len() });
        }
        let magic: [u8; 2] = [data[0], data[1]];
        if !(data[0] == CI144_MAGIC_HI && data[1] == CI144_MAGIC_LO) {
            return Err(FrameError::InvalidMagic { actual: magic });
        }
        assert(magic@ =~= data@.subrange(0, 2));
        Ok(FrameHeader {
            magic,
            flags: data[2],
            frame_type: data[3],
            seq: (data[4] as u16) * 256 + (data[5] as u16),
            present: data[6],
            payload_len: data[7],
        })
    }

    /// Whether a PFP is present.
    pub fn has_pfp(&self) -> (b: bool)
        ensures
            b == spec_has_pfp(self.present),
    {
        self.present & PRESENT_PFP != 0
    }

    /// Whether a SAP is present.
    pub fn has_sap(&self) -> (b: bool)
        ensures
            b == spec_has_sap(self.present),
    {
        self.present & PRESENT_SAP != 0
    }

    /// Whether the magic is the CI-144 family magic.
    pub fn is_valid_magic(&self) -> (b: bool)
        ensures
            b == (self.magic[0] == CI144_MAGIC_HI && self.magic[1] == CI144_MAGIC_LO),
    {
        self.magic[0] == CI144_MAGIC_HI && self.magic[1] == CI144_MAGIC_LO
    }

    /// Serialize the header.
    pub fn to_bytes(&self) -> (b: [u8; 8])
        ensures
            b@ == header_bytes(*self),
    {
        let b: [u8; 8] = [
            self.magic[0],
            self.magic[1],
            self.flags,
            self.frame_type,
            (self.seq / 256) as u8,
            (self.seq % 256) as u8,
            self.present,
            self.payload_len,
        ];
        assert(b@ =~= header_bytes(*self));
        b
    }
}

/// Serializing a header and parsing it back gives the same fields, when the
/// magic is the family magic.
pub proof fn law_header_roundtrip(h: FrameHeader, h2: FrameHeader)
    requires
        h.magic[0] == CI144_MAGIC_HI,
        h.magic[1] == CI144_MAGIC_LO,
        header_of(h2, header_bytes(h)),
    ensures
        header_error(header_bytes(h)) is None,
        h2.magic@ == h.magic@,
        h2.flags == h.flags,
        h2.frame_type == h.frame_type,
        h2.seq == h.seq,
        h2.present == h.present,
        h2.payload_len == h.payload_len,
{
}

/// A parsed frame: views into the original buffer.
#[derive(Debug, Clone, Copy)]
pub struct Frame<'a> {
    /// Frame header.
    pub header: FrameHeader,
    /// PFP bytes (4), if present.
    pub pfp: Option<&'a [u8]>,
    /// SAP bytes (28), if present.
    pub sap: Option<&'a [u8]>,
    /// Payload bytes.
    pub payload: &'a [u8],
}

/// The bytes an optional view shows.
pub open spec fn opt_bytes(o: Option<&[u8]>) -> Option<Seq<u8>> {
    match o {
        Some(s) => Some(s@),
        None => None,
    }
}

/// Offset of the SAP section: after the header and the PFP if present.
pub open spec fn sap_offset(data: Seq<u8>) -> int {
    if spec_has_pfp(data[6]) { 12 } else { 8 }
}

/// Offset of the payload: after the header, the PFP and the SAP.
pub open spec fn payload_offset(data: Seq<u8>) -> int {
    sap_offset(data) + if spec_has_sap(data[6]) { 28int } else { 0int }
}

/// The error `Frame::parse` reports for `data`, if any.
pub open spec fn frame_error(data: Seq<u8>) -> Option<FrameError> {
    match header_error(data) {
        Some(e) => Some(e),
        None => if spec_has_pfp(data[6]) && data.len() < 12 {
            Some(FrameError::TruncatedPfp { offset: 8, available: (data.len() - 8) as usize })
        } else if spec_has_sap(data[6]) && data.len() < sap_offset(data) + 28 {
            Some(FrameError::TruncatedSap {
                offset: sap_offset(data) as usize,
                available: (data.len() - sap_offset(data)) as usize,
            })
        } else {
            None
        },
    }
}

/// Whether a frame is the parse of `data` (which has no frame error).
pub open spec fn frame_of(f: Frame, data: Seq<u8>) -> bool {
    &&& header_of(f.header, data)
    &&& opt_bytes(f.pfp) == if spec_has_pfp(data[6]) { Some(data.subrange(8, 12)) } else { None }
    &&& opt_bytes(f.sap) == if spec_has_sap(data[6]) {
            Some(data.subrange(sap_offset(data), sap_offset(data) + 28))
        } else {
            None
        }
    &&& f.payload@ == data.subrange(payload_offset(data), data.len() as int)
}

impl<'a> Frame<'a> {
    /// Parse a frame (zero-copy): header, then PFP and SAP as announced by
    /// the present byte, then the payload.
    pub fn parse(data: &'a [u8]) -> (r: Result<Frame<'a>, FrameError>)
        ensures
            match frame_error(data@) {
                Some(e) => r == Err::<Frame<'a>, FrameError>(e),
                None => r matches Ok(f) && frame_of(f, data@),
            },
    {
        if data.len() < HEADER_SIZE {
            return Err(FrameError::TooShort { expected: HEADER_SIZE, actual: data.len() });
        }
        let header = match FrameHeader::parse(data) {
            Ok(h) => h,
            Err(e) => return Err(e),
        };
        let mut offset: usize = HEADER_SIZE;
        let pfp = if header.has_pfp() {
            if data.len() < offset + PFP_SIZE {
                return Err(FrameError::TruncatedPfp { offset, available: data.len() - offset });
            }
            let p = &data[offset..offset + PFP_SIZE];
            offset = offset + PFP_SIZE;
            Some(p)
        } else {
            None
        };
        let sap = if header.has_sap() {
            if data.len() < offset + SAP_SIZE {
                return Err(FrameError::TruncatedSap { offset, available: data.len() - offset });
            }
            let s = &data[offset..offset + SAP_SIZE];
            offset = offset + SAP_SIZE;
            Some(s)
        } else {
            None
        };
        let payload = &data[offset..data.len()];
        Ok(Frame { header, pfp, sap, payload })
    }

    /// The PFP bytes, or `PfpNotPresent`.
    pub fn extract_pfp(&self) -> (r: Result<&'a [u8], FrameError>)
        ensures
            match self.pfp {
                Some(p) => r == Ok::<&'a [u8], FrameError>(p),
                None => r == Err::<&'a [u8], FrameError>(FrameError::PfpNotPresent),
            },
    {
        match self.pfp {
            Some(p) => Ok(p),
            None => Err(FrameError::PfpNotPresent),
        }
    }

    /// Header + PFP + SAP + payload size.
    pub fn total_size(&self) -> (n: usize)
        requires
            self.payload@.len() + 40 <= usize::MAX,
        ensures
            n == 8 + (if self.pfp is Some { 4int } else { 0int })
                + (if self.sap is Some { 28int } else { 0int }) + self.payload@.len(),
    {
        let mut size = HEADER_SIZE;
        if self.pfp.is_some() {
            size = size + PFP_SIZE;
        }
        if self.sap.is_some() {
            size = size + SAP_SIZE;
        }
        size + self.payload.len()
    }

    /// Whether this is a data frame.
    pub fn is_data_frame(&self) -> (b: bool)
        ensures
            b == (self.header.frame_type == FRAME_TYPE_DATA),
    {
        self.header.frame_type == FRAME_TYPE_DATA
    }

    /// Whether this is a control frame.
    pub fn is_control_frame(&self) -> (b: bool)
        ensures
            b == (self.header.frame_type == FRAME_TYPE_CONTROL),
    {
        self.header.frame_type == FRAME_TYPE_CONTROL
    }
}

/// Frame builder: constructs frames for sending or testing.
#[derive(Debug)]
pub struct FrameBuilder {
    header: FrameHeader,
    pfp: Option<[u8; 4]>,
    sap: Option<[u8; 28]>,
    payload: Vec<u8>,
}

/// The bytes of an optional fixed section.
pub open spec fn opt_section<const N: usize>(o: Option<[u8; N]>) -> Seq<u8> {
    match o {
        Some(a) => a@,
        None => Seq::empty(),
    }
}

impl FrameBuilder {
    /// Every builder is consistent (see `wf`).
    #[verifier::type_invariant]
    spec fn builder_inv(self) -> bool {
        self.wf()
    }

    /// The header this builder will write.
    pub closed spec fn spec_header(&self) -> FrameHeader {
        self.header
    }

    /// The PFP this builder will write.
    pub closed spec fn spec_pfp(&self) -> Option<[u8; 4]> {
        self.pfp
    }

    /// The SAP this builder will write.
    pub closed spec fn spec_sap(&self) -> Option<[u8; 28]> {
        self.sap
    }

    /// The payload this builder will write.
    pub closed spec fn spec_payload(&self) -> Seq<u8> {
        self.payload@
    }

    /// The bytes `build` produces.
    pub open spec fn spec_bytes(&self) -> Seq<u8> {
        header_bytes(self.spec_header()) + opt_section(self.spec_pfp())
            + opt_section(self.spec_sap()) + self.spec_payload()
    }

    /// The builder's consistency: the present byte announces exactly the
    /// sections the builder holds, and the magic is the family magic.
    pub open spec fn wf(&self) -> bool {
        &&& self.spec_header().magic[0] == CI144_MAGIC_HI
        &&& self.spec_header().magic[1] == CI144_MAGIC_LO
        &&& spec_has_pfp(self.spec_header().present) == self.spec_pfp() is Some
        &&& spec_has_sap(self.spec_header().present) == self.spec_sap() is Some
    }

    /// A builder for an empty data frame: magic 0xCF14, no flags, seq 0,
    /// no PFP, no SAP, no payload.
    pub fn new() -> (b: FrameBuilder)
        ensures
            b.spec_header() == (FrameHeader {
                magic: [CI144_MAGIC_HI, CI144_MAGIC_LO],
                flags: 0,
                frame_type: FRAME_TYPE_DATA,
                seq: 0,
                present: 0,
                payload_len: 0,
            }),
            b.spec_pfp() is None,
            b.spec_sap() is None,
            b.spec_payload() == Seq::<u8>::empty(),
            b.wf(),
    {
        assert(0u8 & 0x80u8 == 0u8 && 0u8 & 0x40u8 == 0u8) by (bit_vector);
        let b = FrameBuilder {
            header: FrameHeader {
                magic: [CI144_MAGIC_HI, CI144_MAGIC_LO],
                flags: 0,
                frame_type: FRAME_TYPE_DATA,
                seq: 0,
                present: 0,
                payload_len: 0,
            },
            pfp: None,
            sap: None,
            payload: Vec::new(),
        };
        b
    }

    /// Set the sequence counter.
    pub fn with_seq(self, seq: u16) -> (b: FrameBuilder)
        ensures
            b.spec_header() == (FrameHeader { seq, ..self.spec_header() }),
            b.spec_pfp() == self.spec_pfp(),
            b.spec_sap() == self.spec_sap(),
            b.spec_payload() == self.spec_payload(),
            b.wf(),
    {
        proof {
            use_type_invariant(&self);
        }
        FrameBuilder { header: FrameHeader { seq, ..self.header }, ..self }
    }

    /// Set the frame type.
    pub fn with_frame_type(self, frame_type: u8) -> (b: FrameBuilder)
        ensures
            b.spec_header() == (FrameHeader { frame_type, ..self.spec_header() }),
            b.spec_pfp() == self.spec_pfp(),
            b.spec_sap() == self.spec_sap(),
            b.spec_payload() == self.spec_payload(),
            b.wf(),
    {
        proof {
            use_type_invariant(&self);
        }
        FrameBuilder { header: FrameHeader { frame_type, ..self.header }, ..self }
    }

    /// Add PFP bytes and mark them present.
    pub fn with_pfp(self, pfp: [u8; 4]) -> (b: FrameBuilder)
        ensures
            b.spec_header() == (FrameHeader {
                present: self.spec_header().present | PRESENT_PFP,
                ..self.spec_header()
            }),
            b.spec_pfp() == Some(pfp),
            b.spec_sap() == self.spec_sap(),
            b.spec_payload() == self.spec_payload(),
            b.wf(),
    {
        proof {
            use_type_invariant(&self);
        }
        let p = self.header.present;
        assert((p | 0x80u8) & 0x80u8 != 0u8) by (bit_vector);
        assert(((p | 0x80u8) & 0x40u8 != 0u8) == (p & 0x40u8 != 0u8)) by (bit_vector);
        FrameBuilder { header: FrameHeader { present: p | PRESENT_PFP, ..self.header }, pfp: Some(pfp), ..self }
    }

    /// Add SAP bytes and mark them present.
    pub fn with_sap(self, sap: [u8; 28]) -> (b: FrameBuilder)
        ensures
            b.spec_header() == (FrameHeader {
                present: self.spec_header().present | PRESENT_SAP,
                ..self.spec_header()
            }),
            b.spec_pfp() == self.spec_pfp(),
            b.spec_sap() == Some(sap),
            b.spec_payload() == self.spec_payload(),
            b.wf(),
    {
        proof {
            use_type_invariant(&self);
        }
        let p = self.header.present;
        assert((p | 0x40u8) & 0x40u8 != 0u8) by (bit_vector);
        assert(((p | 0x40u8) & 0x80u8 != 0u8) == (p & 0x80u8 != 0u8)) by (bit_vector);
        FrameBuilder { header: FrameHeader { present: p | PRESENT_SAP, ..self.header }, sap: Some(sap), ..self }
    }

    /// Set the payload; the header's length byte holds the length capped
    /// at 255.
    pub fn with_payload(self, payload: Vec<u8>) -> (b: FrameBuilder)
        ensures
            b.spec_header() == (FrameHeader {
                payload_len: if payload@.len() < 255 { payload@.len() as u8 } else { 255u8 },
                ..self.spec_header()
            }),
            b.spec_pfp() == self.spec_pfp(),
            b.spec_sap() == self.spec_sap(),
            b.spec_payload() == payload@,
            b.wf(),
    {
        proof {
            use_type_invariant(&self);
        }
        let n = payload.len();
        let payload_len: u8 = if n < 255 { n as u8 } else { 255u8 };
        FrameBuilder { header: FrameHeader { payload_len, ..self.header }, payload, ..self }
    }

    /// Size of the frame `build` produces.
    fn total_size(&self) -> (n: usize)
        requires
            self.payload@.len() + 40 <= usize::MAX,
        ensures
            n == self.spec_bytes().len(),
    {
        let mut size = HEADER_SIZE;
        if self.pfp.is_some() {
            size = size + PFP_SIZE;
        }
        if self.sap.is_some() {
            size = size + SAP_SIZE;
        }
        size + self.payload.len()
    }

    /// Serialize: header, PFP, SAP, payload.
    pub fn build(self) -> (out: Vec<u8>)
        requires
            self.spec_payload().len() + 40 <= usize::MAX,
        ensures
            out@ == self.spec_bytes(),
            self.wf(),
            frame_error(out@) is None,
            opt_bytes_of(out@, 8, 12, spec_has_pfp(out@[6])) == match self.spec_pfp() {
                Some(p) => Some(p@),
                None => None::<Seq<u8>>,
            },
            opt_bytes_of(out@, sap_offset(out@), sap_offset(out@) + 28, spec_has_sap(out@[6])) == match self.spec_sap() {
                Some(s) => Some(s@),
                None => None::<Seq<u8>>,
            },
            out@.subrange(payload_offset(out@), out@.len() as int) == self.spec_payload(),
            out@.subrange(0, 8) == header_bytes(self.spec_header()),
    {
        proof {
            use_type_invariant(&self);
            law_build_parse_roundtrip(self);
        }
        let cap = self.total_size();
        let mut bytes: Vec<u8> = Vec::with_capacity(cap);
        let h = self.header.to_bytes();
        bytes.extend_from_slice(h.as_slice());
        if let Some(p) = self.pfp {
            bytes.extend_from_slice(p.as_slice());
        }
        if let Some(s) = self.sap {
            bytes.extend_from_slice(s.as_slice());
        }
        bytes.extend_from_slice(self.payload.as_slice());
        assert(bytes@ =~= self.spec_bytes());
        bytes
    }
}

impl Clone for FrameBuilder {
    fn clone(&self) -> (b: Self)
        ensures
            b.spec_header() == self.spec_header(),
            b.spec_pfp() == self.spec_pfp(),
            b.spec_sap() == self.spec_sap(),
            b.spec_payload() == self.spec_payload(),
    {
        proof {
            use_type_invariant(self);
        }
        FrameBuilder { header: self.header, pfp: self.pfp, sap: self.sap, payload: self.payload.clone() }
    }
}

impl Default for FrameBuilder {
    fn default() -> (b: Self)
        ensures
            b.spec_pfp() is None,
            b.spec_sap() is None,
            b.spec_payload() == Seq::<u8>::empty(),
            b.wf(),
    {
        FrameBuilder::new()
    }
}

/// A parsed frame's sections cover its buffer exactly: the header, the PFP
/// and SAP where present, and the payload add up to the buffer's length
/// (what `Frame::total_size` computes).
pub proof fn law_parsed_frame_covers_buffer(f: Frame, data: Seq<u8>)
    requires
        frame_error(data) is None,
        frame_of(f, data),
    ensures
        8 + (if f.pfp is Some { 4int } else { 0int }) + (if f.sap is Some { 28int } else { 0int }) + f.payload@.len()
            == data.len(),
{
}

/// A well-formed builder's bytes parse back into its own sections: the
/// parse succeeds, the PFP, SAP and payload are the ones the builder held,
/// and the header fields are the builder's header fields.
pub proof fn law_build_parse_roundtrip(b: FrameBuilder)
    requires
        b.wf(),
    ensures
        frame_error(b.spec_bytes()) is None,
        opt_bytes_of(b.spec_bytes(), 8, 12, spec_has_pfp(b.spec_bytes()[6])) == match b.spec_pfp() {
            Some(p) => Some(p@),
            None => None::<Seq<u8>>,
        },
        opt_bytes_of(b.spec_bytes(), sap_offset(b.spec_bytes()), sap_offset(b.spec_bytes()) + 28,
            spec_has_sap(b.spec_bytes()[6])) == match b.spec_sap() {
            Some(s) => Some(s@),
            None => None::<Seq<u8>>,
        },
        b.spec_bytes().subrange(payload_offset(b.spec_bytes()), b.spec_bytes().len() as int)
            == b.spec_payload(),
        b.spec_bytes().subrange(0, 8) == header_bytes(b.spec_header()),
{
    let d = b.spec_bytes();
    let hb = header_bytes(b.spec_header());
    let ps = opt_section(b.spec_pfp());
    let ss = opt_section(b.spec_sap());
    let pl = b.spec_payload();
    assert(d =~= hb + ps + ss + pl);
    assert(d[0] == hb[0] && d[1] == hb[1] && d[6] == hb[6]);
    assert(d.subrange(0, 8) =~= hb);
    if b.spec_pfp() is Some {
        assert(d.subrange(8, 12) =~= ps);
    }
    let so = sap_offset(d);
    assert(so == 8 + ps.len());
    if b.spec_sap() is Some {
        assert(d.subrange(so, so + 28) =~= ss);
    }
    assert(d.subrange(payload_offset(d), d.len() as int) =~= pl);
}

/// A section of `data` when `present`, else nothing.
pub open spec fn opt_bytes_of(data: Seq<u8>, lo: int, hi: int, present: bool) -> Option<Seq<u8>> {
    if present { Some(data.subrange(lo, hi)) } else { None }
}

} // verus!
