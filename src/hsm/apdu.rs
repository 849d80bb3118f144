use vstd::prelude::*;
use crate::bytes::append_bytes;
use crate::error::{ApduError, HsmError};
use crate::hsm::types::{ApduCommand, ApduResponse};

verus! {

/// Whether the command carries a non-empty data field (an empty one counts as absent).
pub open spec fn spec_has_data(cmd: ApduCommand) -> bool {
    cmd.data_bytes().len() > 0
}

/// The expected response length, reading an absent one as zero.
pub open spec fn spec_le_value(cmd: ApduCommand) -> nat {
    match cmd.le {
        Some(le) => le as nat,
        None => 0,
    }
}

/// The extended form is needed when the data field or `le` overflow the short form.
pub open spec fn spec_needs_extended(cmd: ApduCommand) -> bool {
    cmd.data_bytes().len() > 255 || spec_le_value(cmd) > 256
}

/// A 16-bit value as two big-endian bytes.
pub open spec fn be16(v: nat) -> Seq<u8> {
    seq![(v / 256) as u8, (v % 256) as u8]
}

/// The one-byte short-form `le`: 256 is written as the sentinel 0x00.
pub open spec fn short_le(le: u16) -> u8 {
    if le >= 256 {
        0u8
    } else {
        le as u8
    }
}

/// The ISO 7816-4 byte image of a command, in short or extended form.
pub open spec fn spec_encode_apdu(cmd: ApduCommand) -> Seq<u8> {
    let header = seq![cmd.cla, cmd.ins, cmd.p1, cmd.p2];
    let d = cmd.data_bytes();
    if !spec_needs_extended(cmd) {
        header + (if d.len() > 0 {
            seq![d.len() as u8] + d
        } else {
            Seq::empty()
        }) + (match cmd.le {
            Some(le) => seq![short_le(le)],
            None => Seq::empty(),
        })
    } else {
        header + seq![0u8] + (if d.len() > 0 {
            be16(d.len()) + d
        } else {
            Seq::empty()
        }) + (match cmd.le {
            Some(le) => be16(le as nat),
            None => Seq::empty(),
        })
    }
}

/// The status-word table: `None` for success and for "more data pending".
pub open spec fn spec_status_to_error(sw1: u8, sw2: u8) -> Option<HsmError> {
    if sw1 == 0x90 && sw2 == 0x00 {
        None
    } else if sw1 == 0x61 {
        None
    } else if sw1 == 0x63 && sw2 / 16 == 0xC {
        Some(HsmError::PinInvalid(sw2 % 16))
    } else if sw1 == 0x69 && sw2 == 0x83 {
        Some(HsmError::PinLocked)
    } else if sw1 == 0x69 && sw2 == 0x82 {
        Some(HsmError::SoPinInvalid)
    } else if sw1 == 0x6A && (sw2 == 0x82 || sw2 == 0x88) {
        Some(HsmError::KeyNotFound(0))
    } else {
        Some(HsmError::StatusError(sw1, sw2))
    }
}

/// Encoding and decoding of APDUs, and the meaning of status words.
pub trait ApduCodec {
    /// The byte image of `cmd` (short form when it fits, else extended).
    fn encode_apdu(&self, cmd: &ApduCommand) -> (r: Vec<u8>)
        requires
            cmd.wf(),
        ensures
            r@ == spec_encode_apdu(*cmd),
    ;

    /// Splits a raw reply into data and the trailing two status bytes.
    fn decode_apdu_response(&self, raw: &[u8]) -> (r: Result<ApduResponse, ApduError>)
        ensures
            raw@.len() < 2 ==> r == Err::<ApduResponse, ApduError>(
                ApduError::IncompleteResponse(raw@.len() as usize),
            ),
            raw@.len() >= 2 ==> r is Ok && r->Ok_0.data@ == raw@.subrange(0, raw@.len() - 2)
                && r->Ok_0.sw1 == raw@[raw@.len() - 2] && r->Ok_0.sw2 == raw@[raw@.len() - 1],
    ;

    /// The error a status word stands for, or `None` when it is not one.
    fn status_to_error(&self, sw1: u8, sw2: u8) -> (r: Option<HsmError>)
        ensures
            r == spec_status_to_error(sw1, sw2),
    ;
}

/// The codec used by the HSM command layer.
pub struct ApduCodecImpl;

impl ApduCodecImpl {
    pub fn new() -> (r: Self)
        ensures
            r == ApduCodecImpl,
    {
        ApduCodecImpl
    }

    /// Whether `cmd` must be written in the extended form.
    fn needs_extended(cmd: &ApduCommand) -> (r: bool)
        ensures
            r == spec_needs_extended(*cmd),
    {
        let data_len: usize = match &cmd.data {
            Some(d) => d.len(),
            None => 0,
        };
        let le: u16 = match cmd.le {
            Some(le) => le,
            None => 0,
        };
        data_len > 255 || le > 256
    }

    /// The extended form: a 0x00 marker, then 16-bit big-endian lengths.
    fn encode_extended(&self, cmd: &ApduCommand, has_data: bool, has_le: bool) -> (r: Vec<u8>)
        requires
            cmd.wf(),
            spec_needs_extended(*cmd),
            has_data == spec_has_data(*cmd),
            has_le == cmd.le is Some,
        ensures
            r@ == spec_encode_apdu(*cmd),
    {
        let mut buf: Vec<u8> = Vec::new();
        buf.push(cmd.cla);
        buf.push(cmd.ins);
        buf.push(cmd.p1);
        buf.push(cmd.p2);
        buf.push(0x00);
        if has_data {
            if let Some(data) = &cmd.data {
                let lc: usize = data.len();
                buf.push((lc / 256) as u8);
                buf.push((lc % 256) as u8);
                append_bytes(&mut buf, data.as_slice());
            }
        }
        if let Some(le) = cmd.le {
            buf.push((le / 256) as u8);
            buf.push((le % 256) as u8);
        }
        proof {
            let d = cmd.data_bytes();
            let header = seq![cmd.cla, cmd.ins, cmd.p1, cmd.p2];
            let mid = if d.len() > 0 { be16(d.len()) + d } else { Seq::<u8>::empty() };
            let tail = match cmd.le {
                Some(le) => be16(le as nat),
                None => Seq::<u8>::empty(),
            };
            assert(buf@ =~= header + seq![0u8] + mid + tail);
        }
        buf
    }
}

impl Default for ApduCodecImpl {
    fn default() -> (r: Self)
        ensures
            r == ApduCodecImpl,
    {
        ApduCodecImpl::new()
    }
}

impl ApduCodec for ApduCodecImpl {
    fn encode_apdu(&self, cmd: &ApduCommand) -> (r: Vec<u8>) {
        let has_data: bool = match &cmd.data {
            Some(d) => d.len() > 0,
            None => false,
        };
        let has_le: bool = cmd.le.is_some();
        if Self::needs_extended(cmd) {
            return self.encode_extended(cmd, has_data, has_le);
        }
        let mut buf: Vec<u8> = Vec::new();
        buf.push(cmd.cla);
        buf.push(cmd.ins);
        buf.push(cmd.p1);
        buf.push(cmd.p2);
        if has_data {
            if let Some(data) = &cmd.data {
                buf.push(data.len() as u8);
                append_bytes(&mut buf, data.as_slice());
            }
        }
        if let Some(le) = cmd.le {
            buf.push(if le >= 256 { 0x00 } else { le as u8 });
        }
        proof {
            let d = cmd.data_bytes();
            let header = seq![cmd.cla, cmd.ins, cmd.p1, cmd.p2];
            let mid = if d.len() > 0 { seq![d.len() as u8] + d } else { Seq::<u8>::empty() };
            let tail = match cmd.le {
                Some(le) => seq![short_le(le)],
                None => Seq::<u8>::empty(),
            };
            assert(buf@ =~= header + mid + tail);
        }
        buf
    }

    fn decode_apdu_response(&self, raw: &[u8]) -> (r: Result<ApduResponse, ApduError>) {
        if raw.len() < 2 {
            return Err(ApduError::IncompleteResponse(raw.len()));
        }
        let len: usize = raw.len();
        Ok(ApduResponse {
            data: crate::bytes::copy_range(raw, 0, len - 2),
            sw1: raw[len - 2],
            sw2: raw[len - 1],
        })
    }

    fn status_to_error(&self, sw1: u8, sw2: u8) -> (r: Option<HsmError>) {
        if sw1 == 0x90 && sw2 == 0x00 {
            None
        } else if sw1 == 0x61 {
            None
        } else if sw1 == 0x63 && sw2 / 16 == 0xC {
            Some(HsmError::PinInvalid(sw2 % 16))
        } else if sw1 == 0x69 && sw2 == 0x83 {
            Some(HsmError::PinLocked)
        } else if sw1 == 0x69 && sw2 == 0x82 {
            Some(HsmError::SoPinInvalid)
        } else if sw1 == 0x6A && (sw2 == 0x82 || sw2 == 0x88) {
            Some(HsmError::KeyNotFound(0))
        } else {
            Some(HsmError::StatusError(sw1, sw2))
        }
    }
}

} // verus!
