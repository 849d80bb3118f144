use vstd::prelude::*;
use vstd::string::*;
use crate::bytes::append_bytes;
use crate::error::HsmError;
use crate::hsm::types::{ApduCommand, KeyObjectType, RtcTime};

verus! {

/// The SC-HSM application identifier selected before every operation.
pub open spec fn spec_sc_hsm_aid() -> Seq<u8> {
    seq![0xE8u8, 0x2B, 0x06, 0x01, 0x04, 0x01, 0x81, 0xC3, 0x1F, 0x02, 0x01]
}

/// `cmd` has exactly these header bytes, data field and `le`.
pub open spec fn spec_command(
    cmd: ApduCommand,
    cla: u8,
    ins: u8,
    p1: u8,
    p2: u8,
    data: Option<Seq<u8>>,
    le: Option<u16>,
) -> bool {
    &&& cmd.cla == cla
    &&& cmd.ins == ins
    &&& cmd.p1 == p1
    &&& cmd.p2 == p2
    &&& cmd.le == le
    &&& match data {
        Some(d) => cmd.data is Some && cmd.data->Some_0@ == d,
        None => cmd.data is None,
    }
}

/// A user PIN is 6 to 16 characters long.
pub open spec fn spec_pin_format_ok(pin: Seq<char>) -> bool {
    6 <= pin.len() <= 16
}

pub open spec fn spec_is_hex_char(c: char) -> bool {
    ('0' <= c && c <= '9') || ('a' <= c && c <= 'f') || ('A' <= c && c <= 'F')
}

/// An SO-PIN is exactly 16 hexadecimal characters, in either case.
pub open spec fn spec_so_pin_format_ok(so_pin: Seq<char>) -> bool {
    so_pin.len() == 16 && forall|i: int| 0 <= i < 16 ==> #[trigger] spec_is_hex_char(so_pin[i])
}

/// The value of a hexadecimal digit.
pub open spec fn spec_hex_value(c: char) -> int {
    if '0' <= c && c <= '9' {
        c as int - '0' as int
    } else if 'a' <= c && c <= 'f' {
        c as int - 'a' as int + 10
    } else {
        c as int - 'A' as int + 10
    }
}

/// Every character of the complete pairs of `s` is a hexadecimal digit.
pub open spec fn spec_hex_pairs_ok(s: Seq<char>) -> bool {
    forall|i: int| 0 <= i < 2 * (s.len() / 2) ==> #[trigger] spec_is_hex_char(s[i])
}

/// `bytes` holds one byte per complete pair of hexadecimal digits of `s`, high digit first.
pub open spec fn spec_hex_decoded(s: Seq<char>, bytes: Seq<u8>) -> bool {
    &&& bytes.len() == s.len() / 2
    &&& forall|k: int|
        0 <= k < bytes.len() ==> #[trigger] bytes[k] == (spec_hex_value(s[2 * k]) * 16
            + spec_hex_value(s[2 * k + 1])) as u8
}

/// The file-identifier prefix of each object namespace.
pub open spec fn spec_object_prefix(t: KeyObjectType) -> u8 {
    match t {
        KeyObjectType::PrivateKey => 0xCC,
        KeyObjectType::PublicKey => 0xC4,
        KeyObjectType::SecretKey => 0xCD,
        KeyObjectType::Certificate => 0xCE,
    }
}

/// Key sizes accepted for RSA generation.
pub open spec fn spec_rsa_bits_ok(bits: u16) -> bool {
    bits == 1024 || bits == 2048 || bits == 3072 || bits == 4096
}

/// Key sizes accepted for AES generation.
pub open spec fn spec_aes_bits_ok(bits: u16) -> bool {
    bits == 128 || bits == 192 || bits == 256
}

/// The bit size of each supported named curve.
pub open spec fn spec_ec_curve_bits(curve: Seq<char>) -> Option<u16> {
    if curve == "secp256r1"@ || curve == "brainpoolP256r1"@ {
        Some(256u16)
    } else if curve == "secp384r1"@ {
        Some(384u16)
    } else if curve == "secp521r1"@ {
        Some(521u16)
    } else {
        None
    }
}

pub(crate) fn is_hex_char(c: char) -> (r: bool)
    ensures
        r == spec_is_hex_char(c),
{
    ('0' <= c && c <= '9') || ('a' <= c && c <= 'f') || ('A' <= c && c <= 'F')
}

fn hex_value(c: char) -> (r: u8)
    requires
        spec_is_hex_char(c),
    ensures
        r as int == spec_hex_value(c),
        r < 16,
{
    if '0' <= c && c <= '9' {
        (c as u32 - '0' as u32) as u8
    } else if 'a' <= c && c <= 'f' {
        (c as u32 - 'a' as u32 + 10) as u8
    } else {
        (c as u32 - 'A' as u32 + 10) as u8
    }
}

/// Decodes pairs of hexadecimal digits into bytes; a trailing odd digit is ignored.
pub fn hex_to_bytes(hex: &str) -> (r: Result<Vec<u8>, HsmError>)
    ensures
        spec_hex_pairs_ok(hex@) ==> r is Ok && spec_hex_decoded(hex@, r->Ok_0@),
        !spec_hex_pairs_ok(hex@) ==> r == Err::<Vec<u8>, HsmError>(HsmError::SoPinFormatInvalid),
{
    let len: usize = hex.unicode_len();
    let pairs: usize = len / 2;
    let mut bytes: Vec<u8> = Vec::new();
    let mut k: usize = 0;
    while k < pairs
        invariant
            len == hex@.len(),
            pairs == len / 2,
            k <= pairs,
            bytes@.len() == k,
            forall|i: int| 0 <= i < 2 * k ==> #[trigger] spec_is_hex_char(hex@[i]),
            forall|j: int|
                0 <= j < k ==> #[trigger] bytes@[j] == (spec_hex_value(hex@[2 * j]) * 16
                    + spec_hex_value(hex@[2 * j + 1])) as u8,
        decreases pairs - k,
    {
        let h = hex.get_char(2 * k);
        let l = hex.get_char(2 * k + 1);
        if !is_hex_char(h) || !is_hex_char(l) {
            return Err(HsmError::SoPinFormatInvalid);
        }
        let b: u8 = hex_value(h) * 16 + hex_value(l);
        bytes.push(b);
        k = k + 1;
    }
    Ok(bytes)
}

/// The file-identifier prefix of an object namespace.
pub fn object_prefix(t: KeyObjectType) -> (r: u8)
    ensures
        r == spec_object_prefix(t),
{
    match t {
        KeyObjectType::PrivateKey => 0xCC,
        KeyObjectType::PublicKey => 0xC4,
        KeyObjectType::SecretKey => 0xCD,
        KeyObjectType::Certificate => 0xCE,
    }
}

fn same_text(a: &str, b: &str) -> (r: bool)
    ensures
        r == (a@ == b@),
{
    let n: usize = a.unicode_len();
    if n != b.unicode_len() {
        return false;
    }
    let mut i: usize = 0;
    while i < n
        invariant
            n == a@.len(),
            n == b@.len(),
            i <= n,
            forall|j: int| 0 <= j < i ==> a@[j] == b@[j],
        decreases n - i,
    {
        if a.get_char(i) != b.get_char(i) {
            return false;
        }
        i = i + 1;
    }
    assert(a@ =~= b@);
    true
}

/// The bit size of a supported named curve, `None` for any other name.
pub fn ec_curve_bits(curve: &str) -> (r: Option<u16>)
    ensures
        r == spec_ec_curve_bits(curve@),
{
    if same_text(curve, "secp256r1") || same_text(curve, "brainpoolP256r1") {
        Some(256)
    } else if same_text(curve, "secp384r1") {
        Some(384)
    } else if same_text(curve, "secp521r1") {
        Some(521)
    } else {
        None
    }
}

/// SELECT of the SC-HSM application by name.
pub fn select_applet_command() -> (r: ApduCommand)
    ensures
        spec_command(r, 0x00, 0xA4, 0x04, 0x00, Some(spec_sc_hsm_aid()), None),
{
    let aid: Vec<u8> = vec![0xE8, 0x2B, 0x06, 0x01, 0x04, 0x01, 0x81, 0xC3, 0x1F, 0x02, 0x01];
    assert(aid@ =~= spec_sc_hsm_aid());
    ApduCommand { cla: 0x00, ins: 0xA4, p1: 0x04, p2: 0x00, data: Some(aid), le: None }
}

/// INITIALIZE with TLVs 0x81 (user PIN), 0x82 (SO-PIN bytes) and 0x92 (share count).
pub fn initialize_command(pin: &str, so_pin_bytes: &[u8], dkek_shares: u8) -> (r: ApduCommand)
    ensures
        spec_command(
            r,
            0x80,
            0x50,
            0x00,
            0x00,
            Some(
                seq![0x81u8, pin.spec_bytes().len() as u8] + pin.spec_bytes() + seq![
                    0x82u8,
                    so_pin_bytes@.len() as u8,
                ] + so_pin_bytes@ + seq![0x92u8, 0x01, dkek_shares],
            ),
            None,
        ),
{
    let pin_bytes = pin.as_bytes();
    let mut data: Vec<u8> = Vec::new();
    data.push(0x81);
    data.push(pin_bytes.len() as u8);
    append_bytes(&mut data, pin_bytes);
    data.push(0x82);
    data.push(so_pin_bytes.len() as u8);
    append_bytes(&mut data, so_pin_bytes);
    data.push(0x92);
    data.push(0x01);
    data.push(dkek_shares);
    proof {
        assert(data@ =~= seq![0x81u8, pin.spec_bytes().len() as u8] + pin.spec_bytes() + seq![
            0x82u8,
            so_pin_bytes@.len() as u8,
        ] + so_pin_bytes@ + seq![0x92u8, 0x01, dkek_shares]);
    }
    ApduCommand { cla: 0x80, ins: 0x50, p1: 0x00, p2: 0x00, data: Some(data), le: None }
}

/// VERIFY of the user PIN (reference 0x81).
pub fn verify_pin_command(pin: &str) -> (r: ApduCommand)
    ensures
        spec_command(r, 0x00, 0x20, 0x00, 0x81, Some(pin.spec_bytes()), None),
{
    let mut data: Vec<u8> = Vec::new();
    append_bytes(&mut data, pin.as_bytes());
    proof {
        assert(data@ =~= pin.spec_bytes());
    }
    ApduCommand { cla: 0x00, ins: 0x20, p1: 0x00, p2: 0x81, data: Some(data), le: None }
}

/// `old ‖ 0x00 ‖ new`, the payload of PIN changes and unblocking.
pub fn joined_payload(old: &[u8], new: &[u8]) -> (r: Vec<u8>)
    ensures
        r@ == old@ + seq![0x00u8] + new@,
{
    let mut data: Vec<u8> = Vec::new();
    append_bytes(&mut data, old);
    data.push(0x00);
    append_bytes(&mut data, new);
    proof {
        assert(data@ =~= old@ + seq![0x00u8] + new@);
    }
    data
}

/// CHANGE REFERENCE DATA for reference `p2` (0x81 user PIN, 0x88 SO-PIN).
pub fn change_reference_command(p2: u8, old: &[u8], new: &[u8]) -> (r: ApduCommand)
    ensures
        spec_command(r, 0x00, 0x24, 0x00, p2, Some(old@ + seq![0x00u8] + new@), None),
{
    ApduCommand {
        cla: 0x00,
        ins: 0x24,
        p1: 0x00,
        p2: p2,
        data: Some(joined_payload(old, new)),
        le: None,
    }
}

/// RESET RETRY COUNTER of the user PIN, authorised by the SO-PIN.
pub fn reset_retry_counter_command(so_pin_bytes: &[u8], new_pin: &str) -> (r: ApduCommand)
    ensures
        spec_command(
            r,
            0x00,
            0x2C,
            0x00,
            0x81,
            Some(so_pin_bytes@ + seq![0x00u8] + new_pin.spec_bytes()),
            None,
        ),
{
    ApduCommand {
        cla: 0x00,
        ins: 0x2C,
        p1: 0x00,
        p2: 0x81,
        data: Some(joined_payload(so_pin_bytes, new_pin.as_bytes())),
        le: None,
    }
}

/// A command with no data field that expects up to 256 bytes back.
pub fn read_command(cla: u8, ins: u8, p1: u8, p2: u8) -> (r: ApduCommand)
    ensures
        spec_command(r, cla, ins, p1, p2, None, Some(256u16)),
{
    ApduCommand { cla, ins, p1, p2, data: None, le: Some(256) }
}

/// A command carrying `data` and expecting nothing back.
pub fn write_command(cla: u8, ins: u8, p1: u8, p2: u8, data: Vec<u8>) -> (r: ApduCommand)
    ensures
        spec_command(r, cla, ins, p1, p2, Some(data@), None),
{
    ApduCommand { cla, ins, p1, p2, data: Some(data), le: None }
}

/// GENERATE ASYMMETRIC KEY PAIR for RSA: tag 0x30, the size big-endian, the label.
pub fn generate_rsa_command(bits: u16, id: u8, label: &str) -> (r: ApduCommand)
    ensures
        spec_command(
            r,
            0x00,
            0x46,
            id,
            0x00,
            Some(seq![0x30u8, (bits / 256) as u8, (bits % 256) as u8] + label.spec_bytes()),
            None,
        ),
{
    let mut data: Vec<u8> = Vec::new();
    data.push(0x30);
    data.push((bits / 256) as u8);
    data.push((bits % 256) as u8);
    append_bytes(&mut data, label.as_bytes());
    proof {
        assert(data@ =~= seq![0x30u8, (bits / 256) as u8, (bits % 256) as u8]
            + label.spec_bytes());
    }
    write_command(0x00, 0x46, id, 0x00, data)
}

/// GENERATE ASYMMETRIC KEY PAIR for EC: tag 0x31, the curve name, 0x00, the label.
pub fn generate_ec_command(curve: &str, id: u8, label: &str) -> (r: ApduCommand)
    ensures
        spec_command(
            r,
            0x00,
            0x46,
            id,
            0x00,
            Some(seq![0x31u8] + curve.spec_bytes() + seq![0x00u8] + label.spec_bytes()),
            None,
        ),
{
    let mut data: Vec<u8> = Vec::new();
    data.push(0x31);
    append_bytes(&mut data, curve.as_bytes());
    data.push(0x00);
    append_bytes(&mut data, label.as_bytes());
    proof {
        assert(data@ =~= seq![0x31u8] + curve.spec_bytes() + seq![0x00u8] + label.spec_bytes());
    }
    write_command(0x00, 0x46, id, 0x00, data)
}

/// GENERATE SECRET KEY for AES: tag 0x32 and the size big-endian.
pub fn generate_aes_command(bits: u16, id: u8) -> (r: ApduCommand)
    ensures
        spec_command(
            r,
            0x00,
            0x48,
            id,
            0x00,
            Some(seq![0x32u8, (bits / 256) as u8, (bits % 256) as u8]),
            None,
        ),
{
    let mut data: Vec<u8> = Vec::new();
    data.push(0x32);
    data.push((bits / 256) as u8);
    data.push((bits % 256) as u8);
    proof {
        assert(data@ =~= seq![0x32u8, (bits / 256) as u8, (bits % 256) as u8]);
    }
    write_command(0x00, 0x48, id, 0x00, data)
}

/// DELETE FILE addressed by namespace prefix and id.
pub fn delete_file_command(key_type: KeyObjectType, id: u8) -> (r: ApduCommand)
    ensures
        spec_command(r, 0x00, 0xE4, spec_object_prefix(key_type), id, None, None),
{
    ApduCommand {
        cla: 0x00,
        ins: 0xE4,
        p1: object_prefix(key_type),
        p2: id,
        data: None,
        le: None,
    }
}

/// The KEY DOMAIN command that imports a DKEK share: `share ‖ 0x00 ‖ password`.
pub fn dkek_import_command(share_data: &[u8], password: &str) -> (r: ApduCommand)
    ensures
        spec_command(
            r,
            0x80,
            0x52,
            0x00,
            0x93,
            Some(share_data@ + seq![0x00u8] + password.spec_bytes()),
            Some(256u16),
        ),
{
    ApduCommand {
        cla: 0x80,
        ins: 0x52,
        p1: 0x00,
        p2: 0x93,
        data: Some(joined_payload(share_data, password.as_bytes())),
        le: Some(256),
    }
}

/// The KEY DOMAIN command that exports a DKEK share protected by `password`.
pub fn dkek_export_command(password: &str) -> (r: ApduCommand)
    ensures
        spec_command(r, 0x80, 0x52, 0x00, 0x92, Some(password.spec_bytes()), Some(256u16)),
{
    let mut data: Vec<u8> = Vec::new();
    append_bytes(&mut data, password.as_bytes());
    proof {
        assert(data@ =~= password.spec_bytes());
    }
    ApduCommand { cla: 0x80, ins: 0x52, p1: 0x00, p2: 0x92, data: Some(data), le: Some(256) }
}

/// The eight RTC bytes: year big-endian, month, day, weekday, hour, minute, second.
pub open spec fn spec_rtc_bytes(t: RtcTime) -> Seq<u8> {
    seq![
        (t.year / 256) as u8,
        (t.year % 256) as u8,
        t.month,
        t.day,
        t.weekday,
        t.hour,
        t.minute,
        t.second,
    ]
}

/// The EXTRAS command (P1 0x0A) that sets the token's clock.
pub fn datetime_command(t: RtcTime) -> (r: ApduCommand)
    ensures
        spec_command(r, 0x80, 0x64, 0x0A, 0x00, Some(spec_rtc_bytes(t)), None),
{
    let data: Vec<u8> = vec![
        (t.year / 256) as u8,
        (t.year % 256) as u8,
        t.month,
        t.day,
        t.weekday,
        t.hour,
        t.minute,
        t.second,
    ];
    assert(data@ =~= spec_rtc_bytes(t));
    write_command(0x80, 0x64, 0x0A, 0x00, data)
}

} // verus!
