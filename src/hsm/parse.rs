use vstd::prelude::*;
use vstd::string::*;
use crate::hsm::types::{HsmCertInfo, HsmDeviceInfo, HsmKeyInfo, HsmKeyType, HsmOptionType, HsmOptions};
use crate::text::{decimal, numbered, unknown_string, unknown_text, version_string, version_text};

verus! {

/// Position `i` of a SELECT reply starts a proprietary tag 0x85 whose value
/// (at least 5 bytes) lies inside the reply.
pub open spec fn spec_version_tag_at(data: Seq<u8>, i: int) -> bool {
    &&& 0 <= i
    &&& i + 1 < data.len()
    &&& data[i] == 0x85
    &&& data[i + 1] >= 5
    &&& i + 2 + data[i + 1] <= data.len()
}

/// The first position at or after `i` that holds a version tag.
pub open spec fn spec_first_tag_from(data: Seq<u8>, i: int) -> Option<int>
    decreases data.len() - i,
{
    if i < 0 || i + 1 >= data.len() {
        None
    } else if spec_version_tag_at(data, i) {
        Some(i)
    } else {
        spec_first_tag_from(data, i + 1)
    }
}

/// The first position of a SELECT reply that holds a version tag.
pub open spec fn spec_first_tag(data: Seq<u8>) -> Option<int> {
    spec_first_tag_from(data, 0)
}

/// The version and option flags a SELECT reply carries in its first tag.
pub open spec fn spec_select_version(data: Seq<u8>) -> Option<(u8, u8, u16)> {
    match spec_first_tag(data) {
        Some(i) => Some((data[i + 5], data[i + 6], (data[i + 2] as nat * 256 + data[i + 3] as nat) as u16)),
        None => None,
    }
}

/// The first position holding a version tag.
pub fn find_version_tag(data: &[u8]) -> (r: Option<usize>)
    ensures
        r is Some ==> spec_first_tag(data@) == Some(r->Some_0 as int),
        r is None ==> spec_first_tag(data@) is None,
        r is Some ==> spec_version_tag_at(data@, r->Some_0 as int),
{
    let mut i: usize = 0;
    while data.len() - i > 1
        invariant
            i <= data@.len(),
            spec_first_tag_from(data@, 0) == spec_first_tag_from(data@, i as int),
        decreases data@.len() - i,
    {
        if data[i] == 0x85 {
            let len: usize = data[i + 1] as usize;
            if len <= data.len() - i - 2 && len >= 5 {
                assert(spec_version_tag_at(data@, i as int));
                return Some(i);
            }
        }
        assert(!spec_version_tag_at(data@, i as int));
        i = i + 1;
    }
    None
}

/// The prefixes under which ENUMERATE OBJECTS lists keys.
pub open spec fn spec_is_key_prefix(p: u8) -> bool {
    p == 0xCC || p == 0xC4 || p == 0xCD
}

/// The prefixes under which ENUMERATE OBJECTS lists certificates.
pub open spec fn spec_is_cert_prefix(p: u8) -> bool {
    p == 0xCE || p == 0xCA
}

/// Whether a listing entry with this prefix is kept: certificates when
/// `certs`, keys otherwise.
pub open spec fn spec_keeps(certs: bool, p: u8) -> bool {
    if certs {
        spec_is_cert_prefix(p)
    } else {
        spec_is_key_prefix(p)
    }
}

/// The (prefix, id) pairs of an object listing that `certs` keeps, in order.
pub open spec fn spec_entries(data: Seq<u8>, certs: bool) -> Seq<(u8, u8)>
    decreases data.len(),
{
    if data.len() < 2 {
        Seq::empty()
    } else {
        let rest = spec_entries(data.subrange(2, data.len() as int), certs);
        if spec_keeps(certs, data[0]) {
            seq![(data[0], data[1])] + rest
        } else {
            rest
        }
    }
}

/// The description of a listed key with this prefix and id.
pub open spec fn spec_key_from_entry(k: HsmKeyInfo, prefix: u8, id: u8) -> bool {
    &&& k.key_ref == id
    &&& k.id == id
    &&& k.label@ == "Key-"@ + decimal(id as nat)
    &&& if prefix == 0xCD {
        k.key_type is Aes
    } else {
        k.key_type is Ec && k.key_type->curve@ == unknown_text()
    }
    &&& k.key_size == 0
    &&& k.usage@.len() == 0
}

/// The description of a listed certificate with this id.
pub open spec fn spec_cert_from_entry(c: HsmCertInfo, id: u8) -> bool {
    &&& c.id == id
    &&& c.subject@ == "Certificate-"@ + decimal(id as nat)
    &&& c.issuer@.len() == 0
    &&& c.not_before@.len() == 0
    &&& c.not_after@.len() == 0
    &&& c.key_id == Some(id)
}

/// `keys` is what an ENUMERATE OBJECTS reply `data` lists as keys.
pub open spec fn spec_key_listing(keys: Seq<HsmKeyInfo>, data: Seq<u8>) -> bool {
    &&& keys.len() == spec_entries(data, false).len()
    &&& forall|k: int|
        0 <= k < keys.len() ==> #[trigger] spec_key_from_entry(
            keys[k],
            spec_entries(data, false)[k].0,
            spec_entries(data, false)[k].1,
        )
}

/// `certs` is what an ENUMERATE OBJECTS reply `data` lists as certificates.
pub open spec fn spec_cert_listing(certs: Seq<HsmCertInfo>, data: Seq<u8>) -> bool {
    &&& certs.len() == spec_entries(data, true).len()
    &&& forall|k: int|
        0 <= k < certs.len() ==> #[trigger] spec_cert_from_entry(
            certs[k],
            spec_entries(data, true)[k].1,
        )
}

/// `keys` is what some ENUMERATE OBJECTS reply lists as keys.
pub open spec fn spec_is_key_listing(keys: Seq<HsmKeyInfo>) -> bool {
    exists|data: Seq<u8>| #[trigger] spec_key_listing(keys, data)
}

/// `certs` is what some ENUMERATE OBJECTS reply lists as certificates.
pub open spec fn spec_is_cert_listing(certs: Seq<HsmCertInfo>) -> bool {
    exists|data: Seq<u8>| #[trigger] spec_cert_listing(certs, data)
}

proof fn lemma_entries_step(data: Seq<u8>, i: int, keep: bool)
    requires
        0 <= i,
        i + 1 < data.len(),
    ensures
        spec_entries(data.subrange(i, data.len() as int), keep) == if spec_keeps(keep, data[i]) {
            seq![(data[i], data[i + 1])] + spec_entries(data.subrange(i + 2, data.len() as int), keep)
        } else {
            spec_entries(data.subrange(i + 2, data.len() as int), keep)
        },
{
    let s = data.subrange(i, data.len() as int);
    assert(s.subrange(2, s.len() as int) =~= data.subrange(i + 2, data.len() as int));
}

proof fn lemma_entries_tail(data: Seq<u8>, i: int, keep: bool)
    requires
        0 <= i <= data.len(),
        i + 1 >= data.len(),
    ensures
        spec_entries(data.subrange(i, data.len() as int), keep) == Seq::<(u8, u8)>::empty(),
{
}

/// The keys named by an ENUMERATE OBJECTS reply: each 2-byte (prefix, id)
/// entry under a private, public or secret-key prefix, in order.
pub fn parse_key_list(data: &[u8]) -> (r: Vec<HsmKeyInfo>)
    ensures
        spec_key_listing(r@, data@),
{
    let ghost keep = false;
    let ghost all = spec_entries(data@, keep);
    let mut keys: Vec<HsmKeyInfo> = Vec::new();
    let mut i: usize = 0;
    let ghost mut seen: Seq<(u8, u8)> = Seq::empty();
    proof {
        assert(data@.subrange(0, data@.len() as int) =~= data@);
    }
    while data.len() - i > 1
        invariant
            i <= data@.len(),
            all == spec_entries(data@, keep),
            !keep,
            seen + spec_entries(data@.subrange(i as int, data@.len() as int), keep) == all,
            keys@.len() == seen.len(),
            forall|k: int|
                0 <= k < keys@.len() ==> #[trigger] spec_key_from_entry(
                    keys@[k],
                    seen[k].0,
                    seen[k].1,
                ),
        decreases data@.len() - i,
    {
        let prefix = data[i];
        let id = data[i + 1];
        proof {
            lemma_entries_step(data@, i as int, keep);
        }
        if prefix == 0xCC || prefix == 0xC4 || prefix == 0xCD {
            let key_type = if prefix == 0xCD {
                HsmKeyType::Aes
            } else {
                HsmKeyType::Ec { curve: unknown_string() }
            };
            proof { reveal_strlit("Key-"); }
            keys.push(
                HsmKeyInfo {
                    key_ref: id,
                    id,
                    label: numbered("Key-", id),
                    key_type,
                    key_size: 0,
                    usage: Vec::new(),
                },
            );
            proof {
                let old_seen = seen;
                seen = seen.push((prefix, id));
                assert(seen + spec_entries(data@.subrange(i + 2, data@.len() as int), keep)
                    =~= old_seen + (seq![(prefix, id)] + spec_entries(
                    data@.subrange(i + 2, data@.len() as int),
                    keep,
                )));
            }
        }
        i = i + 2;
    }
    proof {
        lemma_entries_tail(data@, i as int, keep);
        assert(seen + Seq::<(u8, u8)>::empty() =~= seen);
    }
    keys
}

/// The certificates named by an ENUMERATE OBJECTS reply: each entry under an
/// end-entity (0xCE) or CA (0xCA) certificate prefix, in order.
pub fn parse_certificate_list(data: &[u8]) -> (r: Vec<HsmCertInfo>)
    ensures
        spec_cert_listing(r@, data@),
{
    let ghost keep = true;
    let ghost all = spec_entries(data@, keep);
    let mut certs: Vec<HsmCertInfo> = Vec::new();
    let mut i: usize = 0;
    let ghost mut seen: Seq<(u8, u8)> = Seq::empty();
    proof {
        assert(data@.subrange(0, data@.len() as int) =~= data@);
    }
    while data.len() - i > 1
        invariant
            i <= data@.len(),
            all == spec_entries(data@, keep),
            keep,
            seen + spec_entries(data@.subrange(i as int, data@.len() as int), keep) == all,
            certs@.len() == seen.len(),
            forall|k: int|
                0 <= k < certs@.len() ==> #[trigger] spec_cert_from_entry(certs@[k], seen[k].1),
        decreases data@.len() - i,
    {
        let prefix = data[i];
        let id = data[i + 1];
        proof {
            lemma_entries_step(data@, i as int, keep);
        }
        if prefix == 0xCE || prefix == 0xCA {
            proof { reveal_strlit("Certificate-"); }
            certs.push(
                HsmCertInfo {
                    id,
                    subject: numbered("Certificate-", id),
                    issuer: String::new(),
                    not_before: String::new(),
                    not_after: String::new(),
                    key_id: Some(id),
                },
            );
            proof {
                let old_seen = seen;
                seen = seen.push((prefix, id));
                assert(seen + spec_entries(data@.subrange(i + 2, data@.len() as int), keep)
                    =~= old_seen + (seq![(prefix, id)] + spec_entries(
                    data@.subrange(i + 2, data@.len() as int),
                    keep,
                )));
            }
        }
        i = i + 2;
    }
    proof {
        lemma_entries_tail(data@, i as int, keep);
        assert(seen + Seq::<(u8, u8)>::empty() =~= seen);
    }
    certs
}

/// The options word of a dynamic-options reply: its first two bytes
/// big-endian, or zero when shorter.
pub open spec fn spec_options_word(data: Seq<u8>) -> nat {
    if data.len() >= 2 {
        data[0] as nat * 256 + data[1] as nat
    } else {
        0
    }
}

/// `o` is what a dynamic-options reply `data` says: bit 0 of the options
/// word is press-to-confirm, bit 1 the key-usage counter.
pub open spec fn spec_options_from(o: HsmOptions, data: Seq<u8>) -> bool {
    &&& o.press_to_confirm == (spec_options_word(data) % 2 == 1)
    &&& o.key_usage_counter == ((spec_options_word(data) / 2) % 2 == 1)
}

/// The options a dynamic-options reply reports.
pub fn parse_options(data: &[u8]) -> (r: HsmOptions)
    ensures
        spec_options_from(r, data@),
{
    let low: u8 = if data.len() >= 2 { data[1] } else { 0 };
    proof {
        if data@.len() >= 2 {
            let w = spec_options_word(data@);
            assert(w % 2 == (low as nat) % 2) by (nonlinear_arith)
                requires w == data@[0] as nat * 256 + low as nat;
            assert((w / 2) % 2 == ((low as nat) / 2) % 2) by (nonlinear_arith)
                requires w == data@[0] as nat * 256 + low as nat;
        }
    }
    HsmOptions { press_to_confirm: low % 2 == 1, key_usage_counter: (low / 2) % 2 == 1 }
}

/// The options with one of them switched on or off.
pub open spec fn spec_with_option(o: HsmOptions, option: HsmOptionType, enabled: bool) -> HsmOptions {
    match option {
        HsmOptionType::PressToConfirm => HsmOptions { press_to_confirm: enabled, ..o },
        HsmOptionType::KeyUsageCounter => HsmOptions { key_usage_counter: enabled, ..o },
    }
}

/// The options byte: bit 0 press-to-confirm, bit 1 key-usage counter.
pub open spec fn spec_options_byte(o: HsmOptions) -> u8 {
    ((if o.press_to_confirm { 1u8 } else { 0u8 }) + (if o.key_usage_counter { 2u8 } else { 0u8 })) as u8
}

/// The options byte to write so that `option` becomes `enabled` and the other stays.
pub fn options_byte(current: HsmOptions, option: HsmOptionType, enabled: bool) -> (r: u8)
    ensures
        r == spec_options_byte(spec_with_option(current, option, enabled)),
{
    let mut press = current.press_to_confirm;
    let mut counter = current.key_usage_counter;
    match option {
        HsmOptionType::PressToConfirm => {
            press = enabled;
        },
        HsmOptionType::KeyUsageCounter => {
            counter = enabled;
        },
    }
    let a: u8 = if press { 1 } else { 0 };
    let b: u8 = if counter { 2 } else { 0 };
    a + b
}

/// The version carried by the reply to INITIALIZE without data: bytes 5 and 6.
pub fn parse_init_version(data: &[u8]) -> (r: Option<String>)
    ensures
        data@.len() >= 7 ==> r is Some && r->Some_0@ == version_text(data@[5], data@[6]),
        data@.len() < 7 ==> r is None,
{
    if data.len() >= 7 {
        Some(version_string(data[5], data[6]))
    } else {
        None
    }
}

/// A big-endian 32-bit value at `off`.
pub open spec fn spec_be32(data: Seq<u8>, off: int) -> nat {
    data[off] as nat * 0x1000000 + data[off + 1] as nat * 0x10000 + data[off + 2] as nat * 0x100
        + data[off + 3] as nat
}

fn be32_at(data: &[u8], off: usize) -> (r: u32)
    requires
        off + 4 <= data@.len(),
    ensures
        r as nat == spec_be32(data@, off as int),
{
    (data[off] as u32) * 0x1000000 + (data[off + 1] as u32) * 0x10000 + (data[off + 2] as u32)
        * 0x100 + (data[off + 3] as u32)
}

/// The version text of a SELECT reply: its first tag's major.minor, else "unknown".
pub open spec fn spec_select_version_text(data: Seq<u8>) -> Seq<char> {
    match spec_select_version(data) {
        Some(v) => version_text(v.0, v.1),
        None => unknown_text(),
    }
}

/// The bytes of an optional reply.
pub open spec fn spec_reply_bytes(o: Option<Vec<u8>>) -> Option<Seq<u8>> {
    match o {
        Some(v) => Some(v@),
        None => None,
    }
}

/// The firmware version a device-info query reports: the SELECT reply's first
/// tag; else bytes 5 and 6 of the INIT reply when it has at least 7 bytes;
/// else "unknown".
pub open spec fn spec_device_version(select: Seq<u8>, init: Option<Seq<u8>>) -> Seq<char> {
    match spec_select_version(select) {
        Some(v) => version_text(v.0, v.1),
        None => match init {
            Some(d) => if d.len() >= 7 {
                version_text(d[5], d[6])
            } else {
                unknown_text()
            },
            None => unknown_text(),
        },
    }
}

/// The memory figures (free, used, total, files) a device-info query
/// reports: the four big-endian words of a reply of at least 16 bytes, else zeros.
pub open spec fn spec_memory_figures(memory: Option<Seq<u8>>) -> (nat, nat, nat, nat) {
    match memory {
        Some(m) => if m.len() >= 16 {
            (spec_be32(m, 0), spec_be32(m, 4), spec_be32(m, 8), spec_be32(m, 12))
        } else {
            (0, 0, 0, 0)
        },
        None => (0, 0, 0, 0),
    }
}

/// `info` is what the replies to SELECT, to INITIALIZE without data (if sent
/// and answered) and to the memory query (if answered) report.
pub open spec fn spec_device_info(
    info: HsmDeviceInfo,
    select: Seq<u8>,
    init: Option<Seq<u8>>,
    memory: Option<Seq<u8>>,
) -> bool {
    &&& info.firmware_version@ == spec_device_version(select, init)
    &&& info.serial_number@.len() == 0
    &&& info.free_memory as nat == spec_memory_figures(memory).0
    &&& info.used_memory as nat == spec_memory_figures(memory).1
    &&& info.total_memory as nat == spec_memory_figures(memory).2
    &&& info.file_count as nat == spec_memory_figures(memory).3
}

/// `info` is what some replies to the device-info queries report.
pub open spec fn spec_is_device_report(info: HsmDeviceInfo) -> bool {
    exists|select: Seq<u8>, init: Option<Seq<u8>>, memory: Option<Seq<u8>>|
        #[trigger] spec_device_info(info, select, init, memory)
}

/// Memory statistics (free, used, total, file count): four big-endian 32-bit
/// counters, or zeros when the reply is shorter than 16 bytes.
pub fn parse_memory_stats(data: &[u8]) -> (r: (u64, u64, u64, u32))
    ensures
        data@.len() >= 16 ==> r.0 as nat == spec_be32(data@, 0) && r.1 as nat == spec_be32(
            data@,
            4,
        ) && r.2 as nat == spec_be32(data@, 8) && r.3 as nat == spec_be32(data@, 12),
        data@.len() < 16 ==> r == (0u64, 0u64, 0u64, 0u32),
{
    if data.len() >= 16 {
        (
            be32_at(data, 0) as u64,
            be32_at(data, 4) as u64,
            be32_at(data, 8) as u64,
            be32_at(data, 12),
        )
    } else {
        (0, 0, 0, 0)
    }
}

} // verus!
