use vstd::prelude::*;
use vstd::string::*;
use crate::error::DeviceError;
use crate::text::{unknown_string, unknown_text, version_string, version_text};
use crate::types::{DeviceInfo, DeviceType};

verus! {

/// USB identity of the default Pico-FIDO firmware (Raspberry Pi Foundation).
pub const PICO_FIDO_VID: u16 = 0x2E8A;
pub const PICO_FIDO_PID: u16 = 0x10FE;

/// USB identity of the Nitrokey FIDO2 firmware build.
pub const NITROKEY_FIDO_VID: u16 = 0x20A0;
pub const NITROKEY_FIDO_PID: u16 = 0x42B2;

/// "THSM", the application marker in an SC-HSM card's historical bytes.
pub const HSM_ATR_MARKER: [u8; 4] = [0x54, 0x48, 0x53, 0x4D];

pub open spec fn spec_hsm_atr_marker() -> Seq<u8> {
    seq![0x54u8, 0x48, 0x53, 0x4D]
}

/// What the HID backend reports of one device.
#[derive(Debug, Clone)]
pub struct HidRecord {
    pub vendor_id: u16,
    pub product_id: u16,
    pub path: String,
    pub serial: Option<String>,
    pub release_number: u16,
    /// Whether the device could be opened.
    pub opened: bool,
}

/// What the PC/SC backend reports of one reader: its name, and the card's
/// ATR when a shared connection and a status read succeeded.
#[derive(Debug, Clone)]
pub struct ReaderRecord {
    pub name: String,
    pub atr: Option<Vec<u8>>,
}

/// The allow-list of FIDO token identities.
pub open spec fn spec_is_pico_fido(vid: u16, pid: u16) -> bool {
    (vid == PICO_FIDO_VID && pid == PICO_FIDO_PID) || (vid == NITROKEY_FIDO_VID && pid
        == NITROKEY_FIDO_PID)
}

pub fn is_pico_fido(vid: u16, pid: u16) -> (r: bool)
    ensures
        r == spec_is_pico_fido(vid, pid),
{
    (vid == PICO_FIDO_VID && pid == PICO_FIDO_PID) || (vid == NITROKEY_FIDO_VID && pid
        == NITROKEY_FIDO_PID)
}

/// `marker` occurs in `atr` at position `i`.
pub open spec fn spec_marker_at(atr: Seq<u8>, marker: Seq<u8>, i: int) -> bool {
    0 <= i && i + marker.len() <= atr.len() && atr.subrange(i, i + marker.len()) == marker
}

/// `marker` occurs somewhere in `atr`.
pub open spec fn spec_contains_marker(atr: Seq<u8>, marker: Seq<u8>) -> bool {
    exists|i: int| spec_marker_at(atr, marker, i)
}

/// Whether `marker` occurs anywhere in `atr`.
pub fn atr_contains_marker(atr: &[u8], marker: &[u8]) -> (r: bool)
    requires
        marker@.len() > 0,
    ensures
        r == spec_contains_marker(atr@, marker@),
{
    let n: usize = atr.len();
    let m: usize = marker.len();
    if m > n {
        assert forall|i: int| !spec_marker_at(atr@, marker@, i) by {}
        return false;
    }
    let mut i: usize = 0;
    while i <= n - m
        invariant
            n == atr@.len(),
            m == marker@.len(),
            m <= n,
            forall|j: int| 0 <= j < i ==> !spec_marker_at(atr@, marker@, j),
        decreases n - m + 1 - i,
    {
        let mut k: usize = 0;
        let mut same = true;
        while k < m
            invariant
                n == atr@.len(),
                m == marker@.len(),
                i + m <= n,
                k <= m,
                same == (forall|t: int| 0 <= t < k ==> atr@[i + t] == marker@[t]),
            decreases m - k,
        {
            if atr[i + k] != marker[k] {
                same = false;
            }
            k = k + 1;
        }
        if same {
            assert(atr@.subrange(i as int, i + m) =~= marker@);
            assert(spec_marker_at(atr@, marker@, i as int));
            return true;
        }
        proof {
            if spec_marker_at(atr@, marker@, i as int) {
                assert forall|t: int| 0 <= t < m implies atr@[i + t] == marker@[t] by {
                    assert(atr@.subrange(i as int, i + m)[t] == atr@[i + t]);
                }
            }
        }
        i = i + 1;
    }
    assert forall|j: int| !spec_marker_at(atr@, marker@, j) by {
        if 0 <= j && j < i {
        }
    }
    false
}

/// The version text for an optional (major, minor) pair.
pub open spec fn spec_version_or_unknown(v: Option<(u8, u8)>) -> Seq<char> {
    match v {
        Some((major, minor)) => version_text(major, minor),
        None => unknown_text(),
    }
}

/// The version in an SC-HSM ATR: bytes 20 and 21 of an ATR of at least 23 bytes.
pub open spec fn spec_atr_version(atr: Seq<u8>) -> Option<(u8, u8)> {
    if atr.len() >= 23 {
        Some((atr[20], atr[21]))
    } else {
        None
    }
}

/// Firmware version and serial number read from an HSM ATR. The serial is not
/// in the ATR and is left empty.
pub fn read_hsm_info_from_atr(atr: &[u8]) -> (r: (String, String))
    ensures
        r.0@ == spec_version_or_unknown(spec_atr_version(atr@)),
        r.1@.len() == 0,
{
    let firmware_version = if atr.len() >= 23 {
        version_string(atr[20], atr[21])
    } else {
        unknown_string()
    };
    (firmware_version, String::new())
}

/// The version a HID device reports: the high and low bytes of a non-zero
/// release number, when the device could be opened.
pub open spec fn spec_hid_version(opened: bool, release_number: u16) -> Option<(u8, u8)> {
    if opened && release_number > 0 {
        Some(((release_number / 256) as u8, (release_number % 256) as u8))
    } else {
        None
    }
}

/// The firmware version text of a HID device.
pub fn hid_firmware_version(opened: bool, release_number: u16) -> (r: String)
    ensures
        r@ == spec_version_or_unknown(spec_hid_version(opened, release_number)),
{
    if opened && release_number > 0 {
        version_string((release_number / 256) as u8, (release_number % 256) as u8)
    } else {
        unknown_string()
    }
}

/// The HID records that the allow-list keeps, in order.
pub open spec fn spec_kept_hid(found: Seq<HidRecord>) -> Seq<HidRecord> {
    found.filter(|rec: HidRecord| spec_is_pico_fido(rec.vendor_id, rec.product_id))
}

/// The descriptor of a kept HID record.
pub open spec fn spec_hid_descriptor(d: DeviceInfo, rec: HidRecord) -> bool {
    &&& d.device_type == DeviceType::PicoFido
    &&& d.path@ == rec.path@
    &&& d.serial@ == match rec.serial {
        Some(s) => s@,
        None => Seq::<char>::empty(),
    }
    &&& d.firmware_version@ == spec_version_or_unknown(
        spec_hid_version(rec.opened, rec.release_number),
    )
}

/// The readers whose card's ATR carries the SC-HSM marker, in order.
pub open spec fn spec_kept_readers(found: Seq<ReaderRecord>) -> Seq<ReaderRecord> {
    found.filter(
        |rec: ReaderRecord|
            rec.atr is Some && spec_contains_marker(rec.atr->Some_0@, spec_hsm_atr_marker()),
    )
}

/// The descriptor of a kept reader.
pub open spec fn spec_reader_descriptor(d: DeviceInfo, rec: ReaderRecord) -> bool {
    &&& d.device_type == DeviceType::PicoHsm
    &&& d.path@ == rec.name@
    &&& d.serial@.len() == 0
    &&& rec.atr is Some
    &&& d.firmware_version@ == spec_version_or_unknown(spec_atr_version(rec.atr->Some_0@))
}

proof fn lemma_kept_hid_push(s: Seq<HidRecord>, x: HidRecord)
    ensures
        spec_kept_hid(s.push(x)) == if spec_is_pico_fido(x.vendor_id, x.product_id) {
            spec_kept_hid(s).push(x)
        } else {
            spec_kept_hid(s)
        },
{
    reveal(Seq::filter);
    assert(s.push(x).drop_last() =~= s);
}

proof fn lemma_kept_readers_push(s: Seq<ReaderRecord>, x: ReaderRecord)
    ensures
        spec_kept_readers(s.push(x)) == if x.atr is Some && spec_contains_marker(
            x.atr->Some_0@,
            spec_hsm_atr_marker(),
        ) {
            spec_kept_readers(s).push(x)
        } else {
            spec_kept_readers(s)
        },
{
    reveal(Seq::filter);
    assert(s.push(x).drop_last() =~= s);
}

/// The FIDO tokens among the HID devices found: those on the allow-list.
pub fn collect_hid_devices(found: &[HidRecord]) -> (r: Vec<DeviceInfo>)
    ensures
        r@.len() == spec_kept_hid(found@).len(),
        forall|i: int|
            0 <= i < r@.len() ==> #[trigger] spec_hid_descriptor(r@[i], spec_kept_hid(found@)[i]),
{
    let mut devices: Vec<DeviceInfo> = Vec::new();
    let mut i: usize = 0;
    proof {
        assert(found@.subrange(0, 0) =~= Seq::<HidRecord>::empty());
        reveal(Seq::filter);
    }
    while i < found.len()
        invariant
            i <= found@.len(),
            devices@.len() == spec_kept_hid(found@.subrange(0, i as int)).len(),
            forall|k: int|
                0 <= k < devices@.len() ==> #[trigger] spec_hid_descriptor(
                    devices@[k],
                    spec_kept_hid(found@.subrange(0, i as int))[k],
                ),
        decreases found@.len() - i,
    {
        let rec = &found[i];
        proof {
            assert(found@.subrange(0, i + 1) =~= found@.subrange(0, i as int).push(found@[i as int]));
            lemma_kept_hid_push(found@.subrange(0, i as int), found@[i as int]);
        }
        if is_pico_fido(rec.vendor_id, rec.product_id) {
            let serial = match &rec.serial {
                Some(s) => s.clone(),
                None => String::new(),
            };
            devices.push(
                DeviceInfo {
                    device_type: DeviceType::PicoFido,
                    serial,
                    firmware_version: hid_firmware_version(rec.opened, rec.release_number),
                    path: rec.path.clone(),
                },
            );
        }
        i = i + 1;
    }
    proof {
        assert(found@.subrange(0, found@.len() as int) =~= found@);
    }
    devices
}

/// The HSM tokens among the readers found: those whose ATR carries the marker.
pub fn collect_hsm_devices(found: &[ReaderRecord]) -> (r: Vec<DeviceInfo>)
    ensures
        r@.len() == spec_kept_readers(found@).len(),
        forall|i: int|
            0 <= i < r@.len() ==> #[trigger] spec_reader_descriptor(
                r@[i],
                spec_kept_readers(found@)[i],
            ),
{
    let marker: [u8; 4] = HSM_ATR_MARKER;
    assert(marker@ =~= spec_hsm_atr_marker());
    let mut devices: Vec<DeviceInfo> = Vec::new();
    let mut i: usize = 0;
    proof {
        assert(found@.subrange(0, 0) =~= Seq::<ReaderRecord>::empty());
        reveal(Seq::filter);
    }
    while i < found.len()
        invariant
            i <= found@.len(),
            marker@ == spec_hsm_atr_marker(),
            devices@.len() == spec_kept_readers(found@.subrange(0, i as int)).len(),
            forall|k: int|
                0 <= k < devices@.len() ==> #[trigger] spec_reader_descriptor(
                    devices@[k],
                    spec_kept_readers(found@.subrange(0, i as int))[k],
                ),
        decreases found@.len() - i,
    {
        let rec = &found[i];
        proof {
            assert(found@.subrange(0, i + 1) =~= found@.subrange(0, i as int).push(found@[i as int]));
            lemma_kept_readers_push(found@.subrange(0, i as int), found@[i as int]);
        }
        if let Some(atr) = &rec.atr {
            if atr_contains_marker(atr.as_slice(), marker.as_slice()) {
                let (firmware_version, serial) = read_hsm_info_from_atr(atr.as_slice());
                devices.push(
                    DeviceInfo {
                        device_type: DeviceType::PicoHsm,
                        serial,
                        firmware_version,
                        path: rec.name.clone(),
                    },
                );
            }
        }
        i = i + 1;
    }
    proof {
        assert(found@.subrange(0, found@.len() as int) =~= found@);
    }
    devices
}

/// The devices a backend contributes: its list, or none when it failed.
pub open spec fn spec_backend_devices(r: Result<Vec<DeviceInfo>, DeviceError>) -> Seq<DeviceInfo> {
    match r {
        Ok(v) => v@,
        Err(_) => Seq::empty(),
    }
}

/// A scan is the best-effort union of both backends: HID devices first, then
/// PC/SC ones; a backend that failed contributes nothing.
pub fn merge_scans(
    hid: Result<Vec<DeviceInfo>, DeviceError>,
    ccid: Result<Vec<DeviceInfo>, DeviceError>,
) -> (r: Vec<DeviceInfo>)
    ensures
        r@ == spec_backend_devices(hid) + spec_backend_devices(ccid),
{
    let mut all: Vec<DeviceInfo> = match hid {
        Ok(devs) => devs,
        Err(_) => Vec::new(),
    };
    if let Ok(mut devs) = ccid {
        all.append(&mut devs);
    }
    proof {
        assert(all@ =~= spec_backend_devices(hid) + spec_backend_devices(ccid));
    }
    all
}

/// The set of paths of a device list.
pub open spec fn spec_paths(list: Seq<DeviceInfo>) -> Set<Seq<char>> {
    Set::new(|p: Seq<char>| exists|i: int| 0 <= i < list.len() && #[trigger] list[i].path@ == p)
}

/// Two scans differ in population: their lengths or their sets of paths differ.
pub open spec fn spec_devices_changed(previous: Seq<DeviceInfo>, current: Seq<DeviceInfo>) -> bool {
    previous.len() != current.len() || spec_paths(previous) != spec_paths(current)
}

fn contains_path(list: &[DeviceInfo], path: &String) -> (r: bool)
    ensures
        r == spec_paths(list@).contains(path@),
{
    let mut i: usize = 0;
    while i < list.len()
        invariant
            i <= list@.len(),
            forall|j: int| 0 <= j < i ==> list@[j].path@ != path@,
        decreases list@.len() - i,
    {
        if list[i].path == *path {
            assert(spec_paths(list@).contains(path@));
            return true;
        }
        i = i + 1;
    }
    false
}

/// Whether every path of `a` is a path of `b`.
fn paths_within(a: &[DeviceInfo], b: &[DeviceInfo]) -> (r: bool)
    ensures
        r == spec_paths(a@).subset_of(spec_paths(b@)),
{
    let mut i: usize = 0;
    while i < a.len()
        invariant
            i <= a@.len(),
            forall|j: int| 0 <= j < i ==> spec_paths(b@).contains(#[trigger] a@[j].path@),
        decreases a@.len() - i,
    {
        if !contains_path(b, &a[i].path) {
            assert(spec_paths(a@).contains(a@[i as int].path@));
            return false;
        }
        i = i + 1;
    }
    assert forall|p: Seq<char>| spec_paths(a@).contains(p) implies spec_paths(b@).contains(p) by {
        let j = choose|j: int| 0 <= j < a@.len() && #[trigger] a@[j].path@ == p;
    }
    true
}

/// Whether the device population changed between two scans: the lengths or
/// the sets of paths differ. Order and all other fields are ignored.
pub fn devices_changed(previous: &[DeviceInfo], current: &[DeviceInfo]) -> (r: bool)
    ensures
        r == spec_devices_changed(previous@, current@),
{
    if previous.len() != current.len() {
        return true;
    }
    let forward = paths_within(previous, current);
    let backward = paths_within(current, previous);
    proof {
        if forward && backward {
            assert(spec_paths(previous@) =~= spec_paths(current@));
        }
    }
    !(forward && backward)
}

/// The change predicate is symmetric.
pub proof fn lemma_devices_changed_symmetric(a: Seq<DeviceInfo>, b: Seq<DeviceInfo>)
    ensures
        spec_devices_changed(a, b) == spec_devices_changed(b, a),
{
}

/// The change predicate sees only the length and the set of paths of each
/// list: lists that agree on both (a reordering, or other metadata) are
/// interchangeable, and a list never differs from itself.
pub proof fn lemma_devices_changed_order_independent(
    a: Seq<DeviceInfo>,
    a2: Seq<DeviceInfo>,
    b: Seq<DeviceInfo>,
)
    requires
        a.len() == a2.len(),
        spec_paths(a) == spec_paths(a2),
    ensures
        spec_devices_changed(a, b) == spec_devices_changed(a2, b),
        spec_devices_changed(b, a) == spec_devices_changed(b, a2),
        !spec_devices_changed(a, a2),
        !spec_devices_changed(a, a),
{
}

/// Adding or removing a device is always a change.
pub proof fn lemma_devices_changed_on_count(a: Seq<DeviceInfo>, b: Seq<DeviceInfo>)
    requires
        a.len() != b.len(),
    ensures
        spec_devices_changed(a, b),
{
}

} // verus!

verus! {

/// The set of device paths the host considers in use.
pub struct DeviceManagerImpl {
    opened_devices: Vec<String>,
}

impl DeviceManagerImpl {
    /// The opened paths.
    pub closed spec fn opened(&self) -> Set<Seq<char>> {
        Set::new(
            |p: Seq<char>|
                exists|i: int|
                    0 <= i < self.opened_devices@.len() && #[trigger] self.opened_devices@[i]@ == p,
        )
    }

    /// Each path is held once.
    pub closed spec fn wf(&self) -> bool {
        forall|i: int, j: int|
            0 <= i < j < self.opened_devices@.len() ==> #[trigger] self.opened_devices@[i]@
                != #[trigger] self.opened_devices@[j]@
    }

    pub fn new() -> (r: Self)
        ensures
            r.wf(),
            r.opened() == Set::<Seq<char>>::empty(),
    {
        let r = DeviceManagerImpl { opened_devices: Vec::new() };
        assert(r.opened() =~= Set::<Seq<char>>::empty());
        r
    }

    fn position(&self, path: &str) -> (r: Option<usize>)
        ensures
            r is Some ==> r->Some_0 < self.opened_devices@.len()
                && self.opened_devices@[r->Some_0 as int]@ == path@,
            r is None ==> !self.opened().contains(path@),
    {
        let mut i: usize = 0;
        while i < self.opened_devices.len()
            invariant
                i <= self.opened_devices@.len(),
                forall|j: int| 0 <= j < i ==> self.opened_devices@[j]@ != path@,
            decreases self.opened_devices@.len() - i,
        {
            if self.opened_devices[i].as_str().unicode_len() == path.unicode_len()
                && same_chars(self.opened_devices[i].as_str(), path) {
                return Some(i);
            }
            i = i + 1;
        }
        None
    }

    /// Whether `path` is marked open.
    pub fn is_open(&self, path: &str) -> (r: bool)
        ensures
            r == self.opened().contains(path@),
    {
        match self.position(path) {
            Some(i) => {
                assert(self.opened().contains(path@));
                true
            },
            None => false,
        }
    }

    /// How many paths are marked open.
    pub fn opened_count(&self) -> (r: usize)
        requires
            self.wf(),
        ensures
            r as nat == self.opened().len(),
    {
        proof {
            self.lemma_opened_len();
        }
        self.opened_devices.len()
    }

    proof fn lemma_opened_len(&self)
        requires
            self.wf(),
        ensures
            self.opened().finite(),
            self.opened().len() == self.opened_devices@.len(),
    {
        let views = self.opened_devices@.map_values(|s: String| s@);
        assert forall|i: int, j: int| 0 <= i < j < views.len() implies views[i] != views[j] by {}
        views.unique_seq_to_set();
        assert forall|p: Seq<char>| views.to_set().contains(p) implies self.opened().contains(p) by {
            let i = choose|i: int| 0 <= i < views.len() && views[i] == p;
            assert(self.opened_devices@[i]@ == p);
        }
        assert forall|p: Seq<char>| self.opened().contains(p) implies views.to_set().contains(p) by {
            let i = choose|i: int| 0 <= i < self.opened_devices@.len() && #[trigger] self.opened_devices@[i]@ == p;
            assert(views[i] == p);
            assert(views.contains(p));
        }
        assert(views.to_set() =~= self.opened());
    }

    /// Marks `path` open. An already-open path succeeds without a check;
    /// otherwise the path must appear in `live`, the current scan, or the
    /// result is `NotFound` and nothing changes.
    pub fn open_device(&mut self, path: &str, live: &[DeviceInfo]) -> (r: Result<(), DeviceError>)
        requires
            old(self).wf(),
        ensures
            final(self).wf(),
            old(self).opened().contains(path@) ==> r is Ok && final(self).opened() == old(
                self,
            ).opened(),
            !old(self).opened().contains(path@) && spec_paths(live@).contains(path@) ==> r is Ok
                && final(self).opened() == old(self).opened().insert(path@),
            !old(self).opened().contains(path@) && !spec_paths(live@).contains(path@) ==> r is Err
                && r->Err_0 is NotFound && r->Err_0->NotFound_0@ == path@ && final(self).opened()
                == old(self).opened(),
    {
        if self.is_open(path) {
            return Ok(());
        }
        let wanted = String::from_str(path);
        if !contains_path(live, &wanted) {
            return Err(DeviceError::NotFound(wanted));
        }
        let ghost before = self.opened_devices@;
        self.opened_devices.push(wanted);
        proof {
            assert(self.opened_devices@ == before.push(wanted));
            assert(self.opened() =~= old(self).opened().insert(path@)) by {
                assert forall|p: Seq<char>| self.opened().contains(p) implies old(self).opened().insert(path@).contains(p) by {
                    let i = choose|i: int| 0 <= i < self.opened_devices@.len() && #[trigger] self.opened_devices@[i]@ == p;
                    if i < before.len() {
                        assert(old(self).opened_devices@[i]@ == p);
                    }
                }
                assert forall|p: Seq<char>| old(self).opened().insert(path@).contains(p) implies self.opened().contains(p) by {
                    if p == path@ {
                        assert(self.opened_devices@[before.len() as int]@ == p);
                    } else {
                        let i = choose|i: int| 0 <= i < before.len() && #[trigger] before[i]@ == p;
                        assert(self.opened_devices@[i]@ == p);
                    }
                }
            }
        }
        Ok(())
    }

    /// Unmarks `path`; `NotFound` when it was not marked open.
    pub fn close_device(&mut self, path: &str) -> (r: Result<(), DeviceError>)
        requires
            old(self).wf(),
        ensures
            final(self).wf(),
            old(self).opened().contains(path@) ==> r is Ok && final(self).opened() == old(
                self,
            ).opened().remove(path@),
            !old(self).opened().contains(path@) ==> r is Err && r->Err_0 is NotFound
                && r->Err_0->NotFound_0@ == path@ && final(self).opened() == old(self).opened(),
    {
        match self.position(path) {
            None => Err(DeviceError::NotFound(String::from_str(path))),
            Some(i) => {
                let ghost before = self.opened_devices@;
                let _removed = self.opened_devices.remove(i);
                proof {
                    assert(self.opened_devices@ == before.remove(i as int));
                    assert(old(self).opened().contains(path@));
                    assert(self.opened() =~= old(self).opened().remove(path@)) by {
                        assert forall|p: Seq<char>| self.opened().contains(p) implies old(self).opened().remove(path@).contains(p) by {
                            let k = choose|k: int| 0 <= k < self.opened_devices@.len() && #[trigger] self.opened_devices@[k]@ == p;
                            if k < i {
                                assert(before[k]@ == p);
                                assert(p != path@);
                            } else {
                                assert(before[k + 1]@ == p);
                                assert(p != path@);
                            }
                        }
                        assert forall|p: Seq<char>| old(self).opened().remove(path@).contains(p) implies self.opened().contains(p) by {
                            let k = choose|k: int| 0 <= k < before.len() && #[trigger] before[k]@ == p;
                            assert(k != i);
                            if k < i {
                                assert(self.opened_devices@[k]@ == p);
                            } else {
                                assert(self.opened_devices@[k - 1]@ == p);
                            }
                        }
                    }
                }
                Ok(())
            },
        }
    }
}

fn same_chars(a: &str, b: &str) -> (r: bool)
    requires
        a@.len() == b@.len(),
    ensures
        r == (a@ == b@),
{
    let n: usize = a.unicode_len();
    let mut i: usize = 0;
    while i < n
        invariant
            n == a@.len(),
            n == b@.len(),
            i <= n,
            forall|j: int| 0 <= j < i ==> a@[j] == b@[j],
        decreases n - i,
    {
        if a.get_char(i) != b.get_char(i) {
            return false;
        }
        i = i + 1;
    }
    assert(a@ =~= b@);
    true
}

} // verus!

verus! {

/// Marker detection: a byte sequence that holds the marker anywhere, whatever
/// surrounds it, contains it; and one that contains it holds it between some
/// prefix and suffix.
pub proof fn lemma_marker_anywhere(prefix: Seq<u8>, marker: Seq<u8>, suffix: Seq<u8>)
    ensures
        spec_contains_marker(prefix + marker + suffix, marker),
{
    let atr = prefix + marker + suffix;
    assert(atr.subrange(prefix.len() as int, (prefix.len() + marker.len()) as int) =~= marker);
    assert(spec_marker_at(atr, marker, prefix.len() as int));
}

/// The converse of `lemma_marker_anywhere`.
pub proof fn lemma_marker_split(atr: Seq<u8>, marker: Seq<u8>)
    requires
        spec_contains_marker(atr, marker),
    ensures
        exists|prefix: Seq<u8>, suffix: Seq<u8>| atr == prefix + marker + suffix,
{
    let i = choose|i: int| spec_marker_at(atr, marker, i);
    let prefix = atr.subrange(0, i);
    let suffix = atr.subrange(i + marker.len(), atr.len() as int);
    assert(atr =~= prefix + marker + suffix);
}

/// One step of the hot-plug monitor: given the baseline and the outcome of a
/// fresh scan, the new baseline and whether to publish it. A failed scan
/// changes nothing; a scan whose population differs becomes the baseline and
/// is published.
pub fn poll_step(baseline: Vec<DeviceInfo>, scan: Result<Vec<DeviceInfo>, DeviceError>) -> (r: (
    Vec<DeviceInfo>,
    bool,
))
    ensures
        scan is Err ==> r.0@ == baseline@ && !r.1,
        scan is Ok && spec_devices_changed(baseline@, scan->Ok_0@) ==> r.0@ == scan->Ok_0@ && r.1,
        scan is Ok && !spec_devices_changed(baseline@, scan->Ok_0@) ==> r.0@ == baseline@ && !r.1,
{
    match scan {
        Ok(current) => {
            if devices_changed(baseline.as_slice(), current.as_slice()) {
                (current, true)
            } else {
                (baseline, false)
            }
        },
        Err(_) => (baseline, false),
    }
}

} // verus!
