//! The removable-device catalog: from a snapshot of the kernel's block devices
//! and the mount table, the devices that may be offered as imaging targets.
use vstd::prelude::*;
use vstd::string::*;

use crate::text::{
    first_index_from, find_char, has_prefix, last_index_of, prefix_of, rfind_char, same_text,
    starts_with,
};

verus! {

/// What `char::is_alphabetic` says of a character.
pub uninterp spec fn alphabetic(c: char) -> bool;

/// Relies on `char::is_alphabetic`: whether `c` has Unicode's Alphabetic property.
#[verifier::external_body]
fn is_alphabetic(c: char) -> (r: bool)
    ensures
        r == alphabetic(c),
{
    c.is_alphabetic()
}

/// The last index below `n` whose character is alphabetic, if any.
pub open spec fn last_alphabetic_before(s: Seq<char>, n: int) -> Option<int>
    decreases n,
{
    if n <= 0 || n > s.len() {
        None
    } else if alphabetic(s[n - 1]) {
        Some(n - 1)
    } else {
        last_alphabetic_before(s, n - 1)
    }
}

/// The whole-disk device of a partition path: `/dev/sdX<N>` loses the digits after its
/// last letter, `/dev/nvme*` and `/dev/mmcblk*` lose everything from their first `p`.
/// Any other path is its own parent.
pub open spec fn parent_device_path(p: Seq<char>) -> Seq<char> {
    if has_prefix(p, "/dev/sd"@) {
        match last_alphabetic_before(p, p.len() as int) {
            Some(i) => p.subrange(0, i + 1),
            None => p,
        }
    } else if has_prefix(p, "/dev/mmcblk"@) || has_prefix(p, "/dev/nvme"@) {
        match first_index_from(p, 'p', 0) {
            Some(i) => p.subrange(0, i),
            None => p,
        }
    } else {
        p
    }
}

/// Finds the parent disk of a partition (`/dev/sda1` gives `/dev/sda`,
/// `/dev/nvme0n1p2` gives `/dev/nvme0n1`).
pub fn get_parent_device_path(path: &str) -> (r: String)
    ensures
        r@ == parent_device_path(path@),
{
    if starts_with(path, "/dev/sd") {
        let n = path.unicode_len();
        let mut i: usize = n;
        while i > 0
            invariant
                n == path@.len(),
                i <= n,
                has_prefix(path@, "/dev/sd"@),
                last_alphabetic_before(path@, n as int) == last_alphabetic_before(path@, i as int),
            decreases i,
        {
            if is_alphabetic(path.get_char(i - 1)) {
                assert(last_alphabetic_before(path@, i as int) == Some(i - 1));
                return prefix_of(path, i);
            }
            i = i - 1;
        }
        String::from_str(path)
    } else if starts_with(path, "/dev/mmcblk") || starts_with(path, "/dev/nvme") {
        match find_char(path, 'p') {
            Some(i) => prefix_of(path, i),
            None => String::from_str(path),
        }
    } else {
        String::from_str(path)
    }
}


/// An ASCII decimal digit.
pub open spec fn is_digit(c: char) -> bool {
    '0' <= c <= '9'
}

/// The number written by a sequence of decimal digits.
pub open spec fn digits_value(d: Seq<char>) -> nat
    decreases d.len(),
{
    if d.len() == 0 {
        0
    } else {
        digits_value(d.drop_last()) * 10 + ((d.last() as u32 - '0' as u32) as nat)
    }
}

/// The digits of an unsigned decimal, after an optional leading `+`.
pub open spec fn unsigned_digits(s: Seq<char>) -> Seq<char> {
    if s.len() > 0 && s[0] == '+' {
        s.subrange(1, s.len() as int)
    } else {
        s
    }
}

/// The value of `s` read as a `u64` in Rust's decimal grammar: an optional `+`,
/// then one or more ASCII digits, naming a value no greater than `u64::MAX`.
pub open spec fn decimal_u64(s: Seq<char>) -> Option<u64> {
    let d = unsigned_digits(s);
    if d.len() > 0 && (forall|i: int| 0 <= i < d.len() ==> is_digit(#[trigger] d[i]))
        && digits_value(d) <= u64::MAX {
        Some(digits_value(d) as u64)
    } else {
        None
    }
}

proof fn lemma_digits_value_grows(d: Seq<char>, i: int, j: int)
    requires
        0 <= i <= j <= d.len(),
        forall|k: int| 0 <= k < d.len() ==> is_digit(#[trigger] d[k]),
    ensures
        digits_value(d.subrange(0, i)) <= digits_value(d.subrange(0, j)),
    decreases j - i,
{
    if i < j {
        lemma_digits_value_grows(d, i, j - 1);
        assert(d.subrange(0, j).drop_last() =~= d.subrange(0, j - 1));
    }
}

/// Reads an unsigned decimal as Rust's `u64` parser does.
pub fn parse_u64(s: &str) -> (r: Option<u64>)
    ensures
        r == decimal_u64(s@),
{
    let n = s.unicode_len();
    let start: usize = if n > 0 && s.get_char(0) == '+' { 1 } else { 0 };
    let ghost d = unsigned_digits(s@);
    assert(d =~= s@.subrange(start as int, n as int));
    if start == n {
        return None;
    }
    let mut acc: u64 = 0;
    let mut i: usize = start;
    while i < n
        invariant
            n == s@.len(),
            start <= i <= n,
            d == s@.subrange(start as int, n as int),
            d == unsigned_digits(s@),
            forall|k: int| 0 <= k < i - start ==> is_digit(#[trigger] d[k]),
            acc as nat == digits_value(d.subrange(0, i - start)),
        decreases n - i,
    {
        let c = s.get_char(i);
        if !('0' <= c && c <= '9') {
            assert(!is_digit(d[i - start]));
            assert(!(forall|k: int| 0 <= k < d.len() ==> is_digit(#[trigger] d[k])));
            return None;
        }
        assert(d.subrange(0, i + 1 - start).drop_last() =~= d.subrange(0, i - start));
        let digit = (c as u32 - '0' as u32) as u64;
        assert(d.subrange(0, i + 1 - start).last() == c);
        assert(digits_value(d.subrange(0, i + 1 - start)) == acc * 10 + digit);
        match acc.checked_mul(10) {
            Some(t) => match t.checked_add(digit) {
                Some(v) => {
                    acc = v;
                },
                None => {
                    proof {
                        self::lemma_digits_prefix_overflows(s@, d, start as int, i as int, n as int);
                    }
                    return None;
                },
            },
            None => {
                proof {
                    self::lemma_digits_prefix_overflows(s@, d, start as int, i as int, n as int);
                }
                return None;
            },
        }
        i = i + 1;
    }
    assert(d.subrange(0, n - start) =~= d);
    Some(acc)
}

proof fn lemma_digits_prefix_overflows(s: Seq<char>, d: Seq<char>, start: int, i: int, n: int)
    requires
        n == s.len(),
        start <= i < n,
        d == s.subrange(start, n),
        d.len() == n - start,
        forall|k: int| 0 <= k <= i - start ==> is_digit(#[trigger] d[k]),
        digits_value(d.subrange(0, i + 1 - start)) > u64::MAX,
    ensures
        !(forall|k: int| 0 <= k < d.len() ==> is_digit(#[trigger] d[k])) || digits_value(d) > u64::MAX,
{
    if forall|k: int| 0 <= k < d.len() ==> is_digit(#[trigger] d[k]) {
        lemma_digits_value_grows(d, i + 1 - start, d.len() as int);
        assert(d.subrange(0, d.len() as int) =~= d);
    }
}


/// One entry of the kernel's block-device list, with the trimmed contents of its
/// `removable` and `size` attributes where they could be read.
pub struct BlockEntry {
    /// Kernel name, such as `sdd`.
    pub name: String,
    pub removable: Option<String>,
    pub size: Option<String>,
}

/// One mounted volume of the mount table.
pub struct MountedVolume {
    /// Device name, such as `/dev/sdd1`.
    pub name: String,
    pub mount_point: String,
}

/// A removable block device offered as an imaging target.
pub struct Device {
    /// Device path, such as `/dev/sdd`.
    pub path: String,
    /// Kernel name, such as `sdd`.
    pub name: String,
    /// Size in 512-byte sectors, as the kernel reports it.
    pub sectors: u64,
    /// Where one of its volumes is mounted; empty when none is.
    pub mount_point: String,
}

/// What a [`Device`] holds.
pub ghost struct DeviceModel {
    pub path: Seq<char>,
    pub name: Seq<char>,
    pub sectors: u64,
    pub mount_point: Seq<char>,
}

impl View for Device {
    type V = DeviceModel;

    open spec fn view(&self) -> DeviceModel {
        DeviceModel {
            path: self.path@,
            name: self.name@,
            sectors: self.sectors,
            mount_point: self.mount_point@,
        }
    }
}

#[derive(Debug, Clone, Copy, PartialEq, Eq, Structural)]
pub enum DeviceError {
    /// No volume is mounted at `/`, so the system disk cannot be told apart.
    SystemDiskUnknown,
}

/// The device path of a device name: an absolute name as it is, else under `/dev/`.
pub open spec fn device_path_of(name: Seq<char>) -> Seq<char> {
    if name.len() > 0 && name[0] == '/' {
        name
    } else {
        "/dev/"@ + name
    }
}

/// The parent disk of the first volume from index `i` on that is mounted at `/`.
pub open spec fn system_disk_from(vols: Seq<MountedVolume>, i: int) -> Option<Seq<char>>
    decreases vols.len() - i,
{
    if i < 0 || i >= vols.len() {
        None
    } else if vols[i].mount_point@ == "/"@ {
        Some(parent_device_path(device_path_of(vols[i].name@)))
    } else {
        system_disk_from(vols, i + 1)
    }
}

/// The parent disk of the root filesystem's volume.
pub open spec fn system_disk_of(vols: Seq<MountedVolume>) -> Option<Seq<char>> {
    system_disk_from(vols, 0)
}

/// The kernel marks the device removable: its attribute reads `1`.
pub open spec fn flag_set(attr: Option<String>) -> bool {
    match attr {
        Some(s) => s@ == "1"@,
        None => false,
    }
}

/// The sector count of a `size` attribute; zero where it is missing or unreadable.
pub open spec fn sectors_of(attr: Option<String>) -> u64 {
    match attr {
        Some(s) => match decimal_u64(s@) {
            Some(v) => v,
            None => 0,
        },
        None => 0,
    }
}

/// The last path component of a volume's device name (`/dev/sdd1` gives `sdd1`).
pub open spec fn kernel_name_of(v: Seq<char>) -> Seq<char> {
    match last_index_of(v, '/') {
        Some(i) => v.subrange(i + 1, v.len() as int),
        None => v,
    }
}

/// The mount point of the first volume from index `i` on whose kernel name starts
/// with `name` and which is mounted somewhere; empty if there is none.
pub open spec fn mount_point_from(vols: Seq<MountedVolume>, name: Seq<char>, i: int) -> Seq<char>
    decreases vols.len() - i,
{
    if i < 0 || i >= vols.len() {
        Seq::empty()
    } else if has_prefix(kernel_name_of(vols[i].name@), name) && vols[i].mount_point@.len() > 0 {
        vols[i].mount_point@
    } else {
        mount_point_from(vols, name, i + 1)
    }
}

/// An entry that the catalog offers: not a loop device, not the system disk,
/// marked removable and of a nonzero size.
pub open spec fn offered(e: BlockEntry, system_disk: Seq<char>) -> bool {
    &&& !has_prefix(e.name@, "loop"@)
    &&& device_path_of(e.name@) != system_disk
    &&& flag_set(e.removable)
    &&& sectors_of(e.size) > 0
}

/// The device that the catalog builds for an entry.
pub open spec fn device_for(e: BlockEntry, vols: Seq<MountedVolume>) -> DeviceModel {
    DeviceModel {
        path: device_path_of(e.name@),
        name: e.name@,
        sectors: sectors_of(e.size),
        mount_point: mount_point_from(vols, e.name@, 0),
    }
}

/// The catalog: the offered entries, in their order, as devices.
pub open spec fn catalog(entries: Seq<BlockEntry>, vols: Seq<MountedVolume>, system_disk: Seq<char>) -> Seq<DeviceModel>
    decreases entries.len(),
{
    if entries.len() == 0 {
        Seq::empty()
    } else {
        let rest = catalog(entries.drop_last(), vols, system_disk);
        if offered(entries.last(), system_disk) {
            rest.push(device_for(entries.last(), vols))
        } else {
            rest
        }
    }
}

/// The device path of a device name.
pub fn device_path(name: &str) -> (r: String)
    ensures
        r@ == device_path_of(name@),
{
    if name.unicode_len() > 0 && name.get_char(0) == '/' {
        String::from_str(name)
    } else {
        String::from_str("/dev/").concat(name)
    }
}

/// The parent disk of the volume mounted at `/`, if one is.
pub fn system_disk_parent(volumes: &Vec<MountedVolume>) -> (r: Option<String>)
    ensures
        match r {
            Some(p) => system_disk_of(volumes@) == Some(p@),
            None => system_disk_of(volumes@) is None,
        },
{
    let mut i: usize = 0;
    while i < volumes.len()
        invariant
            i <= volumes@.len(),
            system_disk_of(volumes@) == system_disk_from(volumes@, i as int),
        decreases volumes@.len() - i,
    {
        let v = &volumes[i];
        if same_text(v.mount_point.as_str(), "/") {
            return Some(get_parent_device_path(device_path(v.name.as_str()).as_str()));
        }
        i = i + 1;
    }
    None
}

/// Whether a `removable` attribute marks the device removable.
pub fn is_removable(attr: &Option<String>) -> (r: bool)
    ensures
        r == flag_set(*attr),
{
    match attr {
        Some(s) => same_text(s.as_str(), "1"),
        None => false,
    }
}

/// The sector count of a `size` attribute, zero where it is missing or unreadable.
pub fn sector_count(attr: &Option<String>) -> (r: u64)
    ensures
        r == sectors_of(*attr),
{
    match attr {
        Some(s) => match parse_u64(s.as_str()) {
            Some(v) => v,
            None => 0,
        },
        None => 0,
    }
}

/// The last path component of a volume's device name.
pub fn kernel_name(volume_name: &str) -> (r: String)
    ensures
        r@ == kernel_name_of(volume_name@),
{
    let n = volume_name.unicode_len();
    match rfind_char(volume_name, '/') {
        Some(i) => String::from_str(volume_name.substring_char(i + 1, n)),
        None => String::from_str(volume_name),
    }
}

/// The mount point of the first mounted volume whose kernel name starts with
/// `name`; empty if there is none.
pub fn find_mount_point(volumes: &Vec<MountedVolume>, name: &str) -> (r: String)
    ensures
        r@ == mount_point_from(volumes@, name@, 0),
{
    let mut i: usize = 0;
    while i < volumes.len()
        invariant
            i <= volumes@.len(),
            mount_point_from(volumes@, name@, 0) == mount_point_from(volumes@, name@, i as int),
        decreases volumes@.len() - i,
    {
        let v = &volumes[i];
        let k = kernel_name(v.name.as_str());
        if starts_with(k.as_str(), name) && v.mount_point.unicode_len() > 0 {
            return v.mount_point.clone();
        }
        i = i + 1;
    }
    String::new()
}

/// The removable devices of a snapshot of the kernel's block-device list and the
/// mount table. Loop devices, the disk holding the root filesystem, devices the
/// kernel does not mark removable and devices of zero size are left out. Without
/// a volume mounted at `/` no list is given at all.
pub fn get_removable_devices(entries: &Vec<BlockEntry>, volumes: &Vec<MountedVolume>) -> (r: Result<Vec<Device>, DeviceError>)
    ensures
        match system_disk_of(volumes@) {
            None => r == Err::<Vec<Device>, DeviceError>(DeviceError::SystemDiskUnknown),
            Some(p) => match r {
                Ok(devs) => devs@.map_values(|d: Device| d@) == catalog(entries@, volumes@, p),
                Err(_) => false,
            },
        },
{
    let system_disk = match system_disk_parent(volumes) {
        Some(p) => p,
        None => {
            return Err(DeviceError::SystemDiskUnknown);
        },
    };
    let ghost parent = system_disk@;
    let mut devices: Vec<Device> = Vec::new();
    let mut i: usize = 0;
    while i < entries.len()
        invariant
            i <= entries@.len(),
            system_disk_of(volumes@) == Some(parent),
            system_disk@ == parent,
            devices@.map_values(|d: Device| d@) == catalog(entries@.subrange(0, i as int), volumes@, parent),
        decreases entries@.len() - i,
    {
        let e = &entries[i];
        assert(entries@.subrange(0, i + 1).drop_last() =~= entries@.subrange(0, i as int));
        let name = e.name.as_str();
        let path = device_path(name);
        let keep = !starts_with(name, "loop") && !same_text(path.as_str(), system_disk.as_str())
            && is_removable(&e.removable) && sector_count(&e.size) > 0;
        if keep {
            let d = Device {
                path,
                name: e.name.clone(),
                sectors: sector_count(&e.size),
                mount_point: find_mount_point(volumes, name),
            };
            devices.push(d);
            assert(devices@.map_values(|d: Device| d@) =~= catalog(entries@.subrange(0, i as int), volumes@, parent).push(device_for(entries@[i as int], volumes@)));
        }
        i = i + 1;
    }
    assert(entries@.subrange(0, entries@.len() as int) =~= entries@);
    Ok(devices)
}

/// `d` is the device of an offered entry.
pub open spec fn from_offered_entry(
    d: DeviceModel,
    entries: Seq<BlockEntry>,
    vols: Seq<MountedVolume>,
    system_disk: Seq<char>,
) -> bool {
    exists|i: int|
        0 <= i < entries.len() && offered(#[trigger] entries[i], system_disk) && d == device_for(entries[i], vols)
}

/// Every listed device comes from an offered entry.
pub proof fn lemma_catalog_sources(entries: Seq<BlockEntry>, vols: Seq<MountedVolume>, system_disk: Seq<char>)
    ensures
        forall|k: int|
            0 <= k < catalog(entries, vols, system_disk).len() ==> from_offered_entry(
                #[trigger] catalog(entries, vols, system_disk)[k],
                entries,
                vols,
                system_disk,
            ),
    decreases entries.len(),
{
    if entries.len() > 0 {
        let init = entries.drop_last();
        lemma_catalog_sources(init, vols, system_disk);
        let c = catalog(entries, vols, system_disk);
        assert forall|k: int| 0 <= k < c.len() implies from_offered_entry(#[trigger] c[k], entries, vols, system_disk) by {
            if k < catalog(init, vols, system_disk).len() {
                assert(from_offered_entry(catalog(init, vols, system_disk)[k], init, vols, system_disk));
                let i = choose|i: int|
                    0 <= i < init.len() && offered(#[trigger] init[i], system_disk)
                        && catalog(init, vols, system_disk)[k] == device_for(init[i], vols);
                assert(entries[i] == init[i]);
            } else {
                assert(entries[entries.len() - 1] == entries.last());
            }
        }
    }
}

/// The names of a block-device listing are distinct, as those of one directory are.
pub open spec fn names_distinct(entries: Seq<BlockEntry>) -> bool {
    forall|i: int, j: int|
        0 <= i < entries.len() && 0 <= j < entries.len() && #[trigger] entries[i].name@
            == #[trigger] entries[j].name@ ==> i == j
}

/// A device that the kernel does not mark removable is never listed.
pub proof fn lemma_fixed_devices_never_listed(
    entries: Seq<BlockEntry>,
    vols: Seq<MountedVolume>,
    system_disk: Seq<char>,
    j: int,
)
    requires
        names_distinct(entries),
        0 <= j < entries.len(),
        !flag_set(entries[j].removable),
    ensures
        forall|k: int|
            0 <= k < catalog(entries, vols, system_disk).len() ==> #[trigger] catalog(entries, vols, system_disk)[k].name
                != entries[j].name@,
{
    lemma_catalog_sources(entries, vols, system_disk);
}

/// A device whose sector count is zero is never listed, whatever its removable flag.
pub proof fn lemma_empty_devices_never_listed(
    entries: Seq<BlockEntry>,
    vols: Seq<MountedVolume>,
    system_disk: Seq<char>,
    j: int,
)
    requires
        names_distinct(entries),
        0 <= j < entries.len(),
        sectors_of(entries[j].size) == 0,
    ensures
        forall|k: int|
            0 <= k < catalog(entries, vols, system_disk).len() ==> #[trigger] catalog(entries, vols, system_disk)[k].name
                != entries[j].name@,
{
    lemma_catalog_sources(entries, vols, system_disk);
}

/// The system disk is never listed, even where the kernel marks it removable.
pub proof fn lemma_system_disk_never_listed(
    entries: Seq<BlockEntry>,
    vols: Seq<MountedVolume>,
    system_disk: Seq<char>,
)
    ensures
        forall|k: int|
            0 <= k < catalog(entries, vols, system_disk).len() ==> #[trigger] catalog(entries, vols, system_disk)[k].path
                != system_disk,
{
    lemma_catalog_sources(entries, vols, system_disk);
}

impl Device {
    /// Size in bytes: the sector count times 512.
    pub fn size_bytes(&self) -> (r: u128)
        ensures
            r == self.sectors as int * 512,
    {
        self.sectors as u128 * 512
    }

    /// Whether one of the device's volumes is mounted.
    pub fn is_mounted(&self) -> (r: bool)
        ensures
            r == (self.mount_point@.len() > 0),
    {
        self.mount_point.unicode_len() > 0
    }

    /// `[Mounted at <path>]`, or `[Not mounted]` where no volume is mounted.
    pub fn mount_status(&self) -> (r: String)
        ensures
            self.mount_point@.len() > 0 ==> r@ == "[Mounted at "@ + self.mount_point@ + "]"@,
            self.mount_point@.len() == 0 ==> r@ == "[Not mounted]"@,
    {
        if self.is_mounted() {
            String::from_str("[Mounted at ").concat(self.mount_point.as_str()).concat("]")
        } else {
            String::from_str("[Not mounted]")
        }
    }
}

} // verus!
