use vstd::prelude::*;
use crate::platform::generic::application::PlatformRect;
use crate::platform::windows::win32::{
    DISPLAY_DEVICE_ACTIVE, DISPLAY_DEVICE_ATTACHED_TO_DESKTOP, DISPLAY_DEVICE_MIRRORING_DRIVER,
    DISPLAY_DEVICE_PRIMARY_DEVICE,
};
use crate::platform::windows::window::in_i32;

verus! {

/// Index of the first detailed timing descriptor in an EDID block.
pub const DETAIL_TIMING_DESCRIPTOR_START: usize = 54;

/// The native width and height a monitor reports in its EDID block: each is
/// twelve bits, the low eight in one byte of the first detailed timing
/// descriptor and the high four in the upper half of another.
pub open spec fn spec_edid_size(edid: Seq<u8>) -> (int, int) {
    (
        (edid[58] / 16) as int * 256 + edid[56] as int,
        (edid[61] / 16) as int * 256 + edid[59] as int,
    )
}

/// The native size of a monitor from its EDID block.
pub fn monitor_size_from_edid(edid: &[u8]) -> (r: (i32, i32))
    requires
        edid@.len() >= 62,
    ensures
        r.0 == spec_edid_size(edid@).0,
        r.1 == spec_edid_size(edid@).1,
        0 <= r.0 < 4096,
        0 <= r.1 < 4096,
{
    let start = DETAIL_TIMING_DESCRIPTOR_START;
    let w_hi = edid[start + 4];
    let w_lo = edid[start + 2];
    let h_hi = edid[start + 7];
    let h_lo = edid[start + 5];
    let width = (((w_hi as i32) >> 4) << 8) | w_lo as i32;
    let height = (((h_hi as i32) >> 4) << 8) | h_lo as i32;
    proof {
        lemma_edid_bits(w_hi, w_lo);
        lemma_edid_bits(h_hi, h_lo);
    }
    (width, height)
}

/// Putting the upper half of `hi` above the byte `lo` gives
/// `(hi / 16) * 256 + lo`.
proof fn lemma_edid_bits(hi: u8, lo: u8)
    ensures
        ((((hi as i32) >> 4) << 8) | lo as i32) == (hi / 16) as int * 256 + lo as int,
{
    let h = hi as i32;
    let l = lo as i32;
    assert((((h >> 4) << 8) | l) == (h / 16) * 256 + l) by (bit_vector)
        requires
            0 <= h < 256,
            0 <= l < 256,
    ;
}

/// A value read from a device's registry key.
#[derive(Clone, Debug)]
pub struct RegistryValue {
    /// The value's name, as bytes.
    pub name: Vec<u8>,
    /// The value's data.
    pub bytes: Vec<u8>,
}

/// The name of the registry value holding a monitor's EDID block: `EDID`.
pub open spec fn is_edid_name(name: Seq<u8>) -> bool {
    name == seq![0x45u8, 0x44, 0x49, 0x44]
}

/// Whether position `i` holds the first value named `EDID`.
pub open spec fn is_first_edid(values: Seq<RegistryValue>, i: int) -> bool {
    &&& 0 <= i < values.len()
    &&& is_edid_name(values[i].name@)
    &&& forall|j: int| 0 <= j < i ==> !is_edid_name(#[trigger] values[j].name@)
}

/// Whether a registry value name is `EDID`.
fn is_edid_value_name(name: &Vec<u8>) -> (r: bool)
    ensures
        r == is_edid_name(name@),
{
    if name.len() != 4 {
        return false;
    }
    let r = name[0] == 0x45 && name[1] == 0x44 && name[2] == 0x49 && name[3] == 0x44;
    proof {
        if r {
            assert(name@ =~= seq![0x45u8, 0x44, 0x49, 0x44]);
        }
    }
    r
}

/// The native monitor size from the values of a monitor's registry key: the
/// size in the first value named `EDID`, or `None` when no value has that
/// name.
pub fn monitor_size_from_registry_values(values: &Vec<RegistryValue>) -> (r: Option<(i32, i32)>)
    requires
        forall|i: int| is_first_edid(values@, i) ==> values@[i].bytes@.len() >= 62,
    ensures
        r is None <==> forall|j: int| 0 <= j < values@.len() ==> !is_edid_name(
            #[trigger] values@[j].name@,
        ),
        r matches Some(size) ==> exists|i: int|
            is_first_edid(values@, i) && size.0 == spec_edid_size(values@[i].bytes@).0 && size.1
                == spec_edid_size(values@[i].bytes@).1,
{
    let mut i: usize = 0;
    while i < values.len()
        invariant
            i <= values@.len(),
            forall|j: int| 0 <= j < i ==> !is_edid_name(#[trigger] values@[j].name@),
            forall|k: int| is_first_edid(values@, k) ==> values@[k].bytes@.len() >= 62,
        decreases values@.len() - i,
    {
        if is_edid_value_name(&values[i].name) {
            assert(is_first_edid(values@, i as int));
            let size = monitor_size_from_edid(values[i].bytes.as_slice());
            return Some(size);
        }
        i = i + 1;
    }
    None
}

/// Whether a byte continues a multi-byte UTF-8 sequence.
pub open spec fn is_utf8_continuation(b: u8) -> bool {
    0x80 <= b < 0xc0
}

/// Whether position `i` of a device identifier holds the first `\` at or
/// after position 9.
pub open spec fn is_name_end(id: Seq<u8>, p: int) -> bool {
    &&& 9 <= p < id.len()
    &&& id[p] == 0x5c
    &&& forall|j: int| 9 <= j < p ==> #[trigger] id[j] != 0x5c
}

/// Whether the monitor name can be cut out of a device identifier: the
/// identifier has at least nine bytes, positions 8 and 9 start characters,
/// and a `\` follows at or after position 9.
pub open spec fn has_monitor_name(id: Seq<u8>) -> bool {
    &&& id.len() >= 9
    &&& !is_utf8_continuation(id[8])
    &&& (id.len() > 9 ==> !is_utf8_continuation(id[9]))
    &&& exists|p: int| is_name_end(id, p)
}

/// The monitor name inside a device identifier such as
/// `MONITOR\GSM5B09\{...}`: the bytes from position 8 up to the first `\`
/// at or after position 9. `None` when the identifier holds no such name.
pub fn monitor_name_from_device_id(id: &[u8]) -> (r: Option<Vec<u8>>)
    ensures
        r is Some <==> has_monitor_name(id@),
        r matches Some(name) ==> exists|p: int| is_name_end(id@, p) && name@ == id@.subrange(8, p),
{
    let len = id.len();
    if len < 9 {
        return None;
    }
    if id[8] >= 0x80 && id[8] < 0xc0 {
        return None;
    }
    if len > 9 && id[9] >= 0x80 && id[9] < 0xc0 {
        return None;
    }
    let mut p: usize = 9;
    while p < len
        invariant
            len == id@.len(),
            9 <= p <= len,
            !is_utf8_continuation(id@[8]),
            len > 9 ==> !is_utf8_continuation(id@[9]),
            forall|j: int| 9 <= j < p ==> #[trigger] id@[j] != 0x5c,
        decreases len - p,
    {
        if id[p] == 0x5c {
            let mut name: Vec<u8> = Vec::new();
            let mut k: usize = 8;
            while k < p
                invariant
                    len == id@.len(),
                    8 <= k <= p < len,
                    name@ == id@.subrange(8, k as int),
                decreases p - k,
            {
                name.push(id[k]);
                proof {
                    assert(id@.subrange(8, k + 1) =~= id@.subrange(8, k as int).push(id@[k as int]));
                }
                k = k + 1;
            }
            assert(is_name_end(id@, p as int));
            return Some(name);
        }
        p = p + 1;
    }
    proof {
        assert forall|q: int| !is_name_end(id@, q) by {
            if 9 <= q < id@.len() && id@[q] == 0x5c {
                assert(id@[q] != 0x5c);
            }
        }
    }
    None
}

/// A device identifier without its trailing NUL bytes.
pub open spec fn is_trimmed_of_nuls(id: Seq<u8>, trimmed: Seq<u8>) -> bool {
    &&& trimmed.len() <= id.len()
    &&& trimmed == id.subrange(0, trimmed.len() as int)
    &&& forall|j: int| trimmed.len() <= j < id.len() ==> #[trigger] id[j] == 0
    &&& (trimmed.len() == 0 || trimmed.last() != 0)
}

/// A device identifier without its trailing NUL bytes.
pub fn trim_trailing_nuls(id: &[u8]) -> (r: Vec<u8>)
    ensures
        is_trimmed_of_nuls(id@, r@),
{
    let mut end = id.len();
    while end > 0 && id[end - 1] == 0
        invariant
            end <= id@.len(),
            forall|j: int| end <= j < id@.len() ==> #[trigger] id@[j] == 0,
        decreases end,
    {
        end = end - 1;
    }
    let mut out: Vec<u8> = Vec::new();
    let mut k: usize = 0;
    while k < end
        invariant
            end <= id@.len(),
            k <= end,
            out@ == id@.subrange(0, k as int),
        decreases end - k,
    {
        out.push(id[k]);
        proof {
            assert(id@.subrange(0, k + 1) =~= id@.subrange(0, k as int).push(id@[k as int]));
        }
        k = k + 1;
    }
    out
}

/// Whether a display adapter is part of the desktop.
pub fn is_desktop_adapter(state_flags: u32) -> (r: bool)
    ensures
        r == (state_flags & DISPLAY_DEVICE_ATTACHED_TO_DESKTOP > 0),
{
    state_flags & DISPLAY_DEVICE_ATTACHED_TO_DESKTOP > 0
}

/// Whether a monitor is listed: it is active and not a mirroring driver.
pub fn is_listed_monitor(state_flags: u32) -> (r: bool)
    ensures
        r == ((state_flags & DISPLAY_DEVICE_ACTIVE != 0) && (state_flags
            & DISPLAY_DEVICE_MIRRORING_DRIVER == 0)),
{
    (state_flags & DISPLAY_DEVICE_ACTIVE != 0) && (state_flags & DISPLAY_DEVICE_MIRRORING_DRIVER
        == 0)
}

/// Whether a display adapter is the primary one.
pub fn is_primary_adapter(state_flags: u32) -> (r: bool)
    ensures
        r == (state_flags & DISPLAY_DEVICE_PRIMARY_DEVICE > 0),
{
    state_flags & DISPLAY_DEVICE_PRIMARY_DEVICE > 0
}

/// The rectangle of the virtual desktop from its origin and size.
pub fn virtual_display_rect(x: i32, y: i32, width: i32, height: i32) -> (r: PlatformRect)
    requires
        in_i32(x + width),
        in_i32(y + height),
    ensures
        r.left == x,
        r.top == y,
        r.right == x + width,
        r.bottom == y + height,
{
    PlatformRect { left: x, top: y, right: x + width, bottom: y + height }
}

} // verus!
