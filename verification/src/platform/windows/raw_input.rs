use vstd::prelude::*;
use crate::platform::windows::win32::{MOUSE_MOVE_ABSOLUTE, MOUSE_MOVE_RELATIVE, RIDEV_REMOVE, RIM_TYPEMOUSE};

verus! {

/// A raw mouse movement handed on for later processing: the relative
/// movement (0, 0 for absolute input) and the kind of movement.
#[derive(Clone, Copy, Debug, PartialEq, Eq, Structural)]
pub struct DeferredMouseInput {
    pub x: i32,
    pub y: i32,
    pub flags: u32,
}

/// Whether raw mouse flags report absolute coordinates.
pub open spec fn is_absolute_mouse_input(us_flags: u16) -> bool {
    (us_flags as u32 & MOUSE_MOVE_ABSOLUTE) == MOUSE_MOVE_ABSOLUTE
}

/// What raw input is handed on, given the input's device type, its mouse
/// flags and its movement: mouse input is handed on (absolute input, as from
/// a tablet or a remote desktop, without its coordinates; relative input
/// with its movement); input from other devices is not (`None`), and gets
/// default processing.
pub fn raw_mouse_deferral(device_type: u32, us_flags: u16, last_x: i32, last_y: i32) -> (r: Option<
    DeferredMouseInput,
>)
    ensures
        device_type != RIM_TYPEMOUSE ==> r is None,
        device_type == RIM_TYPEMOUSE && is_absolute_mouse_input(us_flags) ==> r == Some(
            DeferredMouseInput { x: 0, y: 0, flags: MOUSE_MOVE_ABSOLUTE },
        ),
        device_type == RIM_TYPEMOUSE && !is_absolute_mouse_input(us_flags) ==> r == Some(
            DeferredMouseInput { x: last_x, y: last_y, flags: MOUSE_MOVE_RELATIVE },
        ),
{
    if device_type == RIM_TYPEMOUSE {
        let is_absolute_input = (us_flags as u32 & MOUSE_MOVE_ABSOLUTE) == MOUSE_MOVE_ABSOLUTE;
        if is_absolute_input {
            return Some(DeferredMouseInput { x: 0, y: 0, flags: MOUSE_MOVE_ABSOLUTE });
        }
        Some(DeferredMouseInput { x: last_x, y: last_y, flags: MOUSE_MOVE_RELATIVE })
    } else {
        None
    }
}

/// Raw mouse flags report absolute coordinates exactly when their lowest bit
/// is set.
pub proof fn lemma_absolute_input_is_low_bit(us_flags: u16)
    ensures
        is_absolute_mouse_input(us_flags) <==> us_flags % 2 == 1,
{
    assert((us_flags as u32 & 1u32) == 1u32 <==> us_flags % 2 == 1) by (bit_vector);
}

/// A registration for raw input from the standard mouse.
#[derive(Clone, Copy, Debug, PartialEq, Eq, Structural)]
pub struct RawMouseRegistration {
    /// The HID usage page (generic desktop controls).
    pub usage_page: u16,
    /// The HID usage (mouse).
    pub usage: u16,
    /// Registration flags.
    pub flags: u32,
    /// The window receiving the input, 0 for none.
    pub target: isize,
}

/// The registration that turns high-precision mouse input on or off: on, the
/// standard mouse sends raw input to the given window alone; off, the
/// registration is removed.
pub fn high_precision_mouse_registration(enable: bool, window: isize) -> (r: RawMouseRegistration)
    ensures
        r.usage_page == 1,
        r.usage == 2,
        enable ==> r.flags == 0 && r.target == window,
        !enable ==> r.flags == RIDEV_REMOVE && r.target == 0,
{
    let mut hwnd: isize = 0;
    let mut flags: u32 = RIDEV_REMOVE;
    if enable {
        flags = 0;
        hwnd = window;
    }
    let standard_mouse: u16 = 0x02;
    RawMouseRegistration { usage_page: 0x01, usage: standard_mouse, flags, target: hwnd }
}

/// A device name with every `#` read as `\`.
pub open spec fn hashes_as_backslashes(name: Seq<u8>) -> Seq<u8> {
    name.map_values(|b: u8| if b == 0x23 { 0x5cu8 } else { b })
}

/// The name prefix of the remote desktop mouse as older systems give it:
/// `\??\ROOT\RDP_MOU\`.
pub open spec fn rdp_mouse_prefix_old() -> Seq<u8> {
    seq![
        0x5cu8, 0x3f, 0x3f, 0x5c, 0x52, 0x4f, 0x4f, 0x54, 0x5c, 0x52, 0x44, 0x50, 0x5f, 0x4d, 0x4f,
        0x55, 0x5c,
    ]
}

/// The name prefix of the remote desktop mouse as newer systems give it:
/// `\\?\ROOT\RDP_MOU\`.
pub open spec fn rdp_mouse_prefix_new() -> Seq<u8> {
    seq![
        0x5cu8, 0x5c, 0x3f, 0x5c, 0x52, 0x4f, 0x4f, 0x54, 0x5c, 0x52, 0x44, 0x50, 0x5f, 0x4d, 0x4f,
        0x55, 0x5c,
    ]
}

/// Whether `s` starts with `prefix`.
pub open spec fn starts_with(s: Seq<u8>, prefix: Seq<u8>) -> bool {
    prefix.len() <= s.len() && s.subrange(0, prefix.len() as int) == prefix
}

/// Whether a raw input device name names the remote desktop's stand-in
/// mouse.
pub open spec fn spec_is_remote_desktop_mouse(name: Seq<u8>) -> bool {
    starts_with(hashes_as_backslashes(name), rdp_mouse_prefix_old()) || starts_with(
        hashes_as_backslashes(name),
        rdp_mouse_prefix_new(),
    )
}

/// Whether `name`, with `#` read as `\`, starts with `prefix`.
fn starts_with_reading_hashes(name: &[u8], prefix: &[u8; 17]) -> (r: bool)
    ensures
        r == starts_with(hashes_as_backslashes(name@), prefix@),
{
    if name.len() < 17 {
        return false;
    }
    let mut i: usize = 0;
    while i < 17
        invariant
            17 <= name@.len(),
            prefix@.len() == 17,
            i <= 17,
            forall|j: int| 0 <= j < i ==> hashes_as_backslashes(name@)[j] == prefix@[j],
        decreases 17 - i,
    {
        let b = name[i];
        let read = if b == 0x23 { 0x5cu8 } else { b };
        if read != prefix[i] {
            assert(hashes_as_backslashes(name@).subrange(0, 17)[i as int] != prefix@[i as int]);
            return false;
        }
        i = i + 1;
    }
    assert(hashes_as_backslashes(name@).subrange(0, 17) =~= prefix@);
    true
}

/// Whether a raw input device name, with `#` read as `\`, starts with the
/// remote desktop mouse's name prefix of either form.
pub fn is_remote_desktop_mouse(name: &[u8]) -> (r: bool)
    ensures
        r == spec_is_remote_desktop_mouse(name@),
{
    let old_prefix: [u8; 17] = [
        0x5c, 0x3f, 0x3f, 0x5c, 0x52, 0x4f, 0x4f, 0x54, 0x5c, 0x52, 0x44, 0x50, 0x5f, 0x4d, 0x4f,
        0x55, 0x5c,
    ];
    let new_prefix: [u8; 17] = [
        0x5c, 0x5c, 0x3f, 0x5c, 0x52, 0x4f, 0x4f, 0x54, 0x5c, 0x52, 0x44, 0x50, 0x5f, 0x4d, 0x4f,
        0x55, 0x5c,
    ];
    assert(old_prefix@ =~= rdp_mouse_prefix_old());
    assert(new_prefix@ =~= rdp_mouse_prefix_new());
    starts_with_reading_hashes(name, &old_prefix) || starts_with_reading_hashes(name, &new_prefix)
}

/// The remote desktop's stand-in mouse is recognised by its name prefix
/// `\\?\ROOT\RDP_MOU\` (or `\??\ROOT\RDP_MOU\` on older systems), where
/// any backslash may be given as `#`: a name that starts so is the stand-in,
/// a name shorter than the prefix is not, and neither is a name whose first
/// byte is neither `\` nor `#`.
pub proof fn lemma_remote_desktop_mouse_names(name: Seq<u8>)
    ensures
        ({
            let new_prefix: Seq<u8> = seq![
                0x5cu8, 0x5c, 0x3f, 0x5c, 0x52, 0x4f, 0x4f, 0x54, 0x5c, 0x52, 0x44, 0x50, 0x5f, 0x4d,
                0x4f, 0x55, 0x5c,
            ];
            let old_prefix: Seq<u8> = seq![
                0x5cu8, 0x3f, 0x3f, 0x5c, 0x52, 0x4f, 0x4f, 0x54, 0x5c, 0x52, 0x44, 0x50, 0x5f, 0x4d,
                0x4f, 0x55, 0x5c,
            ];
            &&& name.len() >= 17 && (forall|i: int|
                0 <= i < 17 ==> (#[trigger] name[i] == new_prefix[i] || (new_prefix[i] == 0x5c
                    && name[i] == 0x23))) ==> spec_is_remote_desktop_mouse(name)
            &&& name.len() >= 17 && (forall|i: int|
                0 <= i < 17 ==> (#[trigger] name[i] == old_prefix[i] || (old_prefix[i] == 0x5c
                    && name[i] == 0x23))) ==> spec_is_remote_desktop_mouse(name)
            &&& name.len() < 17 ==> !spec_is_remote_desktop_mouse(name)
            &&& name.len() > 0 && name[0] != 0x5c && name[0] != 0x23 ==> !spec_is_remote_desktop_mouse(name)
        }),
{
    let read = hashes_as_backslashes(name);
    let new_prefix: Seq<u8> = seq![
        0x5cu8, 0x5c, 0x3f, 0x5c, 0x52, 0x4f, 0x4f, 0x54, 0x5c, 0x52, 0x44, 0x50, 0x5f, 0x4d,
        0x4f, 0x55, 0x5c,
    ];
    let old_prefix: Seq<u8> = seq![
        0x5cu8, 0x3f, 0x3f, 0x5c, 0x52, 0x4f, 0x4f, 0x54, 0x5c, 0x52, 0x44, 0x50, 0x5f, 0x4d,
        0x4f, 0x55, 0x5c,
    ];
    assert(new_prefix =~= rdp_mouse_prefix_new());
    assert(old_prefix =~= rdp_mouse_prefix_old());
    if name.len() >= 17 && (forall|i: int|
        0 <= i < 17 ==> (#[trigger] name[i] == new_prefix[i] || (new_prefix[i] == 0x5c && name[i]
            == 0x23))) {
        assert forall|i: int| 0 <= i < 17 implies #[trigger] read.subrange(0, 17)[i] == new_prefix[i] by {
            assert(name[i] == new_prefix[i] || (new_prefix[i] == 0x5c && name[i] == 0x23));
        }
        assert(read.subrange(0, 17) =~= new_prefix);
    }
    if name.len() >= 17 && (forall|i: int|
        0 <= i < 17 ==> (#[trigger] name[i] == old_prefix[i] || (old_prefix[i] == 0x5c && name[i]
            == 0x23))) {
        assert forall|i: int| 0 <= i < 17 implies #[trigger] read.subrange(0, 17)[i] == old_prefix[i] by {
            assert(name[i] == old_prefix[i] || (old_prefix[i] == 0x5c && name[i] == 0x23));
        }
        assert(read.subrange(0, 17) =~= old_prefix);
    }
    if name.len() > 0 && name[0] != 0x5c && name[0] != 0x23 {
        assert(read[0] != 0x5c);
        assert(read.len() >= 17 ==> read.subrange(0, 17)[0] != old_prefix[0]);
        assert(read.len() >= 17 ==> read.subrange(0, 17)[0] != new_prefix[0]);
    }
}

/// A raw input device as enumerated: whether it is a mouse, and for a mouse
/// its name when the system gave it.
#[derive(Clone, Debug)]
pub struct RawInputDeviceInfo {
    pub is_mouse: bool,
    pub name: Option<Vec<u8>>,
}

/// Whether a device counts as a connected mouse: a mouse with a name that is
/// not the remote desktop's stand-in.
pub open spec fn counts_as_mouse(d: RawInputDeviceInfo) -> bool {
    d.is_mouse && match d.name {
        Some(n) => !spec_is_remote_desktop_mouse(n@),
        None => false,
    }
}

/// The number of devices in `devices` that count as connected mice.
pub open spec fn mouse_count(devices: Seq<RawInputDeviceInfo>) -> nat
    decreases devices.len(),
{
    if devices.len() == 0 {
        0
    } else {
        mouse_count(devices.drop_last()) + if counts_as_mouse(devices.last()) {
            1nat
        } else {
            0nat
        }
    }
}

/// Adding a device to the list counts one more mouse exactly when the device
/// is a mouse whose name the system gave and that is not the remote
/// desktop's stand-in; any other device leaves the count as it is.
pub proof fn lemma_mouse_count_push(devices: Seq<RawInputDeviceInfo>, d: RawInputDeviceInfo)
    ensures
        d.is_mouse && d.name is Some && !spec_is_remote_desktop_mouse(d.name->0@) ==> mouse_count(
            devices.push(d),
        ) == mouse_count(devices) + 1,
        !(d.is_mouse && d.name is Some && !spec_is_remote_desktop_mouse(d.name->0@)) ==> mouse_count(
            devices.push(d),
        ) == mouse_count(devices),
{
    assert(devices.push(d).drop_last() =~= devices);
}

/// Devices that are not mice never count: a list without a mouse counts
/// none, and the count never exceeds the number of mice listed.
pub proof fn lemma_only_mice_count(devices: Seq<RawInputDeviceInfo>)
    ensures
        (forall|j: int| 0 <= j < devices.len() ==> !(#[trigger] devices[j]).is_mouse) ==> mouse_count(
            devices,
        ) == 0,
        mouse_count(devices) <= devices.filter(|d: RawInputDeviceInfo| d.is_mouse).len(),
    decreases devices.len(),
{
    if devices.len() > 0 {
        let init = devices.drop_last();
        lemma_only_mice_count(init);
        assert(init.push(devices.last()) =~= devices);
        lemma_mouse_count_push(init, devices.last());
        if forall|j: int| 0 <= j < devices.len() ==> !(#[trigger] devices[j]).is_mouse {
            assert forall|j: int| 0 <= j < init.len() implies !(#[trigger] init[j]).is_mouse by {
                assert(init[j] == devices[j]);
            }
            assert(!devices[devices.len() - 1].is_mouse);
        }
        reveal_with_fuel(vstd::seq::Seq::filter, 1);
        assert(devices.filter(|d: RawInputDeviceInfo| d.is_mouse) == {
            let rest = init.filter(|d: RawInputDeviceInfo| d.is_mouse);
            if devices.last().is_mouse {
                rest.push(devices.last())
            } else {
                rest
            }
        });
    } else {
        assert(devices.filter(|d: RawInputDeviceInfo| d.is_mouse).len() >= 0);
    }
}

/// The number of connected mice among the enumerated devices.
pub fn count_connected_mice(devices: &Vec<RawInputDeviceInfo>) -> (count: usize)
    ensures
        count == mouse_count(devices@),
        count <= devices@.len(),
{
    let mut mouse_count_so_far: usize = 0;
    let mut i: usize = 0;
    while i < devices.len()
        invariant
            i <= devices@.len(),
            mouse_count_so_far == mouse_count(devices@.take(i as int)),
            mouse_count_so_far <= i,
        decreases devices@.len() - i,
    {
        proof {
            assert(devices@.take(i + 1).drop_last() =~= devices@.take(i as int));
        }
        let device = &devices[i];
        if device.is_mouse {
            match &device.name {
                Some(name) => {
                    if !is_remote_desktop_mouse(name.as_slice()) {
                        mouse_count_so_far = mouse_count_so_far + 1;
                    }
                },
                None => {},
            }
        }
        i = i + 1;
    }
    proof {
        assert(devices@.take(i as int) =~= devices@);
    }
    mouse_count_so_far
}

} // verus!
