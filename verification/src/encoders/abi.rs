//! The kernel's V4L2 numbers and structures, and those of the vendor's buffer library.
use crate::text;
use vstd::prelude::*;
use vstd::string::StringExecFns;

verus! {

pub const V4L2_BUF_TYPE_VIDEO_CAPTURE_MPLANE: u32 = 9;

pub const V4L2_BUF_TYPE_VIDEO_OUTPUT_MPLANE: u32 = 10;

pub const V4L2_MEMORY_MMAP: u32 = 1;

pub const V4L2_MEMORY_DMABUF: u32 = 4;

pub const V4L2_PIX_FMT_NV12M: u32 = 0x3231_4d4e;

pub const V4L2_PIX_FMT_H264: u32 = 0x3436_3248;

/// The driver copies this buffer's timestamp to the access unit it produces.
pub const V4L2_BUF_FLAG_TIMESTAMP_COPY: u32 = 0x4000;

pub const VIDIOC_S_FMT: u64 = 0xc0d0_5605;

pub const VIDIOC_REQBUFS: u64 = 0xc014_5608;

pub const VIDIOC_QUERYBUF: u64 = 0xc058_5609;

pub const VIDIOC_QBUF: u64 = 0xc058_560f;

pub const VIDIOC_EXPBUF: u64 = 0xc040_5610;

pub const VIDIOC_DQBUF: u64 = 0xc058_5611;

pub const VIDIOC_STREAMON: u64 = 0x4004_5612;

pub const VIDIOC_STREAMOFF: u64 = 0x4004_5613;

pub const VIDIOC_S_EXT_CTRLS: u64 = 0xc020_5648;

pub const CID_BITRATE: u32 = 0x0099_09cf;

pub const CID_BITRATE_MODE: u32 = 0x0099_09ce;

pub const CID_H264_PROFILE: u32 = 0x0099_0a6b;

pub const CID_IDR_INTERVAL: u32 = 0x0099_0b02;

pub const CID_VBV_SIZE: u32 = 0x0099_0b13;

pub const CID_INSERT_SPS_PPS_AT_IDR: u32 = 0x0099_0b17;

pub const CID_HW_PRESET: u32 = 0x0099_0b1c;

pub const CID_INSERT_VUI: u32 = 0x0099_0b22;

pub const CID_MAX_PERFORMANCE: u32 = 0x0099_0b2a;

pub const CID_POC_TYPE: u32 = 0x0099_0b33;

pub const CID_FORCE_IDR_FRAME: u32 = 0x0099_0b37;

/// Every encoder control belongs to this class; the driver ignores a request that
/// arrives without it, silently.
pub const V4L2_CTRL_CLASS_MPEG: u32 = 0x0099_0000;

pub const BITRATE_MODE_CBR: i32 = 1;

pub const H264_PROFILE_MAIN: i32 = 2;

pub const HW_PRESET_ULTRAFAST: i32 = 1;

pub const NVBUF_PAYLOAD_SURF_ARRAY: i32 = 0;

pub const NVBUF_LAYOUT_PITCH: i32 = 0;

pub const NVBUF_LAYOUT_BLOCK_LINEAR: i32 = 1;

pub const NVBUF_COLOR_ABGR32: i32 = 17;

pub const NVBUF_COLOR_XRGB32: i32 = 18;

pub const NVBUF_COLOR_NV12: i32 = 5;

pub const NVBUF_TAG_NONE: i32 = 0;

pub const NVBUF_TAG_VIDEO_ENC: i32 = 4608;

pub const NVBUF_TRANSFORM_FILTER: u32 = 4;

pub const NVBUF_FILTER_SMART: u32 = 4;

pub const OUTPUT_BUFFERS: usize = 4;

pub const CAPTURE_BUFFERS: usize = 4;

/// `v4l2_plane_pix_format`.
#[derive(Clone, Copy, Debug, PartialEq)]
pub struct PlaneFormat {
    pub sizeimage: u32,
    pub bytesperline: u32,
    pub reserved: [u16; 6],
}

/// `v4l2_pix_format_mplane`.
#[derive(Clone, Copy, Debug, PartialEq)]
pub struct PixFormatMplane {
    pub width: u32,
    pub height: u32,
    pub pixelformat: u32,
    pub field: u32,
    pub colorspace: u32,
    pub plane_fmt: [PlaneFormat; 8],
    pub num_planes: u8,
    pub flags: u8,
    pub enc: u8,
    pub quantization: u8,
    pub xfer_func: u8,
    pub reserved: [u8; 7],
}

/// `v4l2_format`.
#[derive(Clone, Copy, Debug, PartialEq)]
pub struct Format {
    pub type_: u32,
    pub pix_mp: PixFormatMplane,
}

/// `v4l2_requestbuffers`.
#[derive(Clone, Copy, Debug, PartialEq)]
pub struct RequestBuffers {
    pub count: u32,
    pub type_: u32,
    pub memory: u32,
    pub capabilities: u32,
    pub reserved: u32,
}

/// `v4l2_plane`.
#[derive(Clone, Copy, Debug, PartialEq)]
pub struct Plane {
    pub bytesused: u32,
    pub length: u32,
    pub m: u64,
    pub data_offset: u32,
    pub reserved: [u32; 11],
}

/// `v4l2_buffer`, but for the address of its planes, which is known only where the call is made.
#[derive(Clone, Copy, Debug, PartialEq)]
pub struct Buffer {
    pub index: u32,
    pub type_: u32,
    pub bytesused: u32,
    pub flags: u32,
    pub field: u32,
    pub timestamp: [i64; 2],
    pub timecode: [u32; 4],
    pub sequence: u32,
    pub memory: u32,
    pub length: u32,
    pub reserved2: u32,
    pub reserved: u32,
}

/// A buffer with its planes; `buffer.length` says how many of the two there are.
#[derive(Clone, Copy, Debug, PartialEq)]
pub struct Queued {
    pub buffer: Buffer,
    pub planes: [Plane; 2],
}

/// `v4l2_exportbuffer`.
#[derive(Clone, Copy, Debug, PartialEq)]
pub struct ExportBuffer {
    pub type_: u32,
    pub index: u32,
    pub plane: u32,
    pub flags: u32,
    pub fd: i32,
    pub reserved: [u32; 11],
}

/// What an encoder control is set to.
#[derive(Clone, Copy, Debug, PartialEq)]
pub enum ControlValue {
    /// The number itself stands in the control.
    Inline(i64),
    /// The control holds the address of this number.
    Pointer(u32),
}

/// `v4l2_ext_control`.
#[derive(Clone, Copy, Debug, PartialEq)]
pub struct ExtControl {
    pub id: u32,
    pub size: u32,
    pub reserved2: u32,
    pub value: ControlValue,
}

/// `v4l2_ext_controls` with its one control in it, whose address is known only where the call is
/// made.
#[derive(Clone, Copy, Debug, PartialEq)]
pub struct ExtControls {
    pub which: u32,
    pub count: u32,
    pub error_idx: u32,
    pub request_fd: i32,
    pub reserved: u32,
    pub control: ExtControl,
}

/// `NvBufferCreateParams`.
#[derive(Clone, Copy, Debug, PartialEq)]
pub struct NvBufferCreateParams {
    pub width: i32,
    pub height: i32,
    pub payload_type: i32,
    pub memsize: i32,
    pub layout: i32,
    pub color_format: i32,
    pub nvbuf_tag: i32,
}

/// An array that holds `value` throughout.
pub open spec fn filled<T: Copy, const N: usize>(value: T) -> [T; N] {
    vstd::array::spec_array_fill_for_copy_type::<T, N>(value)
}

/// The format of an unused plane.
pub open spec fn blank_plane_format() -> PlaneFormat {
    PlaneFormat { sizeimage: 0, bytesperline: 0, reserved: filled(0u16) }
}

/// A plane that holds nothing.
pub open spec fn blank_plane() -> Plane {
    Plane { bytesused: 0, length: 0, m: 0, data_offset: 0, reserved: filled(0u32) }
}

/// The surface format that matches the host frame's byte order: B,G,R,A bytes come out right as
/// `XRGB32`, and the mirrored R,G,B,A order as `ABGR32`, whatever the names suggest.
pub fn staging_format(rgba: bool) -> (format: i32)
    ensures
        format == if rgba {
            NVBUF_COLOR_ABGR32
        } else {
            NVBUF_COLOR_XRGB32
        },
{
    if rgba {
        NVBUF_COLOR_ABGR32
    } else {
        NVBUF_COLOR_XRGB32
    }
}

/// The transform parameters, as the words of the vendor's structure: a conversion with the smart
/// filter and nothing else asked for.
pub open spec fn transform_params_of() -> [u32; 14] {
    vstd::array::spec_array_update(
        vstd::array::spec_array_update(filled(0u32), 0, NVBUF_TRANSFORM_FILTER),
        2,
        NVBUF_FILTER_SMART,
    )
}

/// The transform parameters, as the words of the vendor's structure.
pub fn transform_params() -> (params: [u32; 14])
    ensures
        params == transform_params_of(),
        params@ == seq![4u32, 0, 4, 0, 0, 0, 0, 0, 0, 0, 0, 0, 0, 0],
{
    let mut params: [u32; 14] = [0u32; 14];
    params[0] = NVBUF_TRANSFORM_FILTER;
    params[2] = NVBUF_FILTER_SMART;
    assert(params =~= transform_params_of());
    params
}

/// The format of a queue of `width` by `height` pictures in `planes` planes, with room for
/// `sizeimage` bytes in the first.
pub open spec fn format_of(
    width: i32,
    height: i32,
    type_: u32,
    pixelformat: u32,
    planes: u8,
    sizeimage: u32,
) -> Format {
    Format {
        type_,
        pix_mp: PixFormatMplane {
            width: width as u32,
            height: height as u32,
            pixelformat,
            field: 1,
            colorspace: 0,
            plane_fmt: vstd::array::spec_array_update(
                filled(blank_plane_format()),
                0,
                PlaneFormat { sizeimage, ..blank_plane_format() },
            ),
            num_planes: planes,
            flags: 0,
            enc: 0,
            quantization: 0,
            xfer_func: 0,
            reserved: filled(0u8),
        },
    }
}

/// The format of a queue of `width` by `height` pictures in `planes` planes, with room for
/// `sizeimage` bytes in the first.
pub fn format(
    width: i32,
    height: i32,
    type_: u32,
    pixelformat: u32,
    planes: u8,
    sizeimage: u32,
) -> (format: Format)
    ensures
        format == format_of(width, height, type_, pixelformat, planes, sizeimage),
{
    let blank: PlaneFormat = PlaneFormat { sizeimage: 0, bytesperline: 0, reserved: [0u16; 6] };
    let mut plane_fmt: [PlaneFormat; 8] = [blank;8];
    plane_fmt[0] = PlaneFormat { sizeimage, bytesperline: 0, reserved: [0u16; 6] };
    let ghost expected: [PlaneFormat; 8] = vstd::array::spec_array_update(
        filled(blank_plane_format()),
        0,
        PlaneFormat { sizeimage, ..blank_plane_format() },
    );
    assert(plane_fmt =~= expected);
    Format {
        type_,
        pix_mp: PixFormatMplane {
            width: width as u32,
            height: height as u32,
            pixelformat,
            field: 1,
            colorspace: 0,
            plane_fmt,
            num_planes: planes,
            flags: 0,
            enc: 0,
            quantization: 0,
            xfer_func: 0,
            reserved: [0u8; 7],
        },
    }
}

/// Buffer `index` of a queue, with `count` planes that hold nothing.
pub open spec fn buffer_of(type_: u32, memory: u32, index: u32, count: u32) -> Queued {
    Queued {
        buffer: Buffer {
            index,
            type_,
            bytesused: 0,
            flags: 0,
            field: 0,
            timestamp: filled(0i64),
            timecode: filled(0u32),
            sequence: 0,
            memory,
            length: count,
            reserved2: 0,
            reserved: 0,
        },
        planes: filled(blank_plane()),
    }
}

/// Buffer `index` of a queue, with `count` planes that hold nothing.
pub fn buffer(type_: u32, memory: u32, index: u32, count: u32) -> (queued: Queued)
    ensures
        queued == buffer_of(type_, memory, index, count),
{
    let blank: Plane = Plane {
        bytesused: 0,
        length: 0,
        m: 0,
        data_offset: 0,
        reserved: [0u32; 11],
    };
    Queued {
        buffer: Buffer {
            index,
            type_,
            bytesused: 0,
            flags: 0,
            field: 0,
            timestamp: [0i64; 2],
            timecode: [0u32; 4],
            sequence: 0,
            memory,
            length: count,
            reserved2: 0,
            reserved: 0,
        },
        planes: [blank;2],
    }
}

/// Control `id` set to `value`.
pub open spec fn control_of(id: u32, value: i64) -> ExtControls {
    ExtControls {
        which: V4L2_CTRL_CLASS_MPEG,
        count: 1,
        error_idx: 0,
        request_fd: 0,
        reserved: 0,
        control: ExtControl {
            id,
            size: 0,
            reserved2: 0,
            value: if id == CID_VBV_SIZE {
                ControlValue::Pointer(value as u32)
            } else {
                ControlValue::Inline(value)
            },
        },
    }
}

/// Set one encoder control. `VIRTUALBUFFER_SIZE` is compound: the driver reads the value through
/// a pointer in the same union, and passing it inline makes it read whatever address the number
/// happens to name, which silently wrecks the rest of the configuration.
pub fn set_control(id: u32, value: i64) -> (controls: ExtControls)
    ensures
        controls == control_of(id, value),
{
    let value: ControlValue = if id == CID_VBV_SIZE {
        ControlValue::Pointer(value as u32)
    } else {
        ControlValue::Inline(value)
    };
    ExtControls {
        which: V4L2_CTRL_CLASS_MPEG,
        count: 1,
        error_idx: 0,
        request_fd: 0,
        reserved: 0,
        control: ExtControl { id, size: 0, reserved2: 0, value },
    }
}

/// The sizes in bytes that a build lays the structures out with.
#[derive(Clone, Copy, Debug, PartialEq, Eq)]
pub struct AbiSizes {
    pub format: usize,
    pub request_buffers: usize,
    pub buffer: usize,
    pub plane: usize,
    pub export_buffer: usize,
    pub ext_control: usize,
    pub ext_controls: usize,
    pub create_params: usize,
}

/// A structure of the ABI: its name, its size in a build, and the size the kernel expects.
pub struct StructSize {
    pub name: Seq<char>,
    pub got: nat,
    pub want: nat,
}

/// The structures in the order in which they are checked.
pub open spec fn abi_table(sizes: AbiSizes) -> Seq<StructSize> {
    seq![
        StructSize { name: "v4l2_format"@, got: sizes.format as nat, want: 208 },
        StructSize { name: "v4l2_requestbuffers"@, got: sizes.request_buffers as nat, want: 20 },
        StructSize { name: "v4l2_buffer"@, got: sizes.buffer as nat, want: 88 },
        StructSize { name: "v4l2_plane"@, got: sizes.plane as nat, want: 64 },
        StructSize { name: "v4l2_exportbuffer"@, got: sizes.export_buffer as nat, want: 64 },
        StructSize { name: "v4l2_ext_control"@, got: sizes.ext_control as nat, want: 20 },
        StructSize { name: "v4l2_ext_controls"@, got: sizes.ext_controls as nat, want: 32 },
        StructSize { name: "NvBufferCreateParams"@, got: sizes.create_params as nat, want: 28 },
    ]
}

/// What is said of a structure of the wrong size.
pub open spec fn mismatch(s: StructSize) -> Seq<char> {
    s.name + " is "@ + text::decimal(s.got) + " bytes here, the kernel ABI is "@ + text::decimal(
        s.want,
    )
}

/// Whether entry `i` is the first of `table` with the wrong size.
pub open spec fn first_mismatch(table: Seq<StructSize>, i: int) -> bool {
    &&& 0 <= i < table.len()
    &&& table[i].got != table[i].want
    &&& forall|j: int| 0 <= j < i ==> (#[trigger] table[j]).got == table[j].want
}

/// Whether the structure `name` has the size `want`.
fn size_matches(name: &str, got: usize, want: usize) -> (fit: Result<(), String>)
    ensures
        match fit {
            Ok(_) => got == want,
            Err(e) => got != want && e@ == mismatch(
                StructSize { name: name@, got: got as nat, want: want as nat },
            ),
        },
{
    if got == want {
        return Ok(());
    }
    let mut message: String = name.to_owned();
    message.append(" is ");
    text::push_decimal(&mut message, got as u64);
    message.append(" bytes here, the kernel ABI is ");
    text::push_decimal(&mut message, want as u64);
    Err(message)
}

/// The sizes the ioctl numbers encode, checked against what this build lays out.
pub fn abi_matches(sizes: &AbiSizes) -> (fit: Result<(), String>)
    ensures
        match fit {
            Ok(_) => forall|i: int|
                0 <= i < abi_table(*sizes).len() ==> (#[trigger] abi_table(*sizes)[i]).got
                    == abi_table(*sizes)[i].want,
            Err(e) => exists|i: int| #[trigger]
                first_mismatch(abi_table(*sizes), i) && e@ == mismatch(abi_table(*sizes)[i]),
        },
{
    let ghost table = abi_table(*sizes);
    let expected: [(&'static str, usize, usize); 8] = [
        ("v4l2_format", sizes.format, 208),
        ("v4l2_requestbuffers", sizes.request_buffers, 20),
        ("v4l2_buffer", sizes.buffer, 88),
        ("v4l2_plane", sizes.plane, 64),
        ("v4l2_exportbuffer", sizes.export_buffer, 64),
        ("v4l2_ext_control", sizes.ext_control, 20),
        ("v4l2_ext_controls", sizes.ext_controls, 32),
        ("NvBufferCreateParams", sizes.create_params, 28),
    ];
    let mut i: usize = 0;
    while i < 8
        invariant
            i <= 8,
            table == abi_table(*sizes),
            table.len() == 8,
            forall|j: int|
                0 <= j < 8 ==> (#[trigger] table[j]) == (StructSize {
                    name: expected@[j].0@,
                    got: expected@[j].1 as nat,
                    want: expected@[j].2 as nat,
                }),
            forall|j: int| 0 <= j < i ==> (#[trigger] table[j]).got == table[j].want,
        decreases 8 - i,
    {
        let (name, got, want) = expected[i];
        assert(table[i as int] == (StructSize { name: name@, got: got as nat, want: want as nat }));
        if let Err(e) = size_matches(name, got, want) {
            assert(first_mismatch(table, i as int));
            return Err(e);
        }
        i = i + 1;
    }
    Ok(())
}

/// Every control is sent under the encoder's class, and the size of the virtual buffer is the one
/// that is read through a pointer, whole where it fits in 32 bits.
pub proof fn only_the_buffer_size_is_a_pointer(id: u32, value: i64)
    ensures
        control_of(id, value).which == V4L2_CTRL_CLASS_MPEG,
        control_of(id, value).count == 1,
        control_of(id, value).control.id == id,
        control_of(id, value).control.value is Pointer <==> id == CID_VBV_SIZE,
        control_of(id, value).control.value matches ControlValue::Inline(v) ==> v == value,
        (control_of(id, value).control.value matches ControlValue::Pointer(v) ==> (0 <= value
            <= u32::MAX ==> v == value)),
{
}

/// The size of the argument that the ioctl number `request` encodes.
pub open spec fn argument_size(request: u64) -> u64 {
    (request >> 16) & 0x3fff
}

/// A build that [`abi_matches`] accepts lays every argument out in the size that the number of
/// its ioctl encodes.
pub proof fn ioctl_numbers_encode_the_sizes(sizes: AbiSizes)
    requires
        forall|i: int|
            0 <= i < abi_table(sizes).len() ==> (#[trigger] abi_table(sizes)[i]).got == abi_table(
                sizes,
            )[i].want,
    ensures
        argument_size(VIDIOC_S_FMT) == sizes.format,
        argument_size(VIDIOC_REQBUFS) == sizes.request_buffers,
        argument_size(VIDIOC_QUERYBUF) == sizes.buffer,
        argument_size(VIDIOC_QBUF) == sizes.buffer,
        argument_size(VIDIOC_DQBUF) == sizes.buffer,
        argument_size(VIDIOC_EXPBUF) == sizes.export_buffer,
        argument_size(VIDIOC_S_EXT_CTRLS) == sizes.ext_controls,
        argument_size(VIDIOC_STREAMON) == 4,
        argument_size(VIDIOC_STREAMOFF) == 4,
{
    let table = abi_table(sizes);
    assert(table[0].got == table[0].want);
    assert(table[1].got == table[1].want);
    assert(table[2].got == table[2].want);
    assert(table[4].got == table[4].want);
    assert(table[6].got == table[6].want);
    assert((0xc0d0_5605u64 >> 16) & 0x3fff == 208) by (bit_vector);
    assert((0xc014_5608u64 >> 16) & 0x3fff == 20) by (bit_vector);
    assert((0xc058_5609u64 >> 16) & 0x3fff == 88) by (bit_vector);
    assert((0xc058_560fu64 >> 16) & 0x3fff == 88) by (bit_vector);
    assert((0xc058_5611u64 >> 16) & 0x3fff == 88) by (bit_vector);
    assert((0xc040_5610u64 >> 16) & 0x3fff == 64) by (bit_vector);
    assert((0xc020_5648u64 >> 16) & 0x3fff == 32) by (bit_vector);
    assert((0x4004_5612u64 >> 16) & 0x3fff == 4) by (bit_vector);
    assert((0x4004_5613u64 >> 16) & 0x3fff == 4) by (bit_vector);
}

} // verus!
