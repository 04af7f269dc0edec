//! What is written to the diagnostic sinks: numbers as text, log lines, the
//! report of a panic, and how much of the display a panic paints.
//!
//! Nothing here touches a device. Each function gives the bytes, or the
//! count, that the caller then sends out.

use vstd::prelude::*;
use vstd::string::StringSliceAdditionalSpecFns;
use crate::boot_info::FramebufferInfo;

verus! {

/// Number of hexadecimal digits in which an address is written.
pub const HEX_WIDTH: usize = 16;

/// Largest number of pixels that a panic paints.
pub const PANIC_PIXELS: u64 = 1000;

/// The colour a panic paints: red.
pub const PANIC_COLOR: u32 = 0x00FF_0000;

/// The character for one hexadecimal digit, capitals for ten to fifteen.
pub open spec fn hex_digit(d: int) -> u8 {
    if d < 10 {
        (0x30 + d) as u8
    } else {
        (0x41 + d - 10) as u8
    }
}

/// The last `n` hexadecimal digits of `v`, most significant first.
pub open spec fn hex_digits(v: int, n: nat) -> Seq<u8>
    decreases n,
{
    if n == 0 {
        Seq::empty()
    } else {
        hex_digits(v / 16, (n - 1) as nat).push(hex_digit(v % 16))
    }
}

/// `v` in decimal, without leading zeroes; "0" for zero.
pub open spec fn decimal_digits(v: int) -> Seq<u8>
    decreases v,
{
    if v < 10 {
        seq![(0x30 + v) as u8]
    } else {
        decimal_digits(v / 10).push((0x30 + v % 10) as u8)
    }
}

/// The bytes of "ERROR: ".
pub open spec fn error_prefix() -> Seq<u8> {
    seq![0x45u8, 0x52u8, 0x52u8, 0x4fu8, 0x52u8, 0x3au8, 0x20u8]
}

/// The bytes of "Location: ".
pub open spec fn location_prefix() -> Seq<u8> {
    seq![0x4cu8, 0x6fu8, 0x63u8, 0x61u8, 0x74u8, 0x69u8, 0x6fu8, 0x6eu8, 0x3au8, 0x20u8]
}

/// The bytes of "Message: ".
pub open spec fn message_prefix() -> Seq<u8> {
    seq![0x4du8, 0x65u8, 0x73u8, 0x73u8, 0x61u8, 0x67u8, 0x65u8, 0x3au8, 0x20u8]
}

/// The bytes of the banner that opens a panic report: two empty lines, then
/// "KERNEL PANIC!" and a line end.
pub open spec fn panic_banner() -> Seq<u8> {
    seq![
        0x0au8, 0x0au8, 0x4bu8, 0x45u8, 0x52u8, 0x4eu8, 0x45u8, 0x4cu8, 0x20u8, 0x50u8, 0x41u8,
        0x4eu8, 0x49u8, 0x43u8, 0x21u8, 0x0au8,
    ]
}

/// A line of the log: the message and a line end.
pub open spec fn info_line(msg: Seq<u8>) -> Seq<u8> {
    msg.push(0x0au8)
}

/// A line of the log that reports an error: "ERROR: ", the message and a
/// line end.
pub open spec fn error_line(msg: Seq<u8>) -> Seq<u8> {
    (error_prefix() + msg).push(0x0au8)
}

/// The line of a panic report that says where the panic arose.
pub open spec fn location_line(file: Seq<u8>, line: u32) -> Seq<u8> {
    ((location_prefix() + file).push(0x3au8) + decimal_digits(line as int)).push(0x0au8)
}

/// The line of a panic report that gives the panic's message.
pub open spec fn message_line(msg: Seq<u8>) -> Seq<u8> {
    (message_prefix() + msg).push(0x0au8)
}

/// A panic report: the banner, then the location if it is known, then the
/// message if there is one.
pub open spec fn panic_text(location: Option<(Seq<u8>, u32)>, message: Option<Seq<u8>>) -> Seq<
    u8,
> {
    panic_banner() + (match location {
        Some(at) => location_line(at.0, at.1),
        None => Seq::empty(),
    }) + (match message {
        Some(msg) => message_line(msg),
        None => Seq::empty(),
    })
}

/// Number of pixels a panic paints on a display: none unless a pixel takes
/// four bytes, else the first thousand, or all if there are fewer.
pub open spec fn panic_pixels_of(fb: FramebufferInfo) -> int {
    if fb.bpp / 8 != 4 {
        0
    } else if fb.width * fb.height < PANIC_PIXELS {
        fb.width * fb.height
    } else {
        PANIC_PIXELS as int
    }
}

/// What the pixels of a display hold once a panic has painted it: the
/// colour in the pixels it paints, as far as there are pixels, and what was
/// there before in all others.
pub open spec fn painted(before: Seq<u32>, fb: FramebufferInfo, color: u32) -> Seq<u32> {
    Seq::new(before.len(), |i: int| if i < panic_pixels_of(fb) { color } else { before[i] })
}

/// Appends the bytes of `src` to `out`.
fn append(out: &mut Vec<u8>, src: &[u8])
    ensures
        final(out)@ == old(out)@ + src@,
{
    let n: usize = src.len();
    let mut i: usize = 0;
    while i < n
        invariant
            n == src@.len(),
            i <= n,
            out@ == old(out)@ + src@.subrange(0, i as int),
        decreases n - i,
    {
        out.push(src[i]);
        assert(out@ =~= old(out)@ + src@.subrange(0, i + 1));
        i += 1;
    }
    assert(src@.subrange(0, n as int) =~= src@);
}

/// Appends "ERROR: ".
fn append_error_prefix(out: &mut Vec<u8>)
    ensures
        final(out)@ == old(out)@ + error_prefix(),
{
    out.push(0x45);
    out.push(0x52);
    out.push(0x52);
    out.push(0x4f);
    out.push(0x52);
    out.push(0x3a);
    out.push(0x20);
    assert(out@ =~= old(out)@ + error_prefix());
}

/// Appends "Location: ".
fn append_location_prefix(out: &mut Vec<u8>)
    ensures
        final(out)@ == old(out)@ + location_prefix(),
{
    out.push(0x4c);
    out.push(0x6f);
    out.push(0x63);
    out.push(0x61);
    out.push(0x74);
    out.push(0x69);
    out.push(0x6f);
    out.push(0x6e);
    out.push(0x3a);
    out.push(0x20);
    assert(out@ =~= old(out)@ + location_prefix());
}

/// Appends "Message: ".
fn append_message_prefix(out: &mut Vec<u8>)
    ensures
        final(out)@ == old(out)@ + message_prefix(),
{
    out.push(0x4d);
    out.push(0x65);
    out.push(0x73);
    out.push(0x73);
    out.push(0x61);
    out.push(0x67);
    out.push(0x65);
    out.push(0x3a);
    out.push(0x20);
    assert(out@ =~= old(out)@ + message_prefix());
}

/// Appends the banner of a panic report.
fn append_panic_banner(out: &mut Vec<u8>)
    ensures
        final(out)@ == old(out)@ + panic_banner(),
{
    out.push(0x0a);
    out.push(0x0a);
    out.push(0x4b);
    out.push(0x45);
    out.push(0x52);
    out.push(0x4e);
    out.push(0x45);
    out.push(0x4c);
    out.push(0x20);
    out.push(0x50);
    out.push(0x41);
    out.push(0x4e);
    out.push(0x49);
    out.push(0x43);
    out.push(0x21);
    out.push(0x0a);
    assert(out@ =~= old(out)@ + panic_banner());
}

/// Appends the bytes of `digits` to `out`, last first.
fn append_reversed(out: &mut Vec<u8>, digits: &Vec<u8>)
    ensures
        final(out)@ == old(out)@ + digits@.reverse(),
{
    let n: usize = digits.len();
    let mut i: usize = 0;
    while i < n
        invariant
            n == digits@.len(),
            i <= n,
            out@ == old(out)@ + digits@.reverse().subrange(0, i as int),
        decreases n - i,
    {
        out.push(digits[n - 1 - i]);
        assert(out@ =~= old(out)@ + digits@.reverse().subrange(0, i + 1));
        i += 1;
    }
    assert(digits@.reverse().subrange(0, n as int) =~= digits@.reverse());
}

/// Appends `value` in decimal to `out`.
fn append_decimal(out: &mut Vec<u8>, value: u64)
    ensures
        final(out)@ == old(out)@ + decimal_digits(value as int),
{
    let mut digits: Vec<u8> = Vec::new();
    let mut rest: u64 = value;
    while rest >= 10
        invariant
            decimal_digits(value as int) == decimal_digits(rest as int) + digits@.reverse(),
        decreases rest,
    {
        let ghost before = digits@;
        digits.push(0x30 + (rest % 10) as u8);
        assert(digits@.reverse() =~= seq![(0x30 + rest % 10) as u8] + before.reverse());
        assert(decimal_digits(rest as int) + before.reverse() =~= decimal_digits(
            (rest / 10) as int,
        ) + digits@.reverse());
        rest = rest / 10;
    }
    let ghost before = digits@;
    digits.push(0x30 + rest as u8);
    assert(digits@.reverse() =~= decimal_digits(rest as int) + before.reverse());
    append_reversed(out, &digits);
}

/// Writes `value` as sixteen hexadecimal digits, most significant first,
/// with capitals for ten to fifteen.
pub fn print_hex(value: u64) -> (text: Vec<u8>)
    ensures
        text@ == hex_digits(value as int, 16),
        text@.len() == HEX_WIDTH,
{
    let mut digits: Vec<u8> = Vec::new();
    let mut rest: u64 = value;
    let mut i: usize = 0;
    while i < 16
        invariant
            i <= 16,
            digits@.len() == i,
            hex_digits(value as int, 16) == hex_digits(rest as int, (16 - i) as nat)
                + digits@.reverse(),
        decreases 16 - i,
    {
        let d: u8 = (rest % 16) as u8;
        let c: u8 = if d < 10 {
            0x30 + d
        } else {
            0x41 + (d - 10)
        };
        let ghost before = digits@;
        digits.push(c);
        assert(digits@.reverse() =~= seq![hex_digit((rest % 16) as int)] + before.reverse());
        assert(hex_digits(rest as int, (16 - i) as nat) + before.reverse() =~= hex_digits(
            (rest / 16) as int,
            (16 - i - 1) as nat,
        ) + digits@.reverse());
        rest = rest / 16;
        i += 1;
    }
    let mut text: Vec<u8> = Vec::new();
    append_reversed(&mut text, &digits);
    assert(text@ =~= hex_digits(value as int, 16));
    text
}

/// Writes `value` in decimal, without leading zeroes.
pub fn print_decimal(value: u64) -> (text: Vec<u8>)
    ensures
        text@ == decimal_digits(value as int),
{
    let mut text: Vec<u8> = Vec::new();
    append_decimal(&mut text, value);
    assert(text@ =~= decimal_digits(value as int));
    text
}

/// The bytes that log `msg`.
pub fn log_info(msg: &str) -> (line: Vec<u8>)
    ensures
        line@ == info_line(msg.spec_bytes()),
{
    let mut line: Vec<u8> = Vec::new();
    append(&mut line, msg.as_bytes());
    line.push(0x0a);
    assert(line@ =~= info_line(msg.spec_bytes()));
    line
}

/// The bytes that log `msg` as an error.
pub fn log_error(msg: &str) -> (line: Vec<u8>)
    ensures
        line@ == error_line(msg.spec_bytes()),
{
    let mut line: Vec<u8> = Vec::new();
    append_error_prefix(&mut line);
    append(&mut line, msg.as_bytes());
    line.push(0x0a);
    line
}

/// The bytes a panic writes to the log: the banner, where the panic arose
/// (file and line) if that is known, and its message if it has one.
pub fn panic_report(location: Option<(&str, u32)>, message: Option<&str>) -> (text: Vec<u8>)
    ensures
        text@ == panic_text(
            match location {
                Some(at) => Some((at.0.spec_bytes(), at.1)),
                None => None,
            },
            match message {
                Some(msg) => Some(msg.spec_bytes()),
                None => None,
            },
        ),
{
    let mut text: Vec<u8> = Vec::new();
    append_panic_banner(&mut text);
    let ghost banner = text@;
    match location {
        Some((file, line)) => {
            append_location_prefix(&mut text);
            append(&mut text, file.as_bytes());
            text.push(0x3a);
            append_decimal(&mut text, line as u64);
            text.push(0x0a);
            assert(text@ =~= banner + location_line(file.spec_bytes(), line));
        },
        None => {
            assert(text@ =~= banner + Seq::<u8>::empty());
        },
    }
    let ghost located = text@;
    match message {
        Some(msg) => {
            append_message_prefix(&mut text);
            append(&mut text, msg.as_bytes());
            text.push(0x0a);
            assert(text@ =~= located + message_line(msg.spec_bytes()));
        },
        None => {
            assert(text@ =~= located + Seq::<u8>::empty());
        },
    }
    text
}

/// Number of pixels that a panic paints, from the start of the framebuffer.
pub fn panic_pixels(fb: &FramebufferInfo) -> (count: u64)
    ensures
        count == panic_pixels_of(*fb),
{
    if fb.bpp / 8 != 4 {
        return 0;
    }
    assert(0 <= fb.width * fb.height <= 0xFFFF_FFFF * 0xFFFF_FFFF) by (nonlinear_arith)
        requires
            0 <= fb.width <= 0xFFFF_FFFF,
            0 <= fb.height <= 0xFFFF_FFFF,
    ;
    let all: u64 = (fb.width as u64) * (fb.height as u64);
    if all < PANIC_PIXELS {
        all
    } else {
        PANIC_PIXELS
    }
}

/// Paints the mark of a panic: `color` into the first pixels of the display
/// described by `fb`, whose pixels are `pixels`. Nothing is painted unless a
/// pixel takes four bytes, and nothing beyond the pixels given.
pub fn write_to_framebuffer(fb: &FramebufferInfo, pixels: &mut [u32], color: u32)
    ensures
        final(pixels)@ == painted(old(pixels)@, *fb, color),
{
    let count: u64 = panic_pixels(fb);
    let len: usize = pixels.len();
    let mut i: usize = 0;
    while i < len && (i as u64) < count
        invariant
            len == pixels@.len(),
            pixels@.len() == old(pixels)@.len(),
            count == panic_pixels_of(*fb),
            i <= len,
            i <= count,
            forall|k: int| 0 <= k < i ==> pixels@[k] == color,
            forall|k: int| i <= k < len ==> pixels@[k] == old(pixels)@[k],
        decreases len - i,
    {
        pixels[i] = color;
        i += 1;
    }
    assert(pixels@ =~= painted(old(pixels)@, *fb, color));
}

} // verus!
