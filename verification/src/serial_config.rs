//! The terminal settings of the serial device, and the messages of the
//! steps that set it up.
use vstd::prelude::*;
use crate::num_format::{decimal_text, format_decimal};
use crate::text::{owned, append_str};

verus! {

/// The flag words of a terminal's settings that the setup changes.
#[derive(Clone, Copy, Debug, PartialEq, Eq, Structural)]
pub struct TermFlags {
    pub control: u32,
    pub local: u32,
    pub output: u32,
}

/// The platform's values of the terminal flags that the setup uses.
#[derive(Clone, Copy, Debug, PartialEq, Eq, Structural)]
pub struct TermFlagBits {
    pub parenb: u32,
    pub cstopb: u32,
    pub csize: u32,
    pub cs8: u32,
    pub crtscts: u32,
    pub clocal: u32,
    pub cread: u32,
    pub icanon: u32,
    pub echo: u32,
    pub echoe: u32,
    pub isig: u32,
    pub opost: u32,
}

/// The settings of a raw 8N1 line: no parity, one stop bit, eight data
/// bits, no hardware flow control, receiver on, modem lines ignored, no
/// canonical input, echo or signals, and no output processing. Every other
/// flag keeps its value.
pub open spec fn raw_8n1_flags(flags: TermFlags, bits: TermFlagBits) -> TermFlags {
    TermFlags {
        control: (flags.control & !(bits.parenb | bits.cstopb | bits.csize | bits.crtscts))
            | (bits.cs8 & !bits.crtscts) | bits.clocal | bits.cread,
        local: flags.local & !(bits.icanon | bits.echo | bits.echoe | bits.isig),
        output: flags.output & !bits.opost,
    }
}

/// The raw 8N1 settings clear parity, the second stop bit, the character
/// size bits, hardware flow control, canonical input, echo, signals and
/// output processing; set eight data bits, the receiver and local mode; and
/// leave every other flag as it was. (Where the platform's values of two
/// named flags overlap, the flags that are set win over those that are
/// cleared, except flow control, which is cleared last.)
pub proof fn law_raw_8n1_flags(flags: TermFlags, bits: TermFlagBits, other_control: u32, other_local: u32, other_output: u32)
    requires
        other_control & (bits.parenb | bits.cstopb | bits.csize | bits.cs8 | bits.crtscts | bits.clocal | bits.cread) == 0,
        other_local & (bits.icanon | bits.echo | bits.echoe | bits.isig) == 0,
        other_output & bits.opost == 0,
    ensures
        ({
            let r = raw_8n1_flags(flags, bits);
            &&& (bits.parenb | bits.cstopb | bits.csize) & (bits.cs8 | bits.clocal | bits.cread) == 0
                ==> r.control & (bits.parenb | bits.cstopb) == 0
            &&& r.control & bits.crtscts & !(bits.clocal | bits.cread) == 0
            &&& r.control & (bits.cs8 & !bits.crtscts) == bits.cs8 & !bits.crtscts
            &&& r.control & (bits.clocal | bits.cread) == bits.clocal | bits.cread
            &&& bits.csize & (bits.cs8 | bits.clocal | bits.cread) == 0 ==> r.control & bits.csize == 0
            &&& r.control & other_control == flags.control & other_control
            &&& r.local & (bits.icanon | bits.echo | bits.echoe | bits.isig) == 0
            &&& r.local & other_local == flags.local & other_local
            &&& r.output & bits.opost == 0
            &&& r.output & other_output == flags.output & other_output
        }),
{
    let (c, p, sb, sz, c8, rts, cl, cr) = (
        flags.control,
        bits.parenb,
        bits.cstopb,
        bits.csize,
        bits.cs8,
        bits.crtscts,
        bits.clocal,
        bits.cread,
    );
    let (l, ic, e, ee, sg, oc) = (flags.local, bits.icanon, bits.echo, bits.echoe, bits.isig, other_control);
    let (o, op, ol, oo) = (flags.output, bits.opost, other_local, other_output);
    let rc = (c & !(p | sb | sz | rts)) | (c8 & !rts) | cl | cr;
    assert((p | sb | sz) & (c8 | cl | cr) == 0 ==> rc & (p | sb) == 0) by (bit_vector)
        requires rc == (c & !(p | sb | sz | rts)) | (c8 & !rts) | cl | cr;
    assert(rc & rts & !(cl | cr) == 0) by (bit_vector)
        requires rc == (c & !(p | sb | sz | rts)) | (c8 & !rts) | cl | cr;
    assert(rc & (c8 & !rts) == c8 & !rts) by (bit_vector)
        requires rc == (c & !(p | sb | sz | rts)) | (c8 & !rts) | cl | cr;
    assert(rc & (cl | cr) == cl | cr) by (bit_vector)
        requires rc == (c & !(p | sb | sz | rts)) | (c8 & !rts) | cl | cr;
    assert(sz & (c8 | cl | cr) == 0 ==> rc & sz == 0) by (bit_vector)
        requires rc == (c & !(p | sb | sz | rts)) | (c8 & !rts) | cl | cr;
    assert(rc & oc == c & oc) by (bit_vector)
        requires
            rc == (c & !(p | sb | sz | rts)) | (c8 & !rts) | cl | cr,
            oc & (p | sb | sz | c8 | rts | cl | cr) == 0;
    let rl = l & !(ic | e | ee | sg);
    assert(rl & (ic | e | ee | sg) == 0) by (bit_vector)
        requires rl == l & !(ic | e | ee | sg);
    assert(rl & ol == l & ol) by (bit_vector)
        requires rl == l & !(ic | e | ee | sg), ol & (ic | e | ee | sg) == 0;
    let ro = o & !op;
    assert(ro & op == 0) by (bit_vector)
        requires ro == o & !op;
    assert(ro & oo == o & oo) by (bit_vector)
        requires ro == o & !op, oo & op == 0;
}

/// The settings that the serial setup writes back, given those it read.
pub fn raw_8n1(flags: TermFlags, bits: TermFlagBits) -> (r: TermFlags)
    ensures
        r == raw_8n1_flags(flags, bits),
{
    let mut c = flags.control;
    c = c & !bits.parenb;
    c = c & !bits.cstopb;
    c = c & !bits.csize;
    c = c | bits.cs8;
    c = c & !bits.crtscts;
    c = c | (bits.clocal | bits.cread);
    let l = flags.local & !(bits.icanon | bits.echo | bits.echoe | bits.isig);
    let o = flags.output & !bits.opost;
    let (c0, p, sb, sz, c8, rts, cl, cr) = (
        flags.control,
        bits.parenb,
        bits.cstopb,
        bits.csize,
        bits.cs8,
        bits.crtscts,
        bits.clocal,
        bits.cread,
    );
    assert(((((((c0 & !p) & !sb) & !sz) | c8) & !rts) | (cl | cr)) == (c0 & !(p | sb | sz | rts)) | (c8
        & !rts) | cl | cr) by (bit_vector);
    TermFlags { control: c, local: l, output: o }
}

/// The steps of the serial setup, each of which can fail.
#[derive(Clone, Copy, Debug, PartialEq, Eq, Structural)]
pub enum SetupStep {
    Open,
    GetOptions,
    SetInputSpeed,
    SetOutputSpeed,
    SetOptions,
    SetStatusFlags,
}

/// What failed in a step.
pub open spec fn step_text(step: SetupStep) -> Seq<char> {
    match step {
        SetupStep::Open => "could not open device"@,
        SetupStep::GetOptions => "could not get options"@,
        SetupStep::SetInputSpeed => "could not set input speed"@,
        SetupStep::SetOutputSpeed => "could not set output speed"@,
        SetupStep::SetOptions => "could not set options"@,
        SetupStep::SetStatusFlags => "could not set file status flag"@,
    }
}

/// The description of a failed step with the system's error number.
pub open spec fn failure_text(step: SetupStep, errno: i32) -> Seq<char> {
    step_text(step) + "; error: "@ + decimal_text(errno as int)
}

/// Describes a failed setup step: what failed, then `; error: ` and the
/// system's error number.
pub fn describe_failure(step: SetupStep, errno: i32) -> (r: String)
    ensures
        r@ == failure_text(step, errno),
{
    let mut r = match step {
        SetupStep::Open => owned("could not open device"),
        SetupStep::GetOptions => owned("could not get options"),
        SetupStep::SetInputSpeed => owned("could not set input speed"),
        SetupStep::SetOutputSpeed => owned("could not set output speed"),
        SetupStep::SetOptions => owned("could not set options"),
        SetupStep::SetStatusFlags => owned("could not set file status flag"),
    };
    append_str(&mut r, "; error: ");
    append_str(&mut r, format_decimal(errno as i64).as_str());
    r
}

} // verus!
