//! The DSP-1 maths coprocessor: the CPU writes a command byte and then its
//! parameters to the data register ($6000-$6FFF), and reads the results
//! back from it; the status register ($7000-$7FFF) shows whether a command
//! is still being fed.
//!
//! Commands whose results come from trigonometry (attitude, subjective,
//! rotate) are computed by the host in floating point: the chip then
//! waits, `pending_request` says what it waits for, and `complete` hands
//! the results in.
use vstd::prelude::*;
use crate::chips::CoProcessor;

use crate::bits::lemma_addr_masks;

verus! {

/// The DSP-1 commands.
#[derive(Debug, Clone, Copy, PartialEq, Eq, Structural)]
pub enum Dsp1Command {
    Multiply,
    Inverse,
    SquareRoot,
    Attitude,
    Objective,
    SubjectiveA,
    SubjectiveB,
    Radius,
    Range,
    Distance,
    Rotate,
    Project,
    ParameterA,
    ParameterB,
    ParameterC,
    MemTest,
}

/// The command a byte selects.
pub open spec fn command_of(b: u8) -> Option<Dsp1Command> {
    if b == 0x00 {
        Some(Dsp1Command::Multiply)
    } else if b == 0x04 {
        Some(Dsp1Command::Inverse)
    } else if b == 0x0C {
        Some(Dsp1Command::SquareRoot)
    } else if b == 0x06 {
        Some(Dsp1Command::Attitude)
    } else if b == 0x08 {
        Some(Dsp1Command::Objective)
    } else if b == 0x0A {
        Some(Dsp1Command::SubjectiveA)
    } else if b == 0x0E {
        Some(Dsp1Command::SubjectiveB)
    } else if b == 0x02 {
        Some(Dsp1Command::Radius)
    } else if b == 0x0B {
        Some(Dsp1Command::Range)
    } else if b == 0x01 {
        Some(Dsp1Command::Distance)
    } else if b == 0x05 {
        Some(Dsp1Command::Rotate)
    } else if b == 0x07 {
        Some(Dsp1Command::Project)
    } else if b == 0x0F {
        Some(Dsp1Command::ParameterA)
    } else if b == 0x09 {
        Some(Dsp1Command::ParameterB)
    } else if b == 0x0D {
        Some(Dsp1Command::ParameterC)
    } else if b == 0x03 {
        Some(Dsp1Command::MemTest)
    } else {
        None
    }
}

/// Parameter bytes each command takes.
pub open spec fn input_len(c: Dsp1Command) -> nat {
    match c {
        Dsp1Command::Multiply => 4,
        Dsp1Command::Inverse => 2,
        Dsp1Command::SquareRoot => 2,
        Dsp1Command::Attitude => 8,
        Dsp1Command::Objective => 6,
        Dsp1Command::SubjectiveA => 6,
        Dsp1Command::SubjectiveB => 6,
        Dsp1Command::Radius => 4,
        Dsp1Command::Range => 4,
        Dsp1Command::Distance => 6,
        Dsp1Command::Rotate => 4,
        Dsp1Command::Project => 6,
        Dsp1Command::ParameterA => 2,
        Dsp1Command::ParameterB => 2,
        Dsp1Command::ParameterC => 2,
        Dsp1Command::MemTest => 2,
    }
}

/// Result bytes each command gives.
pub open spec fn output_len(c: Dsp1Command) -> nat {
    match c {
        Dsp1Command::Multiply => 4,
        Dsp1Command::Inverse => 2,
        Dsp1Command::SquareRoot => 2,
        Dsp1Command::Attitude => 16,
        Dsp1Command::Objective => 6,
        Dsp1Command::SubjectiveA => 6,
        Dsp1Command::SubjectiveB => 6,
        Dsp1Command::Radius => 2,
        Dsp1Command::Range => 2,
        Dsp1Command::Distance => 2,
        Dsp1Command::Rotate => 4,
        Dsp1Command::Project => 4,
        Dsp1Command::ParameterA => 0,
        Dsp1Command::ParameterB => 0,
        Dsp1Command::ParameterC => 0,
        Dsp1Command::MemTest => 2,
    }
}

/// Whether the host computes the command's results (in floating point).
pub open spec fn host_computed(c: Dsp1Command) -> bool {
    c == Dsp1Command::Attitude || c == Dsp1Command::SubjectiveA || c == Dsp1Command::SubjectiveB
        || c == Dsp1Command::Rotate
}

impl Dsp1Command {
    /// The command a byte selects (see `command_of`).
    pub fn from_byte(byte: u8) -> (c: Option<Self>)
        ensures
            c == command_of(byte),
    {
        match byte {
            0x00 => Some(Self::Multiply),
            0x04 => Some(Self::Inverse),
            0x0C => Some(Self::SquareRoot),
            0x06 => Some(Self::Attitude),
            0x08 => Some(Self::Objective),
            0x0A => Some(Self::SubjectiveA),
            0x0E => Some(Self::SubjectiveB),
            0x02 => Some(Self::Radius),
            0x0B => Some(Self::Range),
            0x01 => Some(Self::Distance),
            0x05 => Some(Self::Rotate),
            0x07 => Some(Self::Project),
            0x0F => Some(Self::ParameterA),
            0x09 => Some(Self::ParameterB),
            0x0D => Some(Self::ParameterC),
            0x03 => Some(Self::MemTest),
            _ => None,
        }
    }

    /// Parameter bytes (see `input_len`).
    pub fn input_size(&self) -> (n: usize)
        ensures
            n == input_len(*self),
    {
        match self {
            Self::Multiply => 4,
            Self::Inverse => 2,
            Self::SquareRoot => 2,
            Self::Attitude => 8,
            Self::Objective => 6,
            Self::SubjectiveA => 6,
            Self::SubjectiveB => 6,
            Self::Radius => 4,
            Self::Range => 4,
            Self::Distance => 6,
            Self::Rotate => 4,
            Self::Project => 6,
            Self::ParameterA => 2,
            Self::ParameterB => 2,
            Self::ParameterC => 2,
            Self::MemTest => 2,
        }
    }

    /// Result bytes (see `output_len`).
    pub fn output_size(&self) -> (n: usize)
        ensures
            n == output_len(*self),
    {
        match self {
            Self::Multiply => 4,
            Self::Inverse => 2,
            Self::SquareRoot => 2,
            Self::Attitude => 16,
            Self::Objective => 6,
            Self::SubjectiveA => 6,
            Self::SubjectiveB => 6,
            Self::Radius => 2,
            Self::Range => 2,
            Self::Distance => 2,
            Self::Rotate => 4,
            Self::Project => 4,
            Self::ParameterA => 0,
            Self::ParameterB => 0,
            Self::ParameterC => 0,
            Self::MemTest => 2,
        }
    }
}

// ---------------------------------------------------------------------------
// Arithmetic
// ---------------------------------------------------------------------------

/// The signed 16-bit parameter at byte `k` (little-endian).
pub open spec fn param(input: Seq<u8>, k: int) -> int {
    let w = input[k] as int + 256 * input[k + 1] as int;
    if w >= 0x8000 {
        w - 0x10000
    } else {
        w
    }
}

/// The unsigned 16-bit parameter at byte `k`.
pub open spec fn uparam(input: Seq<u8>, k: int) -> int {
    input[k] as int + 256 * input[k + 1] as int
}

/// A 16-bit result, low byte first (wrapping to 16 bits).
pub open spec fn le16(v: int) -> Seq<u8> {
    let u = v as u16;
    seq![(u % 256) as u8, (u / 256) as u8]
}

/// A 32-bit result, low byte first (wrapping to 32 bits).
pub open spec fn le32(v: int) -> Seq<u8> {
    let u = v as u32;
    seq![(u % 256) as u8, ((u / 0x100) % 256) as u8, ((u / 0x1_0000) % 256) as u8, (u / 0x100_0000) as u8]
}

/// |a|.
pub open spec fn magnitude(a: int) -> int {
    if a < 0 {
        -a
    } else {
        a
    }
}

/// The quotient rounded toward zero.
pub open spec fn trunc_div(a: int, b: int) -> int {
    let q = magnitude(a) / magnitude(b);
    if (a < 0) == (b < 0) {
        q
    } else {
        -q
    }
}

/// Whether `r` is the integer square root of `n`.
pub open spec fn is_isqrt(n: int, r: int) -> bool {
    0 <= r && r * r <= n < (r + 1) * (r + 1)
}

/// The integer square root of `n` (the square root rounded down).
pub open spec fn isqrt(n: int) -> int {
    choose|r: int| is_isqrt(n, r)
}

/// A value clamped to at most 32767 (what a conversion of a non-negative
/// real to 16 bits saturates to).
pub open spec fn sat16(v: int) -> int {
    if v > 32767 {
        32767
    } else {
        v
    }
}

/// Whether the sum of squares of a command's first `k` parameters fits in
/// 32 signed bits (the chip computes it in 32 bits).
pub open spec fn squares_fit(input: Seq<u8>, k: int) -> bool {
    sum_squares(input, k) <= 0x7FFF_FFFF
}

/// The sum of the squares of the first `k` parameters.
pub open spec fn sum_squares(input: Seq<u8>, k: int) -> int
    decreases k,
{
    if k <= 0 {
        0
    } else {
        sum_squares(input, k - 1) + param(input, 2 * (k - 1)) * param(input, 2 * (k - 1))
    }
}

/// The row `row` of the attitude matrix applied to (x, y, z), with 8
/// fractional bits dropped (rounding down).
pub open spec fn rotate_row(m: Seq<i16>, row: int, x: int, y: int, z: int) -> int {
    (m[3 * row] * x + m[3 * row + 1] * y + m[3 * row + 2] * z) / 256
}

/// The results of a command computed on the chip, from its parameters and
/// the attitude matrix (row-major).
pub open spec fn chip_output(c: Dsp1Command, input: Seq<u8>, m: Seq<i16>) -> Seq<u8> {
    let p0 = param(input, 0);
    let p1 = param(input, 2);
    let p2 = param(input, 4);
    match c {
        Dsp1Command::Multiply => le32(p0 * p1),
        Dsp1Command::Inverse => if p0 == 0 {
            le16(0x7FFF)
        } else {
            le16(trunc_div(0x1_0000, p0))
        },
        Dsp1Command::SquareRoot => le16(isqrt(uparam(input, 0))),
        Dsp1Command::Objective => le16(rotate_row(m, 0, p0, p1, p2)) + le16(
            rotate_row(m, 1, p0, p1, p2),
        ) + le16(rotate_row(m, 2, p0, p1, p2)),
        Dsp1Command::Radius | Dsp1Command::Range => le16(sat16(isqrt(sum_squares(input, 2)))),
        Dsp1Command::Distance => le16(sat16(isqrt(sum_squares(input, 3)))),
        Dsp1Command::Project => if p2 != 0 {
            le16(trunc_div(p0 * 256, p2)) + le16(trunc_div(p1 * 256, p2))
        } else {
            le16(0) + le16(0)
        },
        Dsp1Command::MemTest => le16(p0),
        _ => Seq::empty(),
    }
}

/// Whether a command can run on its parameters: the sums of squares fit
/// in 32 bits.
pub open spec fn command_defined(c: Dsp1Command, input: Seq<u8>) -> bool {
    match c {
        Dsp1Command::Radius | Dsp1Command::Range => squares_fit(input, 2),
        Dsp1Command::Distance | Dsp1Command::SubjectiveA | Dsp1Command::SubjectiveB => squares_fit(
            input,
            3,
        ),
        _ => true,
    }
}

// ---------------------------------------------------------------------------
// State
// ---------------------------------------------------------------------------

/// The DSP-1.
pub struct Dsp1 {
    current_command: Option<Dsp1Command>,
    input_buffer: Vec<u8>,
    output_buffer: Vec<u8>,
    buffer_position: usize,
    busy: bool,
    attitude_matrix: [i16; 9],
    parameters: [i16; 16],
    awaiting_host: bool,
}

/// The DSP-1 as the contracts see it. `matrix` is the attitude matrix row
/// by row; `awaiting_host` is set while a host-computed command waits for
/// its results.
pub struct Dsp1View {
    pub command: Option<Dsp1Command>,
    pub input: Seq<u8>,
    pub output: Seq<u8>,
    pub position: nat,
    pub busy: bool,
    pub matrix: Seq<i16>,
    pub parameters: Seq<i16>,
    pub awaiting_host: bool,
}

impl View for Dsp1 {
    type V = Dsp1View;

    closed spec fn view(&self) -> Dsp1View {
        Dsp1View {
            command: self.current_command,
            input: self.input_buffer@,
            output: self.output_buffer@,
            position: self.buffer_position as nat,
            busy: self.busy,
            matrix: self.attitude_matrix@,
            parameters: self.parameters@,
            awaiting_host: self.awaiting_host,
        }
    }
}

/// Attitude matrix entries stay within what cosines and sines scaled by
/// 256 give (|entry| <= 512).
pub open spec fn matrix_bounded(m: Seq<i16>) -> bool {
    m.len() == 9 && forall|i: int| 0 <= i < 9 ==> -512 <= #[trigger] m[i] <= 512
}

/// The shape of every DSP-1 state: the chip is busy exactly while a
/// command is selected (collecting parameters, or waiting for the host,
/// which only a host-computed command does).
pub open spec fn dsp1_wf(v: Dsp1View) -> bool {
    &&& matrix_bounded(v.matrix)
    &&& v.parameters.len() == 16
    &&& v.busy == (v.command is Some)
    &&& v.awaiting_host ==> (v.command matches Some(c) && host_computed(c) && v.input.len()
        >= input_len(c) && command_defined(c, v.input))
}

/// The DSP-1 at power-on: no command, buffers empty, ready.
pub open spec fn dsp1_init() -> Dsp1View {
    Dsp1View {
        command: None,
        input: Seq::empty(),
        output: Seq::empty(),
        position: 0,
        busy: false,
        matrix: Seq::new(9, |i: int| 0i16),
        parameters: Seq::new(16, |i: int| 0i16),
        awaiting_host: false,
    }
}

/// The DSP-1 after its command ran on the chip: results in place, read
/// position at the start, ready for the next command byte; the parameter
/// commands store their value.
pub open spec fn dsp1_executed(v: Dsp1View, c: Dsp1Command) -> Dsp1View {
    let p0 = param(v.input, 0) as i16;
    Dsp1View {
        command: None,
        output: chip_output(c, v.input, v.matrix),
        position: 0,
        busy: false,
        parameters: match c {
            Dsp1Command::ParameterA => v.parameters.update(0, p0),
            Dsp1Command::ParameterB => v.parameters.update(1, p0),
            Dsp1Command::ParameterC => v.parameters.update(2, p0),
            _ => v.parameters,
        },
        ..v
    }
}

/// The 16-bit address the DSP-1 decodes.
pub open spec fn dsp_addr(addr: u32) -> int {
    addr as int % 0x10000
}

/// Whether a write of `val` to `addr` can be carried out: a write that
/// completes a command's parameters needs the command to be defined on
/// them.
pub open spec fn dsp1_write_ok(v: Dsp1View, addr: u32, val: u8) -> bool {
    let a = dsp_addr(addr);
    (0x6000 <= a <= 0x6FFF && v.command is Some && v.input.len() + 1 >= input_len(v.command->0))
        ==> command_defined(v.command->0, v.input.push(val))
}

/// What a write of `val` to `addr` does. Without a command, a data write
/// selects one (unknown bytes are ignored), clears the buffers and makes the
/// chip busy; with one, it appends a parameter byte, and once all have come
/// the command runs and the chip is ready for the next command byte. A
/// host-computed command waits for the host instead, which completes it.
pub open spec fn dsp1_write(v: Dsp1View, addr: u32, val: u8) -> Dsp1View {
    let a = dsp_addr(addr);
    if 0x6000 <= a <= 0x6FFF {
        match v.command {
            None => match command_of(val) {
                Some(c) => Dsp1View {
                    command: Some(c),
                    input: Seq::empty(),
                    output: Seq::empty(),
                    position: 0,
                    busy: true,
                    ..v
                },
                None => v,
            },
            Some(c) => {
                let v1 = Dsp1View { input: v.input.push(val), ..v };
                if v1.input.len() >= input_len(c) {
                    if host_computed(c) {
                        Dsp1View { output: Seq::empty(), awaiting_host: true, ..v1 }
                    } else {
                        dsp1_executed(v1, c)
                    }
                } else {
                    v1
                }
            },
        }
    } else {
        v
    }
}

/// What a read of `addr` gives and leaves: the next result byte (0 once
/// they are used up), or the status (bit 7 busy).
pub open spec fn dsp1_read(v: Dsp1View, addr: u32) -> (u8, Dsp1View) {
    let a = dsp_addr(addr);
    if 0x6000 <= a <= 0x6FFF {
        if v.position < v.output.len() {
            (v.output[v.position as int], Dsp1View { position: v.position + 1, ..v })
        } else {
            (0, v)
        }
    } else if 0x7000 <= a <= 0x7FFF {
        (if v.busy { 0x80 } else { 0 }, v)
    } else {
        (0, v)
    }
}


// ---------------------------------------------------------------------------
// Host-computed commands
// ---------------------------------------------------------------------------

/// The floating-point work a command leaves to the host, with the
/// parameters it needs: the three angles of ATTITUDE, the vector of
/// SUBJECTIVE with the distance the chip computed for it, the angle of
/// ROTATE.
#[derive(Debug, Clone, Copy, PartialEq, Eq, Structural)]
pub enum HostRequest {
    Attitude { pitch: i16, yaw: i16, roll: i16 },
    Subjective { x: i16, y: i16, z: i16, distance: i16 },
    Rotate { angle: i16 },
}

/// The host's answer to a request: the attitude matrix (row by row, times
/// 256), the horizontal and vertical angles, or the cosine and sine (times
/// 256).
#[derive(Debug, Clone, Copy)]
pub enum HostReply {
    Attitude { matrix: [i16; 9] },
    Subjective { angle_h: i16, angle_v: i16 },
    Rotate { cos: i16, sin: i16 },
}

/// The request a DSP-1 state waits on, if any.
pub open spec fn host_request(v: Dsp1View) -> Option<HostRequest> {
    let p0 = param(v.input, 0) as i16;
    let p1 = param(v.input, 2) as i16;
    let p2 = param(v.input, 4) as i16;
    if v.awaiting_host {
        match v.command {
            Some(Dsp1Command::Attitude) => Some(
                HostRequest::Attitude { pitch: p0, yaw: p1, roll: p2 },
            ),
            Some(Dsp1Command::SubjectiveA) | Some(Dsp1Command::SubjectiveB) => Some(
                HostRequest::Subjective {
                    x: p0,
                    y: p1,
                    z: p2,
                    distance: sat16(isqrt(sum_squares(v.input, 3))) as i16,
                },
            ),
            Some(Dsp1Command::Rotate) => Some(HostRequest::Rotate { angle: p0 }),
            _ => None,
        }
    } else {
        None
    }
}

/// Whether `reply` answers the request `v` waits on, within the bounds the
/// results keep (matrix entries and the cosine and sine at most 2 and 1
/// times 256 in size).
pub open spec fn reply_fits(v: Dsp1View, reply: HostReply) -> bool {
    match (host_request(v), reply) {
        (Some(HostRequest::Attitude { .. }), HostReply::Attitude { matrix }) => matrix_bounded(
            matrix@,
        ),
        (Some(HostRequest::Subjective { .. }), HostReply::Subjective { .. }) => true,
        (Some(HostRequest::Rotate { .. }), HostReply::Rotate { cos, sin }) => -256 <= cos <= 256
            && -256 <= sin <= 256,
        _ => false,
    }
}

/// The result bytes of a host-computed command, from its parameters and the
/// host's answer: the first two columns of each matrix row, the range
/// parameter and 0; the distance and the two angles; the value parameter
/// times the cosine and the sine, with 8 fractional bits dropped.
pub open spec fn host_output(input: Seq<u8>, reply: HostReply) -> Seq<u8> {
    match reply {
        HostReply::Attitude { matrix } => le16(matrix[0] as int) + le16(matrix[1] as int) + le16(
            matrix[3] as int,
        ) + le16(matrix[4] as int) + le16(matrix[6] as int) + le16(matrix[7] as int) + le16(
            param(input, 6),
        ) + le16(0),
        HostReply::Subjective { angle_h, angle_v } => le16(sat16(isqrt(sum_squares(input, 3))))
            + le16(angle_h as int) + le16(angle_v as int),
        HostReply::Rotate { cos, sin } => le16(cos * param(input, 2) / 256) + le16(
            sin * param(input, 2) / 256,
        ),
    }
}

/// The DSP-1 once the host has answered: the results in place (and the
/// attitude matrix stored), read position at the start, ready for the next
/// command byte.
pub open spec fn dsp1_completed(v: Dsp1View, reply: HostReply) -> Dsp1View {
    Dsp1View {
        matrix: match reply {
            HostReply::Attitude { matrix } => matrix@,
            _ => v.matrix,
        },
        output: host_output(v.input, reply),
        command: None,
        position: 0,
        busy: false,
        awaiting_host: false,
        ..v
    }
}

// ---------------------------------------------------------------------------
// Arithmetic on the chip
// ---------------------------------------------------------------------------

/// Every natural number has an integer square root.
proof fn lemma_isqrt_exists(n: int)
    requires
        n >= 0,
    ensures
        is_isqrt(n, isqrt(n)),
    decreases n,
{
    if n == 0 {
        assert(is_isqrt(0, 0));
    } else {
        lemma_isqrt_exists(n - 1);
        let q = isqrt(n - 1);
        if (q + 1) * (q + 1) <= n {
            assert(n < (q + 2) * (q + 2)) by (nonlinear_arith)
                requires
                    n - 1 < (q + 1) * (q + 1),
                    0 <= q,
            ;
            assert(is_isqrt(n, q + 1));
        } else {
            assert(is_isqrt(n, q));
        }
    }
}

proof fn lemma_isqrt_unique(n: int, r: int)
    requires
        is_isqrt(n, r),
    ensures
        isqrt(n) == r,
{
    let q = isqrt(n);
    assert(is_isqrt(n, q));
    if q < r {
        assert((q + 1) * (q + 1) <= r * r) by (nonlinear_arith)
            requires
                0 <= q,
                q + 1 <= r,
        ;
    } else if r < q {
        assert((r + 1) * (r + 1) <= q * q) by (nonlinear_arith)
            requires
                0 <= r,
                r + 1 <= q,
        ;
    }
}

/// The integer square root of `n` (see `isqrt`), by bisection.
pub fn isqrt_u32(n: u32) -> (r: u32)
    ensures
        r == isqrt(n as int),
        is_isqrt(n as int, r as int),
        r <= 0xFFFF,
{
    let mut lo: u64 = 0;
    let mut hi: u64 = 0x1_0000;
    assert(hi * hi > n) by (nonlinear_arith)
        requires
            hi == 0x1_0000,
            n <= 0xFFFF_FFFF,
    ;
    while hi - lo > 1
        invariant
            lo < hi <= 0x1_0000,
            lo * lo <= n,
            hi * hi > n,
        decreases hi - lo,
    {
        let mid = lo + (hi - lo) / 2;
        assert(mid * mid <= 0x1_0000_0000) by (nonlinear_arith)
            requires
                mid <= 0x1_0000,
        ;
        if mid * mid <= n as u64 {
            lo = mid;
        } else {
            hi = mid;
        }
    }
    assert(hi == lo + 1);
    assert(is_isqrt(n as int, lo as int));
    proof {
        lemma_isqrt_unique(n as int, lo as int);
    }
    lo as u32
}

/// `t / 256` rounded down, for the products the chip forms.
fn floor_div256(t: i32) -> (r: i32)
    requires
        -0x1000_0000 <= t < 0x1000_0000,
    ensures
        r == t / 256,
{
    ((t + 0x1000_0000) as u32 / 256) as i32 - 0x10_0000
}

/// The quotient rounded toward zero (see `trunc_div`).
fn trunc_div_exec(a: i32, b: i32) -> (q: i32)
    requires
        b != 0,
        -0x1000_0000 <= a <= 0x1000_0000,
        -0x1000_0000 <= b <= 0x1000_0000,
    ensures
        q == trunc_div(a as int, b as int),
{
    let ua: u32 = if a < 0 {
        (-a) as u32
    } else {
        a as u32
    };
    let ub: u32 = if b < 0 {
        (-b) as u32
    } else {
        b as u32
    };
    let q = (ua / ub) as i32;
    if (a < 0) == (b < 0) {
        q
    } else {
        -q
    }
}

proof fn lemma_le16_wrap(v: i32)
    ensures
        le16((v as i16) as int) == le16(v as int),
{
    assert(((v as i16) as int) as u16 == (v as int) as u16) by (bit_vector);
}

proof fn lemma_sum_squares_nonneg(input: Seq<u8>, k: int)
    ensures
        sum_squares(input, k) >= 0,
    decreases k,
{
    if k > 0 {
        lemma_sum_squares_nonneg(input, k - 1);
        let p = param(input, 2 * (k - 1));
        assert(p * p >= 0) by (nonlinear_arith);
    }
}

/// Whether the first `k` parameters of `input` followed by `val` have a sum
/// of squares that fits in 32 signed bits (see `squares_fit`).
fn squares_fit_after(input: &Vec<u8>, val: u8, k: usize) -> (b: bool)
    requires
        k <= 3,
        input@.len() + 1 >= 2 * k,
    ensures
        b == squares_fit(input@.push(val), k as int),
{
    let ghost s = input@.push(val);
    let mut sum: i64 = 0;
    let mut j: usize = 0;
    while j < k
        invariant
            j <= k,
            k <= 3,
            input@.len() + 1 >= 2 * k,
            s == input@.push(val),
            sum as int == sum_squares(s, j as int),
            0 <= sum <= 0x4000_0000 * j,
        decreases k - j,
    {
        let i: usize = 2 * j;
        let lo: u8 = input[i];
        let hi: u8 = if i + 1 < input.len() {
            input[i + 1]
        } else {
            val
        };
        assert(lo == s[i as int] && hi == s[i + 1]);
        let w: i64 = lo as i64 + hi as i64 * 256;
        let p: i64 = if w >= 0x8000 {
            w - 0x10000
        } else {
            w
        };
        assert(p as int == param(s, i as int));
        assert(0 <= p * p <= 0x4000_0000) by (nonlinear_arith)
            requires
                -32768 <= p <= 32767,
        ;
        sum = sum + p * p;
        j = j + 1;
    }
    sum <= 0x7FFF_FFFF
}

impl Dsp1 {
    /// The contracts' shape of this DSP-1 (see `dsp1_wf`).
    pub closed spec fn wf(&self) -> bool {
        dsp1_wf(self@)
    }

    /// A powered-up DSP-1 (see `dsp1_init`).
    pub fn new() -> (d: Self)
        ensures
            d@ == dsp1_init(),
            d.wf(),
    {
        let d = Dsp1 {
            current_command: None,
            input_buffer: Vec::new(),
            output_buffer: Vec::new(),
            buffer_position: 0,
            busy: false,
            attitude_matrix: [0i16; 9],
            parameters: [0i16; 16],
            awaiting_host: false,
        };
        assert(d@.matrix =~= dsp1_init().matrix);
        assert(d@.parameters =~= dsp1_init().parameters);
        d
    }

    /// The signed parameter at byte `offset` (see `param`).
    fn read_input_i16(&self, offset: usize) -> (v: i16)
        requires
            offset + 1 < self@.input.len(),
        ensures
            v as int == param(self@.input, offset as int),
    {
        assert(offset + 1 < self.input_buffer.len());
        let lo: u8 = self.input_buffer[offset];
        let hi: u8 = self.input_buffer[offset + 1];
        assert(lo <= 255 && hi <= 255);
        let w: u32 = lo as u32 + hi as u32 * 256;
        assert(((w as u16) as i16) as int == (if w >= 0x8000 { w - 0x10000 } else { w as int }))
            by (bit_vector)
            requires
                w < 0x10000,
        ;
        (w as u16) as i16
    }

    /// The unsigned parameter at byte `offset` (see `uparam`).
    fn read_input_u16(&self, offset: usize) -> (v: u16)
        requires
            offset + 1 < self@.input.len(),
        ensures
            v as int == uparam(self@.input, offset as int),
    {
        assert(offset + 1 < self.input_buffer.len());
        let lo: u8 = self.input_buffer[offset];
        let hi: u8 = self.input_buffer[offset + 1];
        assert(lo <= 255 && hi <= 255);
        (lo as u32 + hi as u32 * 256) as u16
    }

    /// Appends a 16-bit result (see `le16`).
    fn write_output_i16(&mut self, value: i16)
        ensures
            final(self)@ == (Dsp1View { output: old(self)@.output + le16(value as int), ..old(self)@ }),
    {
        let u = value as u16;
        self.output_buffer.push((u % 256) as u8);
        self.output_buffer.push((u / 256) as u8);
        assert(self@.output =~= old(self)@.output + le16(value as int));
    }

    /// Appends a 32-bit result (see `le32`).
    fn write_output_i32(&mut self, value: i32)
        ensures
            final(self)@ == (Dsp1View { output: old(self)@.output + le32(value as int), ..old(self)@ }),
    {
        let u = value as u32;
        self.output_buffer.push((u % 256) as u8);
        self.output_buffer.push(((u / 0x100) % 256) as u8);
        self.output_buffer.push(((u / 0x1_0000) % 256) as u8);
        self.output_buffer.push((u / 0x100_0000) as u8);
        assert(self@.output =~= old(self)@.output + le32(value as int));
    }

    /// The sum of squares of the first `k` parameters, in 32 bits.
    fn squares(&self, k: usize) -> (s: i32)
        requires
            2 <= k <= 3,
            2 * k <= self@.input.len(),
            squares_fit(self@.input, k as int),
        ensures
            s == sum_squares(self@.input, k as int),
            s >= 0,
    {
        proof {
            lemma_sum_squares_nonneg(self@.input, k as int);
        }
        let x = self.read_input_i16(0) as i32;
        let y = self.read_input_i16(2) as i32;
        assert(x * x <= 0x4000_0000 && y * y <= 0x4000_0000 && x * x >= 0 && y * y >= 0)
            by (nonlinear_arith)
            requires
                -32768 <= x <= 32767,
                -32768 <= y <= 32767,
        ;
        assert(sum_squares(self@.input, 2) == x * x + y * y) by {
            reveal_with_fuel(sum_squares, 3);
        }
        if k == 2 {
            x * x + y * y
        } else {
            let z = self.read_input_i16(4) as i32;
            assert(z * z >= 0) by (nonlinear_arith);
            assert(sum_squares(self@.input, 3) == x * x + y * y + z * z) by {
                reveal_with_fuel(sum_squares, 4);
            }
            x * x + y * y + z * z
        }
    }

    /// The distance a subjective command reports: the root of the sum of
    /// the squares of its three parameters, saturated to 16 bits.
    pub fn subjective_distance(&self) -> (d: i16)
        requires
            self@.input.len() >= 6,
            squares_fit(self@.input, 3),
        ensures
            d as int == sat16(isqrt(sum_squares(self@.input, 3))),
    {
        let s = self.squares(3);
        let r = isqrt_u32(s as u32);
        if r > 32767 {
            32767
        } else {
            r as i16
        }
    }

    /// Computes a chip command's results into the (empty) output buffer
    /// (see `chip_output`).
    #[verifier::spinoff_prover]
    fn run_chip_command(&mut self, c: Dsp1Command)
        requires
            old(self).wf(),
            old(self)@.output.len() == 0,
            old(self)@.input.len() >= input_len(c),
            command_defined(c, old(self)@.input),
            !host_computed(c),
        ensures
            final(self)@ == (Dsp1View {
                output: chip_output(c, old(self)@.input, old(self)@.matrix),
                ..old(self)@
            }),
    {
        let ghost v0 = self@;
        match c {
            Dsp1Command::Multiply => {
                let a = self.read_input_i16(0) as i32;
                let b = self.read_input_i16(2) as i32;
                assert(-0x4000_0000 <= a * b <= 0x4000_0000) by (nonlinear_arith)
                    requires
                        -32768 <= a <= 32767,
                        -32768 <= b <= 32767,
                ;
                self.write_output_i32(a * b);
            },
            Dsp1Command::Inverse => {
                let x = self.read_input_i16(0) as i32;
                if x == 0 {
                    self.write_output_i16(0x7FFF);
                } else {
                    let q = trunc_div_exec(0x1_0000, x);
                    proof {
                        lemma_le16_wrap(q);
                    }
                    self.write_output_i16(q as i16);
                }
            },
            Dsp1Command::SquareRoot => {
                let w = self.read_input_u16(0);
                let r = isqrt_u32(w as u32);
                assert(r <= 255) by {
                    assert(r * r <= 0xFFFF);
                    if r > 255 {
                        assert(r * r >= 256 * 256) by (nonlinear_arith)
                            requires
                                r >= 256,
                        ;
                    }
                }
                self.write_output_i16(r as i16);
            },
            Dsp1Command::Objective => {
                let x = self.read_input_i16(0) as i32;
                let y = self.read_input_i16(2) as i32;
                let z = self.read_input_i16(4) as i32;
                let r0 = self.row(0, x, y, z);
                let r1 = self.row(1, x, y, z);
                let r2 = self.row(2, x, y, z);
                proof {
                    lemma_le16_wrap(r0);
                    lemma_le16_wrap(r1);
                    lemma_le16_wrap(r2);
                }
                self.write_output_i16(r0 as i16);
                self.write_output_i16(r1 as i16);
                self.write_output_i16(r2 as i16);
            },
            Dsp1Command::Radius | Dsp1Command::Range | Dsp1Command::Distance => {
                let k: usize = if c == Dsp1Command::Distance {
                    3
                } else {
                    2
                };
                let s = self.squares(k);
                let r = isqrt_u32(s as u32);
                let d: i16 = if r > 32767 {
                    32767
                } else {
                    r as i16
                };
                self.write_output_i16(d);
            },
            Dsp1Command::Project => {
                let x = self.read_input_i16(0) as i32;
                let y = self.read_input_i16(2) as i32;
                let z = self.read_input_i16(4) as i32;
                if z != 0 {
                    let sx = trunc_div_exec(x * 256, z);
                    let sy = trunc_div_exec(y * 256, z);
                    proof {
                        lemma_le16_wrap(sx);
                        lemma_le16_wrap(sy);
                    }
                    self.write_output_i16(sx as i16);
                    self.write_output_i16(sy as i16);
                } else {
                    self.write_output_i16(0);
                    self.write_output_i16(0);
                }
            },
            Dsp1Command::MemTest => {
                let v = self.read_input_i16(0);
                self.write_output_i16(v);
            },
            _ => {},
        }
        assert(self@.output =~= chip_output(c, v0.input, v0.matrix));
    }

    /// Row `row` of the attitude matrix applied to (x, y, z) (see
    /// `rotate_row`).
    fn row(&self, row: usize, x: i32, y: i32, z: i32) -> (r: i32)
        requires
            self.wf(),
            row < 3,
            -32768 <= x <= 32767,
            -32768 <= y <= 32767,
            -32768 <= z <= 32767,
        ensures
            r == rotate_row(self@.matrix, row as int, x as int, y as int, z as int),
    {
        let a = self.attitude_matrix[3 * row] as i32;
        let b = self.attitude_matrix[3 * row + 1] as i32;
        let c = self.attitude_matrix[3 * row + 2] as i32;
        assert(-0x100_0000 <= a * x <= 0x100_0000 && -0x100_0000 <= b * y <= 0x100_0000
            && -0x100_0000 <= c * z <= 0x100_0000) by (nonlinear_arith)
            requires
                -512 <= a <= 512,
                -512 <= b <= 512,
                -512 <= c <= 512,
                -32768 <= x <= 32767,
                -32768 <= y <= 32767,
                -32768 <= z <= 32767,
        ;
        floor_div256(a * x + b * y + c * z)
    }

    /// Runs the selected command once its parameters have all come (see
    /// `dsp1_write`): on the chip, or by waiting for the host.
    fn execute_command(&mut self)
        requires
            old(self).wf(),
            old(self)@.command is Some,
            old(self)@.input.len() >= input_len(old(self)@.command->0),
            command_defined(old(self)@.command->0, old(self)@.input),
        ensures
            final(self)@ == if host_computed(old(self)@.command->0) {
                Dsp1View { output: Seq::empty(), awaiting_host: true, ..old(self)@ }
            } else {
                dsp1_executed(old(self)@, old(self)@.command->0)
            },
    {
        if let Some(c) = self.current_command {
            self.output_buffer.clear();
            let is_host = match c {
                Dsp1Command::Attitude | Dsp1Command::SubjectiveA | Dsp1Command::SubjectiveB
                | Dsp1Command::Rotate => true,
                _ => false,
            };
            if is_host {
                self.awaiting_host = true;
                return;
            }
            self.run_chip_command(c);
            let p0 = match c {
                Dsp1Command::ParameterA | Dsp1Command::ParameterB | Dsp1Command::ParameterC => {
                    self.read_input_i16(0)
                },
                _ => 0,
            };
            match c {
                Dsp1Command::ParameterA => self.parameters[0] = p0,
                Dsp1Command::ParameterB => self.parameters[1] = p0,
                Dsp1Command::ParameterC => self.parameters[2] = p0,
                _ => {},
            }
            self.buffer_position = 0;
            self.busy = false;
            self.current_command = None;
        }
    }

    /// Whether a write of `value` to `addr` is one the chip carries out (see
    /// `dsp1_write_ok`): one that completes the parameters of a command
    /// taking a sum of squares needs that sum to fit in 32 signed bits.
    pub fn write_allowed(&self, addr: u32, value: u8) -> (b: bool)
        requires
            self.wf(),
        ensures
            b == dsp1_write_ok(self@, addr, value),
    {
        let a = addr & 0xFFFF;
        proof {
            lemma_addr_masks(addr);
        }
        if !(0x6000 <= a && a <= 0x6FFF) {
            return true;
        }
        match self.current_command {
            None => true,
            Some(c) => {
                if self.input_buffer.len() < c.input_size() - 1 {
                    return true;
                }
                let k: usize = match c {
                    Dsp1Command::Radius | Dsp1Command::Range => 2,
                    Dsp1Command::Distance | Dsp1Command::SubjectiveA | Dsp1Command::SubjectiveB => 3,
                    _ => 0,
                };
                if k == 0 {
                    true
                } else {
                    squares_fit_after(&self.input_buffer, value, k)
                }
            },
        }
    }

    /// The request the chip waits on, if any (see `host_request`): the
    /// host answers it with `complete`.
    pub fn pending_request(&self) -> (r: Option<HostRequest>)
        requires
            self.wf(),
        ensures
            r == host_request(self@),
    {
        if !self.awaiting_host {
            return None;
        }
        match self.current_command {
            Some(Dsp1Command::Attitude) => Some(
                HostRequest::Attitude {
                    pitch: self.read_input_i16(0),
                    yaw: self.read_input_i16(2),
                    roll: self.read_input_i16(4),
                },
            ),
            Some(Dsp1Command::SubjectiveA) | Some(Dsp1Command::SubjectiveB) => Some(
                HostRequest::Subjective {
                    x: self.read_input_i16(0),
                    y: self.read_input_i16(2),
                    z: self.read_input_i16(4),
                    distance: self.subjective_distance(),
                },
            ),
            Some(Dsp1Command::Rotate) => Some(HostRequest::Rotate { angle: self.read_input_i16(0) }),
            _ => None,
        }
    }

    /// Completes the command the chip waits on with the host's answer (see
    /// `dsp1_completed`): afterwards the status reads ready and exactly the
    /// command's result bytes wait to be read.
    pub fn complete(&mut self, reply: HostReply)
        requires
            old(self).wf(),
            reply_fits(old(self)@, reply),
        ensures
            final(self).wf(),
            final(self)@ == dsp1_completed(old(self)@, reply),
            final(self)@.output.len() == output_len(old(self)@.command->0),
            forall|a: u32|
                0x7000 <= dsp_addr(a) <= 0x7FFF ==> #[trigger] dsp1_read(final(self)@, a).0 == 0,
    {
        match reply {
            HostReply::Attitude { matrix } => self.complete_attitude(matrix),
            HostReply::Subjective { angle_h, angle_v } => self.complete_subjective(angle_h, angle_v),
            HostReply::Rotate { cos, sin } => self.complete_rotate(cos, sin),
        }
    }

    /// Hands in the attitude matrix (row by row) the host computed for an
    /// ATTITUDE command; the results are the first two columns of each row,
    /// then the range parameter, then 0.
    pub fn complete_attitude(&mut self, matrix: [i16; 9])
        requires
            old(self)@.awaiting_host,
            old(self)@.command == Some(Dsp1Command::Attitude),
            old(self)@.input.len() >= 8,
            matrix_bounded(matrix@),
        ensures
            final(self)@ == (Dsp1View {
                matrix: matrix@,
                output: le16(matrix[0] as int) + le16(matrix[1] as int) + le16(matrix[3] as int)
                    + le16(matrix[4] as int) + le16(matrix[6] as int) + le16(matrix[7] as int) + le16(
                    param(old(self)@.input, 6),
                ) + le16(0),
                command: None,
                position: 0,
                busy: false,
                awaiting_host: false,
                ..old(self)@
            }),
    {
        self.attitude_matrix = matrix;
        self.output_buffer.clear();
        self.write_output_i16(matrix[0]);
        self.write_output_i16(matrix[1]);
        self.write_output_i16(matrix[3]);
        self.write_output_i16(matrix[4]);
        self.write_output_i16(matrix[6]);
        self.write_output_i16(matrix[7]);
        let range = self.read_input_i16(6);
        self.write_output_i16(range);
        self.write_output_i16(0);
        self.buffer_position = 0;
        self.busy = false;
        self.awaiting_host = false;
        self.current_command = None;
    }

    /// Hands in the horizontal and vertical angles the host computed for a
    /// SUBJECTIVE command; the results are the distance (see
    /// `subjective_distance`) and the two angles.
    pub fn complete_subjective(&mut self, angle_h: i16, angle_v: i16)
        requires
            old(self)@.awaiting_host,
            old(self)@.command == Some(Dsp1Command::SubjectiveA) || old(self)@.command == Some(
                Dsp1Command::SubjectiveB,
            ),
            old(self)@.input.len() >= 6,
            squares_fit(old(self)@.input, 3),
        ensures
            final(self)@ == (Dsp1View {
                output: le16(sat16(isqrt(sum_squares(old(self)@.input, 3)))) + le16(angle_h as int)
                    + le16(angle_v as int),
                command: None,
                position: 0,
                busy: false,
                awaiting_host: false,
                ..old(self)@
            }),
    {
        let d = self.subjective_distance();
        self.output_buffer.clear();
        self.write_output_i16(d);
        self.write_output_i16(angle_h);
        self.write_output_i16(angle_v);
        self.buffer_position = 0;
        self.busy = false;
        self.awaiting_host = false;
        self.current_command = None;
    }

    /// Hands in the cosine and sine (times 256) the host computed for a
    /// ROTATE command; the results are the value parameter times each,
    /// with 8 fractional bits dropped (rounding down).
    pub fn complete_rotate(&mut self, cos_a: i16, sin_a: i16)
        requires
            old(self)@.awaiting_host,
            old(self)@.command == Some(Dsp1Command::Rotate),
            old(self)@.input.len() >= 4,
            -256 <= cos_a <= 256,
            -256 <= sin_a <= 256,
        ensures
            final(self)@ == (Dsp1View {
                output: le16(cos_a * param(old(self)@.input, 2) / 256) + le16(
                    sin_a * param(old(self)@.input, 2) / 256,
                ),
                command: None,
                position: 0,
                busy: false,
                awaiting_host: false,
                ..old(self)@
            }),
    {
        let value = self.read_input_i16(2) as i32;
        let c = cos_a as i32;
        let s = sin_a as i32;
        assert(-0x80_0000 <= c * value <= 0x80_0000 && -0x80_0000 <= s * value <= 0x80_0000)
            by (nonlinear_arith)
            requires
                -256 <= c <= 256,
                -256 <= s <= 256,
                -32768 <= value <= 32767,
        ;
        let x = floor_div256(c * value);
        let y = floor_div256(s * value);
        proof {
            lemma_le16_wrap(x);
            lemma_le16_wrap(y);
        }
        self.output_buffer.clear();
        self.write_output_i16(x as i16);
        self.write_output_i16(y as i16);
        self.buffer_position = 0;
        self.busy = false;
        self.awaiting_host = false;
        self.current_command = None;
    }
}

impl CoProcessor for Dsp1 {
    open spec fn inv(&self) -> bool {
        self.wf()
    }

    open spec fn answers(&self, addr: u32) -> bool {
        0x6000 <= dsp_addr(addr) <= 0x7FFF
    }

    open spec fn read_spec(&self, addr: u32, value: u8, after: Self) -> bool {
        (value, after@) == dsp1_read(self@, addr)
    }

    open spec fn write_ok(&self, addr: u32, value: u8) -> bool {
        dsp1_write_ok(self@, addr, value)
    }

    open spec fn write_spec(&self, addr: u32, value: u8, after: Self) -> bool {
        after@ == dsp1_write(self@, addr, value)
    }

    open spec fn step_ok(&self, cycles: u32) -> bool {
        true
    }

    open spec fn step_spec(&self, cycles: u32, done: u32, after: Self) -> bool {
        done == 0 && after@ == self@
    }

    open spec fn reset_spec(&self, after: Self) -> bool {
        after@ == dsp1_init()
    }

    fn reset(&mut self) {
        self.current_command = None;
        self.input_buffer.clear();
        self.output_buffer.clear();
        self.buffer_position = 0;
        self.busy = false;
        let m = [0i16; 9];
        assert(m == vstd::array::spec_array_fill_for_copy_type::<i16, 9>(0i16));
        assert(m@ =~= dsp1_init().matrix);
        let p = [0i16; 16];
        assert(p == vstd::array::spec_array_fill_for_copy_type::<i16, 16>(0i16));
        assert(p@ =~= dsp1_init().parameters);
        self.attitude_matrix = m;
        self.parameters = p;
        self.awaiting_host = false;
        assert(self@.input =~= dsp1_init().input);
        assert(self@.output =~= dsp1_init().output);
    }

    fn read(&mut self, addr: u32) -> (value: u8) {
        let a = addr & 0xFFFF;
        proof {
            lemma_addr_masks(addr);
        }
        if 0x6000 <= a && a <= 0x6FFF {
            if self.buffer_position < self.output_buffer.len() {
                let value = self.output_buffer[self.buffer_position];
                self.buffer_position = self.buffer_position + 1;
                value
            } else {
                0
            }
        } else if 0x7000 <= a && a <= 0x7FFF {
            if self.busy {
                0x80
            } else {
                0
            }
        } else {
            0
        }
    }

    fn write(&mut self, addr: u32, value: u8) {
        let a = addr & 0xFFFF;
        proof {
            lemma_addr_masks(addr);
        }
        if 0x6000 <= a && a <= 0x6FFF {
            match self.current_command {
                None => {
                    if let Some(cmd) = Dsp1Command::from_byte(value) {
                        self.current_command = Some(cmd);
                        self.input_buffer.clear();
                        self.output_buffer.clear();
                        self.buffer_position = 0;
                        self.busy = true;
                    }
                },
                Some(cmd) => {
                    self.input_buffer.push(value);
                    if self.input_buffer.len() >= cmd.input_size() {
                        self.execute_command();
                    }
                },
            }
        }
    }

    fn step(&mut self, cycles: u32) -> (done: u32) {
        0
    }

    fn handles_address(&self, addr: u32) -> (b: bool) {
        let a = addr & 0xFFFF;
        proof {
            lemma_addr_masks(addr);
        }
        0x6000 <= a && a <= 0x7FFF
    }
}

impl Default for Dsp1 {
    fn default() -> (d: Self)
        ensures
            d@ == dsp1_init(),
    {
        Self::new()
    }
}

/// The status register reads busy ($80) exactly while a command is
/// selected: from its command byte until its last parameter byte for a
/// command the chip computes, or until the host completes it; reading the
/// status changes nothing.
pub proof fn law_dsp1_status(v: Dsp1View, addr: u32)
    requires
        dsp1_wf(v),
        0x7000 <= dsp_addr(addr) <= 0x7FFF,
    ensures
        dsp1_read(v, addr) == (if v.command is Some { 0x80u8 } else { 0u8 }, v),
{
}

/// A command finishes with its last parameter byte: the chip computes it
/// then and there, or, for one whose results need floating point, hands the
/// host a request; once the host has answered, the state is the same kind a
/// chip-computed command leaves. Either way the command is cleared, the
/// status reads ready, and exactly the command's result bytes wait to be
/// read from the start.
pub proof fn law_dsp1_command_finishes(
    v: Dsp1View,
    addr: u32,
    val: u8,
    reply: HostReply,
    status_addr: u32,
)
    requires
        dsp1_wf(v),
        v.command is Some,
        0x6000 <= dsp_addr(addr) <= 0x6FFF,
        v.input.len() + 1 >= input_len(v.command->0),
        dsp1_write_ok(v, addr, val),
        0x7000 <= dsp_addr(status_addr) <= 0x7FFF,
        host_computed(v.command->0) ==> reply_fits(dsp1_write(v, addr, val), reply),
    ensures
        ({
            let c = v.command->0;
            let w = dsp1_write(v, addr, val);
            let f = if host_computed(c) {
                dsp1_completed(w, reply)
            } else {
                w
            };
            &&& host_computed(c) <==> host_request(w) is Some
            &&& dsp1_wf(f)
            &&& f.command is None
            &&& f.position == 0
            &&& f.output.len() == output_len(c)
            &&& dsp1_read(f, status_addr).0 == 0
        }),
{
}

/// The command bytes $00-$0F select, in order, MULTIPLY, DISTANCE,
/// RADIUS, MEMTEST, INVERSE, ROTATE, ATTITUDE, PROJECT, OBJECTIVE,
/// PARAMETER B, SUBJECTIVE A, RANGE, SQUARE ROOT, PARAMETER C, SUBJECTIVE B
/// and PARAMETER A, each taking and giving the bytes listed; any other byte
/// selects nothing.
pub proof fn law_dsp1_command_table(b: u8)
    ensures
        command_of(0x00) == Some(Dsp1Command::Multiply) && input_len(Dsp1Command::Multiply) == 4 && output_len(Dsp1Command::Multiply) == 4,
        command_of(0x01) == Some(Dsp1Command::Distance) && input_len(Dsp1Command::Distance) == 6 && output_len(Dsp1Command::Distance) == 2,
        command_of(0x02) == Some(Dsp1Command::Radius) && input_len(Dsp1Command::Radius) == 4 && output_len(Dsp1Command::Radius) == 2,
        command_of(0x03) == Some(Dsp1Command::MemTest) && input_len(Dsp1Command::MemTest) == 2 && output_len(Dsp1Command::MemTest) == 2,
        command_of(0x04) == Some(Dsp1Command::Inverse) && input_len(Dsp1Command::Inverse) == 2 && output_len(Dsp1Command::Inverse) == 2,
        command_of(0x05) == Some(Dsp1Command::Rotate) && input_len(Dsp1Command::Rotate) == 4 && output_len(Dsp1Command::Rotate) == 4,
        command_of(0x06) == Some(Dsp1Command::Attitude) && input_len(Dsp1Command::Attitude) == 8 && output_len(Dsp1Command::Attitude) == 16,
        command_of(0x07) == Some(Dsp1Command::Project) && input_len(Dsp1Command::Project) == 6 && output_len(Dsp1Command::Project) == 4,
        command_of(0x08) == Some(Dsp1Command::Objective) && input_len(Dsp1Command::Objective) == 6 && output_len(Dsp1Command::Objective) == 6,
        command_of(0x09) == Some(Dsp1Command::ParameterB) && input_len(Dsp1Command::ParameterB) == 2 && output_len(Dsp1Command::ParameterB) == 0,
        command_of(0x0A) == Some(Dsp1Command::SubjectiveA) && input_len(Dsp1Command::SubjectiveA) == 6 && output_len(Dsp1Command::SubjectiveA) == 6,
        command_of(0x0B) == Some(Dsp1Command::Range) && input_len(Dsp1Command::Range) == 4 && output_len(Dsp1Command::Range) == 2,
        command_of(0x0C) == Some(Dsp1Command::SquareRoot) && input_len(Dsp1Command::SquareRoot) == 2 && output_len(Dsp1Command::SquareRoot) == 2,
        command_of(0x0D) == Some(Dsp1Command::ParameterC) && input_len(Dsp1Command::ParameterC) == 2 && output_len(Dsp1Command::ParameterC) == 0,
        command_of(0x0E) == Some(Dsp1Command::SubjectiveB) && input_len(Dsp1Command::SubjectiveB) == 6 && output_len(Dsp1Command::SubjectiveB) == 6,
        command_of(0x0F) == Some(Dsp1Command::ParameterA) && input_len(Dsp1Command::ParameterA) == 2 && output_len(Dsp1Command::ParameterA) == 0,
        b > 0x0F ==> command_of(b) is None,
{
}

/// MULTIPLY gives the 32-bit product of its two signed 16-bit parameters,
/// low byte first; RADIUS and RANGE the integer square root (rounded down,
/// at most 32767) of x * x + y * y, and DISTANCE of x * x + y * y + z * z.
pub proof fn law_dsp1_arithmetic(input: Seq<u8>, m: Seq<i16>)
    requires
        input.len() >= 6,
    ensures
        ({
            let x = param(input, 0);
            let y = param(input, 2);
            let z = param(input, 4);
            let p = (x * y) as u32 as int;
            let out = chip_output(Dsp1Command::Multiply, input, m);
            &&& out.len() == 4
            &&& out[0] as int == p % 256 && out[1] as int == (p / 0x100) % 256
            &&& out[2] as int == (p / 0x10000) % 256 && out[3] as int == p / 0x100_0000
        }),
        ({
            let x = param(input, 0);
            let y = param(input, 2);
            let z = param(input, 4);
            let r2 = chip_output(Dsp1Command::Radius, input, m);
            let r3 = chip_output(Dsp1Command::Distance, input, m);
            let d2 = r2[0] as int + 256 * r2[1] as int;
            let d3 = r3[0] as int + 256 * r3[1] as int;
            &&& chip_output(Dsp1Command::Range, input, m) == r2
            &&& r2.len() == 2 && r3.len() == 2
            &&& d2 <= 32767 && d3 <= 32767
            &&& d2 < 32767 ==> d2 * d2 <= x * x + y * y < (d2 + 1) * (d2 + 1)
            &&& d3 < 32767 ==> d3 * d3 <= x * x + y * y + z * z < (d3 + 1) * (d3 + 1)
        }),
{
    let x = param(input, 0);
    let y = param(input, 2);
    let z = param(input, 4);
    assert(sum_squares(input, 2) == x * x + y * y) by {
        reveal_with_fuel(sum_squares, 3);
    }
    assert(sum_squares(input, 3) == x * x + y * y + z * z) by {
        reveal_with_fuel(sum_squares, 4);
    }
    assert(x * x >= 0 && y * y >= 0 && z * z >= 0) by (nonlinear_arith);
    lemma_isqrt_exists(x * x + y * y);
    lemma_isqrt_exists(x * x + y * y + z * z);
}

} // verus!
