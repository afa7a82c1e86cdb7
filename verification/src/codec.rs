//! Wire encoding of setup commands.
//!
//! A command travels as one UTF-8 JSON object with the fields `command`,
//! `freq`, `buf_size` and `wave`; the `wave` object mirrors the waveform
//! model. Levels stored in milli-units are written as plain decimal numbers
//! with three fractional digits, so the text carries exactly the model's
//! values.

use vstd::prelude::*;
use crate::waveform::{Waveform, WaveformFunction};

verus! {

/// The bytes of an all-ASCII character sequence, one byte per character.
pub open spec fn ascii_bytes(s: Seq<char>) -> Seq<u8> {
    s.map_values(|c: char| c as u8)
}

/// The decimal digits of `n`, most significant first, as ASCII bytes.
pub open spec fn spec_dec_digits(n: nat) -> Seq<u8>
    decreases n,
{
    if n < 10 {
        seq![(n + 48) as u8]
    } else {
        spec_dec_digits(n / 10).push(((n % 10) + 48) as u8)
    }
}

/// Absolute value.
pub open spec fn spec_abs(v: int) -> nat {
    if v < 0 {
        (-v) as nat
    } else {
        v as nat
    }
}

/// A signed integer in decimal, as ASCII bytes.
pub open spec fn spec_int_bytes(v: int) -> Seq<u8> {
    if v < 0 {
        seq![45u8] + spec_dec_digits(spec_abs(v))
    } else {
        spec_dec_digits(spec_abs(v))
    }
}

/// A milli-unit value as a plain decimal number with three fractional digits:
/// 480 becomes `0.480`, -1500 becomes `-1.500`.
pub open spec fn spec_milli_bytes(v: int) -> Seq<u8> {
    let a = spec_abs(v);
    let sign: Seq<u8> = if v < 0 {
        seq![45u8]
    } else {
        Seq::empty()
    };
    sign + spec_dec_digits(a / 1000) + seq![46u8] + seq![
        (((a % 1000) / 100) + 48) as u8,
        ((((a % 1000) / 10) % 10) + 48) as u8,
        ((a % 10) + 48) as u8,
    ]
}

/// An optional milli-unit value: a decimal number, or `null` for an empty slot.
pub open spec fn spec_opt_milli_bytes(v: Option<i64>) -> Seq<u8> {
    match v {
        Some(x) => spec_milli_bytes(x as int),
        None => ascii_bytes("null"@),
    }
}

/// The `function` field: the quoted tag, or `null` while no function is set.
pub open spec fn spec_function_bytes(f: Option<WaveformFunction>) -> Seq<u8> {
    match f {
        Some(g) => seq![34u8] + ascii_bytes(g.spec_tag()) + seq![34u8],
        None => ascii_bytes("null"@),
    }
}

/// The JSON object for the waveform model.
pub open spec fn spec_encode_wave(w: Waveform) -> Seq<u8> {
    ascii_bytes("{\"function\":"@) + spec_function_bytes(w.function) + ascii_bytes(
        ",\"amplitude\":"@,
    ) + spec_milli_bytes(w.amplitude_milli as int) + ascii_bytes(",\"offset\":"@)
        + spec_milli_bytes(w.offset_milli as int) + ascii_bytes(",\"shape_params\":["@)
        + spec_opt_milli_bytes(w.shape_params.p0) + seq![44u8] + spec_opt_milli_bytes(
        w.shape_params.p1,
    ) + seq![44u8] + spec_opt_milli_bytes(w.shape_params.p2) + ascii_bytes("],\"replicate\":"@)
        + spec_int_bytes(w.replicate as int) + seq![125u8]
}

/// A command tag that can stand inside a JSON string as it is: printable
/// ASCII without quote or backslash.
pub open spec fn tag_ok(s: Seq<char>) -> bool {
    forall|i: int|
        0 <= i < s.len() ==> (' ' <= #[trigger] s[i] <= '~' && s[i] != '"' && s[i] != '\\')
}

/// The wire entity sent to the device: a tagged setup request together with
/// the waveform to install.
#[derive(Clone, Debug, PartialEq, Eq)]
pub struct Command {
    /// Textual tag naming the request, `"setup"` for a setup command.
    pub command: String,
    /// Sample frequency in hertz.
    pub freq: u32,
    /// Device-side buffer size in bytes; a multiple of 4 between 32 and 65536.
    pub buf_size: u32,
    /// The waveform to install.
    pub wave: Waveform,
}

/// The JSON object for a whole command.
pub open spec fn spec_encode_command(c: Command) -> Seq<u8> {
    ascii_bytes("{\"command\":\""@) + ascii_bytes(c.command@) + ascii_bytes("\",\"freq\":"@)
        + spec_dec_digits(c.freq as nat) + ascii_bytes(",\"buf_size\":"@) + spec_dec_digits(
        c.buf_size as nat,
    ) + ascii_bytes(",\"wave\":"@) + spec_encode_wave(c.wave) + seq![125u8]
}

/// Whether `n` is a buffer size the device firmware understands: a multiple
/// of 4 between 32 and 65536.
pub fn valid_buf_size(n: u32) -> (b: bool)
    ensures
        b == (n % 4 == 0 && 32 <= n && n <= 65536),
{
    n % 4 == 0 && 32 <= n && n <= 65536
}

/// Builds a setup command, the one request the device firmware takes: its
/// tag is `"setup"` and it carries the frequency, buffer size and waveform
/// as given.
pub fn setup_command(freq: u32, buf_size: u32, wave: Waveform) -> (c: Command)
    ensures
        c.command@ == "setup"@,
        tag_ok(c.command@),
        c.freq == freq,
        c.buf_size == buf_size,
        c.wave == wave,
{
    proof {
        reveal_strlit("setup");
        assert("setup"@.len() == 5);
        assert(tag_ok("setup"@));
    }
    Command { command: "setup".to_owned(), freq: freq, buf_size: buf_size, wave: wave }
}

/// Appends the bytes of an ASCII string.
fn push_lit(out: &mut Vec<u8>, s: &str)
    requires
        s.is_ascii(),
    ensures
        final(out)@ == old(out)@ + ascii_bytes(s@),
{
    let b = s.as_bytes();
    proof {
        vstd::string::is_ascii_spec_bytes(s);
        assert(b@ =~= ascii_bytes(s@));
    }
    let mut i: usize = 0;
    while i < b.len()
        invariant
            i <= b@.len(),
            b@ == ascii_bytes(s@),
            out@ == old(out)@ + b@.take(i as int),
        decreases b@.len() - i,
    {
        out.push(b[i]);
        proof {
            assert(b@.take(i + 1) =~= b@.take(i as int).push(b@[i as int]));
        }
        i = i + 1;
    }
    proof {
        assert(b@.take(b@.len() as int) =~= b@);
    }
}

/// Appends the decimal digits of `n`.
fn push_dec_u64(out: &mut Vec<u8>, n: u64)
    ensures
        final(out)@ == old(out)@ + spec_dec_digits(n as nat),
    decreases n,
{
    if n < 10 {
        out.push((n as u8) + 48);
        proof {
            assert(out@ =~= old(out)@ + spec_dec_digits(n as nat));
        }
    } else {
        proof {
            assert(n / 10 < n) by (nonlinear_arith)
                requires
                    n >= 10,
            ;
        }
        push_dec_u64(out, n / 10);
        out.push(((n % 10) as u8) + 48);
        proof {
            assert((n as nat) / 10 == (n / 10) as nat);
            assert(out@ =~= old(out)@ + spec_dec_digits(n as nat));
        }
    }
}

/// The absolute value of `v`, exact for the whole `i64` range.
fn abs_u64(v: i64) -> (r: u64)
    ensures
        r == spec_abs(v as int),
{
    if v < 0 {
        ((-(v + 1)) as u64) + 1
    } else {
        v as u64
    }
}

/// Appends a signed integer in decimal.
fn push_int(out: &mut Vec<u8>, v: i64)
    ensures
        final(out)@ == old(out)@ + spec_int_bytes(v as int),
{
    if v < 0 {
        out.push(45);
    }
    let a = abs_u64(v);
    push_dec_u64(out, a);
    proof {
        if v < 0 {
            assert(out@ =~= old(out)@ + spec_int_bytes(v as int));
        }
    }
}

/// Appends a milli-unit value as a decimal with three fractional digits.
fn push_milli(out: &mut Vec<u8>, v: i64)
    ensures
        final(out)@ == old(out)@ + spec_milli_bytes(v as int),
{
    if v < 0 {
        out.push(45);
    }
    let a = abs_u64(v);
    push_dec_u64(out, a / 1000);
    out.push(46);
    let f = a % 1000;
    out.push(((f / 100) as u8) + 48);
    out.push((((f / 10) % 10) as u8) + 48);
    out.push(((f % 10) as u8) + 48);
    proof {
        let sa = spec_abs(v as int);
        assert((a / 1000) as nat == sa / 1000);
        assert(f as nat == sa % 1000);
        assert(((f % 10) as nat) == sa % 10) by {
            assert(a % 1000 % 10 == a % 10) by (nonlinear_arith);
        };
        assert(out@ =~= old(out)@ + spec_milli_bytes(v as int));
    }
}

/// Appends an optional milli-unit value, `null` for an empty slot.
fn push_opt_milli(out: &mut Vec<u8>, v: Option<i64>)
    ensures
        final(out)@ == old(out)@ + spec_opt_milli_bytes(v),
{
    match v {
        Some(x) => push_milli(out, x),
        None => {
            proof {
                reveal_strlit("null");
            }
            push_lit(out, "null");
        },
    }
}

/// Appends the `function` field value.
fn push_function(out: &mut Vec<u8>, f: Option<WaveformFunction>)
    ensures
        final(out)@ == old(out)@ + spec_function_bytes(f),
{
    match f {
        Some(g) => {
            out.push(34);
            match g {
                WaveformFunction::Sine => {
                    proof {
                        reveal_strlit("Sine");
                    }
                    push_lit(out, "Sine");
                },
                WaveformFunction::Pulse => {
                    proof {
                        reveal_strlit("Pulse");
                    }
                    push_lit(out, "Pulse");
                },
                WaveformFunction::Gaussian => {
                    proof {
                        reveal_strlit("Gaussian");
                    }
                    push_lit(out, "Gaussian");
                },
                WaveformFunction::Sinc => {
                    proof {
                        reveal_strlit("Sinc");
                    }
                    push_lit(out, "Sinc");
                },
                WaveformFunction::Exponential => {
                    proof {
                        reveal_strlit("Exponential");
                    }
                    push_lit(out, "Exponential");
                },
            }
            out.push(34);
            proof {
                assert(out@ =~= old(out)@ + spec_function_bytes(f));
            }
        },
        None => {
            proof {
                reveal_strlit("null");
            }
            push_lit(out, "null");
        },
    }
}

/// Appends the JSON object for the waveform model.
#[verifier::rlimit(60)]
fn push_wave(out: &mut Vec<u8>, w: &Waveform)
    ensures
        final(out)@ == old(out)@ + spec_encode_wave(*w),
{
    proof {
        reveal_strlit("{\"function\":");
        reveal_strlit(",\"amplitude\":");
        reveal_strlit(",\"offset\":");
        reveal_strlit(",\"shape_params\":[");
        reveal_strlit("],\"replicate\":");
    }
    push_lit(out, "{\"function\":");
    push_function(out, w.function);
    push_lit(out, ",\"amplitude\":");
    push_milli(out, w.amplitude_milli);
    push_lit(out, ",\"offset\":");
    push_milli(out, w.offset_milli);
    push_lit(out, ",\"shape_params\":[");
    push_opt_milli(out, w.shape_params.p0);
    out.push(44);
    push_opt_milli(out, w.shape_params.p1);
    out.push(44);
    push_opt_milli(out, w.shape_params.p2);
    push_lit(out, "],\"replicate\":");
    push_int(out, w.replicate);
    out.push(125);
    proof {
        assert(out@ =~= old(out)@ + spec_encode_wave(*w));
    }
}

/// Serializes a command to its wire text.
///
/// The result is exactly `spec_encode_command`: one JSON object whose fields
/// carry the command tag, the frequency, the buffer size and the waveform.
pub fn encode_command(c: &Command) -> (out: Vec<u8>)
    requires
        tag_ok(c.command@),
    ensures
        out@ == spec_encode_command(*c),
{
    proof {
        reveal_strlit("{\"command\":\"");
        reveal_strlit("\",\"freq\":");
        reveal_strlit(",\"buf_size\":");
        reveal_strlit(",\"wave\":");
    }
    let mut out: Vec<u8> = Vec::new();
    push_lit(&mut out, "{\"command\":\"");
    push_lit(&mut out, c.command.as_str());
    push_lit(&mut out, "\",\"freq\":");
    push_dec_u64(&mut out, c.freq as u64);
    push_lit(&mut out, ",\"buf_size\":");
    push_dec_u64(&mut out, c.buf_size as u64);
    push_lit(&mut out, ",\"wave\":");
    push_wave(&mut out, &c.wave);
    out.push(125);
    proof {
        assert(out@ =~= spec_encode_command(*c));
    }
    out
}

} // verus!
