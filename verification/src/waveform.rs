//! The waveform parameter model: which function the generator runs and with
//! which levels and timing parameters.
//!
//! Signal levels are normalized values in the unit range; the model stores
//! them in thousandths (milli-units), so that every table default is exact and
//! the whole model is plain integer data.

use vstd::prelude::*;
use vstd::string::StrSliceExecFns;

verus! {

/// The closed set of waveform families the generator understands.
#[derive(Clone, Copy, Debug, PartialEq, Eq, Structural)]
pub enum WaveformFunction {
    Sine,
    Pulse,
    Gaussian,
    Sinc,
    Exponential,
}

/// Error raised by the model when an operation is rejected.
#[derive(Clone, Copy, Debug, PartialEq, Eq, Structural)]
pub enum WaveformError {
    /// The requested function tag is not one of the recognized ones.
    InvalidFunction,
}

/// Up to three function-specific timing parameters, in milli-units.
/// Slots that are meaningless for the current function hold `None`.
#[derive(Clone, Copy, Debug, PartialEq, Eq)]
pub struct ShapeParams {
    pub p0: Option<i64>,
    pub p1: Option<i64>,
    pub p2: Option<i64>,
}

impl ShapeParams {
    /// All three slots empty.
    pub open spec fn spec_empty() -> ShapeParams {
        ShapeParams { p0: None, p1: None, p2: None }
    }

    pub fn empty() -> (r: ShapeParams)
        ensures
            r == ShapeParams::spec_empty(),
    {
        ShapeParams { p0: None, p1: None, p2: None }
    }
}

impl WaveformFunction {
    /// Default amplitude for this function, in milli-units.
    pub open spec fn spec_default_amplitude_milli(self) -> i64 {
        match self {
            WaveformFunction::Sine => 480,
            WaveformFunction::Pulse => 890,
            WaveformFunction::Gaussian => 550,
            WaveformFunction::Sinc => 500,
            WaveformFunction::Exponential => 500,
        }
    }

    /// Default offset for this function, in milli-units.
    pub open spec fn spec_default_offset_milli(self) -> i64 {
        match self {
            WaveformFunction::Sine => 500,
            WaveformFunction::Pulse => 0,
            WaveformFunction::Gaussian => 0,
            WaveformFunction::Sinc => 500,
            WaveformFunction::Exponential => 0,
        }
    }

    /// Canonical initial timing parameters for this function, in milli-units.
    pub open spec fn spec_default_params(self) -> ShapeParams {
        match self {
            WaveformFunction::Sine => ShapeParams { p0: None, p1: None, p2: None },
            WaveformFunction::Pulse => ShapeParams { p0: Some(50), p1: Some(450), p2: Some(50) },
            WaveformFunction::Gaussian => ShapeParams { p0: Some(95), p1: None, p2: None },
            WaveformFunction::Sinc => ShapeParams { p0: Some(29), p1: None, p2: None },
            WaveformFunction::Exponential => ShapeParams { p0: Some(80), p1: None, p2: None },
        }
    }

    pub fn default_amplitude_milli(self) -> (r: i64)
        ensures
            r == self.spec_default_amplitude_milli(),
    {
        match self {
            WaveformFunction::Sine => 480,
            WaveformFunction::Pulse => 890,
            WaveformFunction::Gaussian => 550,
            WaveformFunction::Sinc => 500,
            WaveformFunction::Exponential => 500,
        }
    }

    pub fn default_offset_milli(self) -> (r: i64)
        ensures
            r == self.spec_default_offset_milli(),
    {
        match self {
            WaveformFunction::Sine => 500,
            WaveformFunction::Pulse => 0,
            WaveformFunction::Gaussian => 0,
            WaveformFunction::Sinc => 500,
            WaveformFunction::Exponential => 0,
        }
    }

    pub fn default_params(self) -> (r: ShapeParams)
        ensures
            r == self.spec_default_params(),
    {
        match self {
            WaveformFunction::Sine => ShapeParams { p0: None, p1: None, p2: None },
            WaveformFunction::Pulse => ShapeParams { p0: Some(50), p1: Some(450), p2: Some(50) },
            WaveformFunction::Gaussian => ShapeParams { p0: Some(95), p1: None, p2: None },
            WaveformFunction::Sinc => ShapeParams { p0: Some(29), p1: None, p2: None },
            WaveformFunction::Exponential => ShapeParams { p0: Some(80), p1: None, p2: None },
        }
    }

    /// The textual tag of this function, as the operator and the wire name it.
    pub open spec fn spec_tag(self) -> Seq<char> {
        match self {
            WaveformFunction::Sine => "Sine"@,
            WaveformFunction::Pulse => "Pulse"@,
            WaveformFunction::Gaussian => "Gaussian"@,
            WaveformFunction::Sinc => "Sinc"@,
            WaveformFunction::Exponential => "Exponential"@,
        }
    }

    pub fn tag(self) -> (r: &'static str)
        ensures
            r@ == self.spec_tag(),
    {
        match self {
            WaveformFunction::Sine => "Sine",
            WaveformFunction::Pulse => "Pulse",
            WaveformFunction::Gaussian => "Gaussian",
            WaveformFunction::Sinc => "Sinc",
            WaveformFunction::Exponential => "Exponential",
        }
    }
}

/// Which function a tag names, if any.
pub open spec fn spec_parse_tag(name: Seq<char>) -> Option<WaveformFunction> {
    if name == "Sine"@ {
        Some(WaveformFunction::Sine)
    } else if name == "Pulse"@ {
        Some(WaveformFunction::Pulse)
    } else if name == "Gaussian"@ {
        Some(WaveformFunction::Gaussian)
    } else if name == "Sinc"@ {
        Some(WaveformFunction::Sinc)
    } else if name == "Exponential"@ {
        Some(WaveformFunction::Exponential)
    } else {
        None
    }
}

/// Character-for-character string comparison.
fn str_eq(a: &str, b: &str) -> (r: bool)
    ensures
        r == (a@ == b@),
{
    let alen = a.unicode_len();
    let blen = b.unicode_len();
    if alen != blen {
        return false;
    }
    let mut i: usize = 0;
    while i < alen
        invariant
            i <= alen,
            alen == a@.len(),
            alen == b@.len(),
            forall|j: int| 0 <= j < i ==> a@[j] == b@[j],
        decreases alen - i,
    {
        if a.get_char(i) != b.get_char(i) {
            return false;
        }
        i = i + 1;
    }
    proof {
        assert(a@ =~= b@);
    }
    true
}

/// Resolves a textual tag to the function it names, or reports
/// `InvalidFunction` for an unrecognized tag.
pub fn parse_function_tag(name: &str) -> (r: Result<WaveformFunction, WaveformError>)
    ensures
        match spec_parse_tag(name@) {
            Some(f) => r == Ok::<WaveformFunction, WaveformError>(f),
            None => r == Err::<WaveformFunction, WaveformError>(WaveformError::InvalidFunction),
        },
{
    if str_eq(name, "Sine") {
        Ok(WaveformFunction::Sine)
    } else if str_eq(name, "Pulse") {
        Ok(WaveformFunction::Pulse)
    } else if str_eq(name, "Gaussian") {
        Ok(WaveformFunction::Gaussian)
    } else if str_eq(name, "Sinc") {
        Ok(WaveformFunction::Sinc)
    } else if str_eq(name, "Exponential") {
        Ok(WaveformFunction::Exponential)
    } else {
        Err(WaveformError::InvalidFunction)
    }
}

/// The mutable description of one signal.
///
/// `function` is `None` until the operator picks a family for the first time.
/// `replicate` is the device-side repeat count; `-1` is the sentinel for
/// "single-shot / do not repeat", forced when switching to `Exponential`.
#[derive(Clone, Copy, Debug, PartialEq, Eq)]
pub struct Waveform {
    pub function: Option<WaveformFunction>,
    pub amplitude_milli: i64,
    pub offset_milli: i64,
    pub shape_params: ShapeParams,
    pub replicate: i64,
}

impl Waveform {
    /// The function-less state the model starts in.
    pub open spec fn spec_new() -> Waveform {
        Waveform {
            function: None,
            amplitude_milli: 0,
            offset_milli: 0,
            shape_params: ShapeParams::spec_empty(),
            replicate: 0,
        }
    }

    pub fn new() -> (r: Waveform)
        ensures
            r == Waveform::spec_new(),
    {
        Waveform {
            function: None,
            amplitude_milli: 0,
            offset_milli: 0,
            shape_params: ShapeParams { p0: None, p1: None, p2: None },
            replicate: 0,
        }
    }

    /// The state after a successful switch to function `f`: unchanged when `f`
    /// is already current, otherwise reset to `f`'s table defaults (and, for
    /// `Exponential`, to single-shot replication).
    pub open spec fn spec_set_function(self, f: WaveformFunction) -> Waveform {
        if self.function == Some(f) {
            self
        } else {
            Waveform {
                function: Some(f),
                amplitude_milli: f.spec_default_amplitude_milli(),
                offset_milli: f.spec_default_offset_milli(),
                shape_params: f.spec_default_params(),
                replicate: if f == WaveformFunction::Exponential {
                    -1i64
                } else {
                    self.replicate
                },
            }
        }
    }

    /// Switches the model to the function named by `tag`.
    ///
    /// On a recognized tag the model moves to `spec_set_function`'s state:
    /// a no-op when the tag names the current function, a reset to the
    /// function's table defaults otherwise. On an unrecognized tag the model
    /// is left untouched and `InvalidFunction` is reported.
    pub fn set_function(&mut self, tag: &str) -> (r: Result<(), WaveformError>)
        ensures
            match spec_parse_tag(tag@) {
                Some(f) => r == Ok::<(), WaveformError>(())
                    && *final(self) == old(self).spec_set_function(f),
                None => r == Err::<(), WaveformError>(WaveformError::InvalidFunction)
                    && *final(self) == *old(self),
            },
    {
        match parse_function_tag(tag) {
            Ok(f) => {
                self.apply_function(f);
                Ok(())
            },
            Err(e) => Err(e),
        }
    }

    /// Switches the model to function `f` directly (already parsed).
    pub fn apply_function(&mut self, f: WaveformFunction)
        ensures
            *final(self) == old(self).spec_set_function(f),
    {
        let same = match self.function {
            Some(g) => g == f,
            None => false,
        };
        if !same {
            self.function = Some(f);
            self.amplitude_milli = f.default_amplitude_milli();
            self.offset_milli = f.default_offset_milli();
            self.shape_params = f.default_params();
            if f == WaveformFunction::Exponential {
                self.replicate = -1;
            }
        }
    }

    /// Overwrites all three timing parameters.
    pub fn set_params(&mut self, values: ShapeParams)
        ensures
            *final(self) == (Waveform { shape_params: values, ..*old(self) }),
    {
        self.shape_params = values;
    }

    /// Sets the amplitude, in milli-units.
    pub fn set_amplitude_milli(&mut self, v: i64)
        ensures
            *final(self) == (Waveform { amplitude_milli: v, ..*old(self) }),
    {
        self.amplitude_milli = v;
    }

    /// Sets the offset, in milli-units.
    pub fn set_offset_milli(&mut self, v: i64)
        ensures
            *final(self) == (Waveform { offset_milli: v, ..*old(self) }),
    {
        self.offset_milli = v;
    }

    /// Sets the repeat count (`-1` meaning single-shot).
    pub fn set_replicate(&mut self, n: i64)
        ensures
            *final(self) == (Waveform { replicate: n, ..*old(self) }),
    {
        self.replicate = n;
    }
}

/// Law: switching to a function that is not the current one lands exactly on
/// that function's table defaults for amplitude, offset and timing parameters.
pub proof fn lemma_set_function_applies_defaults(w: Waveform, f: WaveformFunction)
    requires
        w.function != Some(f),
    ensures
        w.spec_set_function(f).function == Some(f),
        w.spec_set_function(f).amplitude_milli == f.spec_default_amplitude_milli(),
        w.spec_set_function(f).offset_milli == f.spec_default_offset_milli(),
        w.spec_set_function(f).shape_params == f.spec_default_params(),
{
}

/// Law: switching to the function that is already current changes nothing,
/// whatever amplitude, offset or parameters the operator has set since.
pub proof fn lemma_set_function_idempotent(w: Waveform, f: WaveformFunction)
    requires
        w.function == Some(f),
    ensures
        w.spec_set_function(f) == w,
{
}

/// Law: two consecutive switches to the same function are one switch; the
/// second never perturbs the state the first produced.
pub proof fn lemma_set_function_twice(w: Waveform, f: WaveformFunction)
    ensures
        w.spec_set_function(f).spec_set_function(f) == w.spec_set_function(f),
{
}

/// Law: switching to `Exponential` from any other function forces single-shot
/// replication and the canonical decay parameter.
pub proof fn lemma_exponential_forces_single_shot(w: Waveform)
    requires
        w.function != Some(WaveformFunction::Exponential),
    ensures
        w.spec_set_function(WaveformFunction::Exponential).replicate == -1,
        w.spec_set_function(WaveformFunction::Exponential).shape_params
            == (ShapeParams { p0: Some(80), p1: None, p2: None }),
{
}

} // verus!
