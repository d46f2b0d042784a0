//! The two enumerated control fields carried by the header, and their
//! octet codecs. Encoding is total; decoding rejects every octet value
//! outside the field's domain with a recoverable error.

use vstd::prelude::*;

verus! {

/// The task a frame carries.
#[derive(Debug, PartialEq, Eq, Structural, Clone, Copy)]
pub enum Form {
    Introduce,
    Promotion,
    Handshake,
    Heartbeat,
}

/// The protection applied to the frame payload.
#[derive(Debug, PartialEq, Eq, Structural, Clone, Copy)]
pub enum Mode {
    /// Signed and encrypted.
    Secure,
    /// Neither signed nor encrypted.
    Unsafe,
    /// Signed but not encrypted.
    Signed,
}

/// A decoder was handed an octet value outside its field's domain.
/// The offending value is carried for diagnostics at the layer above.
#[derive(Debug, PartialEq, Eq, Structural, Clone, Copy)]
pub enum DecodeError {
    InvalidForm(u8),
    InvalidMode(u8),
}

/// The octet value of a form: the four variants map to 0..=3 in
/// declaration order.
pub open spec fn form_code(f: Form) -> u8 {
    match f {
        Form::Introduce => 0,
        Form::Promotion => 1,
        Form::Handshake => 2,
        Form::Heartbeat => 3,
    }
}

/// The form a two-bit value decodes to.
pub open spec fn form_of_code(n: u8) -> Form
    recommends
        n <= 3,
{
    if n == 0 {
        Form::Introduce
    } else if n == 1 {
        Form::Promotion
    } else if n == 2 {
        Form::Handshake
    } else {
        Form::Heartbeat
    }
}

/// The octet value of a mode: the three variants map to 0..=2 in
/// declaration order.
pub open spec fn mode_code(m: Mode) -> u8 {
    match m {
        Mode::Secure => 0,
        Mode::Unsafe => 1,
        Mode::Signed => 2,
    }
}

/// The mode a value in 0..=2 decodes to.
pub open spec fn mode_of_code(n: u8) -> Mode
    recommends
        n <= 2,
{
    if n == 0 {
        Mode::Secure
    } else if n == 1 {
        Mode::Unsafe
    } else {
        Mode::Signed
    }
}

impl Form {
    /// Decode a form from an octet value. Defined only for 0..=3; any
    /// other value is rejected, never coerced.
    pub fn from_u8(n: u8) -> (r: Result<Form, DecodeError>)
        ensures
            n <= 3 ==> r == Ok::<Form, DecodeError>(form_of_code(n)),
            n > 3 ==> r == Err::<Form, DecodeError>(DecodeError::InvalidForm(n)),
    {
        match n {
            0 => Ok(Form::Introduce),
            1 => Ok(Form::Promotion),
            2 => Ok(Form::Handshake),
            3 => Ok(Form::Heartbeat),
            _ => Err(DecodeError::InvalidForm(n)),
        }
    }

    /// Encode this form as its octet value.
    pub fn into_u8(&self) -> (r: u8)
        ensures
            r == form_code(*self),
    {
        match self {
            Form::Introduce => 0,
            Form::Promotion => 1,
            Form::Handshake => 2,
            Form::Heartbeat => 3,
        }
    }
}

impl Mode {
    /// Decode a mode from an octet value. Defined only for 0..=2; any
    /// other value, including the in-band 3, is rejected.
    pub fn from_u8(n: u8) -> (r: Result<Mode, DecodeError>)
        ensures
            n <= 2 ==> r == Ok::<Mode, DecodeError>(mode_of_code(n)),
            n > 2 ==> r == Err::<Mode, DecodeError>(DecodeError::InvalidMode(n)),
    {
        match n {
            0 => Ok(Mode::Secure),
            1 => Ok(Mode::Unsafe),
            2 => Ok(Mode::Signed),
            _ => Err(DecodeError::InvalidMode(n)),
        }
    }

    /// Encode this mode as its octet value.
    pub fn into_u8(&self) -> (r: u8)
        ensures
            r == mode_code(*self),
    {
        match self {
            Mode::Secure => 0,
            Mode::Unsafe => 1,
            Mode::Signed => 2,
        }
    }
}

/// Codec round trip: decoding the code of any form yields that form back.
pub proof fn lemma_form_code_round_trip(f: Form)
    ensures
        form_of_code(form_code(f)) == f,
{
}

/// Codec round trip: encoding the form a two-bit value decodes to yields
/// that value back.
pub proof fn lemma_form_decode_encode(n: u8)
    requires
        n <= 3,
    ensures
        form_code(form_of_code(n)) == n,
{
}

/// Codec round trip: decoding the code of any mode yields that mode back.
pub proof fn lemma_mode_code_round_trip(m: Mode)
    ensures
        mode_of_code(mode_code(m)) == m,
{
}

/// Codec round trip: encoding the mode a value in 0..=2 decodes to yields
/// that value back.
pub proof fn lemma_mode_decode_encode(n: u8)
    requires
        n <= 2,
    ensures
        mode_code(mode_of_code(n)) == n,
{
}

} // verus!
