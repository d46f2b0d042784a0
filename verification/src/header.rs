//! In-place access to the two-octet frame header. Octet 0 is laid out
//! most-significant-bit first as `FFMMrrrr`: bits 7 and 6 carry the form,
//! bits 5 and 4 carry the mode, and the four low bits are reserved.
//! Octet 1 is entirely reserved. Every setter replaces only the bits its
//! field owns and leaves all reserved bits unchanged.

use vstd::prelude::*;

use crate::flags::DecodeError;
use crate::flags::Form;
use crate::flags::Mode;
use crate::flags::form_code;
use crate::flags::form_of_code;
use crate::flags::mode_code;
use crate::flags::mode_of_code;

verus! {

/// Octet 0 after the form field (bits 7 and 6) is replaced by the code of
/// `f`, all other bits kept.
pub open spec fn with_form(octet: u8, f: Form) -> u8 {
    (form_code(f) << 6) | (octet & 0x3f)
}

/// Octet 0 after the mode field (bits 5 and 4) is replaced by the code of
/// `m`, all other bits kept.
pub open spec fn with_mode(octet: u8, m: Mode) -> u8 {
    (mode_code(m) << 4) | (octet & 0xcf)
}

/// The two-bit form field extracted from octet 0.
pub open spec fn form_bits(octet: u8) -> u8 {
    (octet >> 6) & 0x03
}

/// The two-bit mode field extracted from octet 0.
pub open spec fn mode_bits(octet: u8) -> u8 {
    (octet >> 4) & 0x03
}

/// The header accessor: reads and writes the form and mode fields of a
/// two-octet buffer in place, preserving every bit neither field owns.
pub trait Header {
    /// The octets of the buffer, as contracts see them.
    spec fn octets(&self) -> Seq<u8>;

    /// Replace bits 7 and 6 of octet 0 with the code of `form`, leaving
    /// bits 5..0 of octet 0 and all of octet 1 unchanged.
    fn set_form(&mut self, form: Form)
        requires
            old(self).octets().len() == 2,
        ensures
            final(self).octets().len() == 2,
            final(self).octets()[0] == with_form(old(self).octets()[0], form),
            final(self).octets()[1] == old(self).octets()[1],
    ;

    /// Replace bits 5 and 4 of octet 0 with the code of `mode`, leaving
    /// every other bit unchanged.
    fn set_mode(&mut self, mode: Mode)
        requires
            old(self).octets().len() == 2,
        ensures
            final(self).octets().len() == 2,
            final(self).octets()[0] == with_mode(old(self).octets()[0], mode),
            final(self).octets()[1] == old(self).octets()[1],
    ;

    /// Decode the form from bits 7 and 6 of octet 0. Two bits always
    /// decode, so this cannot fail.
    fn get_form(&self) -> (r: Form)
        requires
            self.octets().len() == 2,
        ensures
            r == form_of_code(form_bits(self.octets()[0])),
    ;

    /// Decode the mode from bits 5 and 4 of octet 0. The two-bit value 3
    /// names no mode and is reported, never coerced to a variant.
    fn get_mode(&self) -> (r: Result<Mode, DecodeError>)
        requires
            self.octets().len() == 2,
        ensures
            mode_bits(self.octets()[0]) <= 2 ==> r == Ok::<Mode, DecodeError>(
                mode_of_code(mode_bits(self.octets()[0])),
            ),
            mode_bits(self.octets()[0]) > 2 ==> r == Err::<Mode, DecodeError>(
                DecodeError::InvalidMode(mode_bits(self.octets()[0])),
            ),
    ;
}

impl Header for [u8; 2] {
    open spec fn octets(&self) -> Seq<u8> {
        self@
    }

    fn set_form(&mut self, form: Form) {
        let code: u8 = form.into_u8();
        self[0] = (code << 6) | (self[0] & 0x3f);
    }

    fn set_mode(&mut self, mode: Mode) {
        let code: u8 = mode.into_u8();
        self[0] = (code << 4) | (self[0] & 0xcf);
    }

    fn get_form(&self) -> (r: Form) {
        let octet: u8 = self[0];
        let bits: u8 = (octet >> 6) & 0x03;
        assert((octet >> 6) & 0x03 <= 3) by (bit_vector);
        match Form::from_u8(bits) {
            Ok(f) => f,
            Err(_) => unreached(),
        }
    }

    fn get_mode(&self) -> (r: Result<Mode, DecodeError>) {
        let bits: u8 = (self[0] >> 4) & 0x03;
        Mode::from_u8(bits)
    }
}

/// Setter/getter round trip: reading the form field of an octet just
/// stamped with a form yields that form, whatever the octet held before.
pub proof fn lemma_set_get_form(octet: u8, f: Form)
    ensures
        form_bits(with_form(octet, f)) == form_code(f),
        form_of_code(form_bits(with_form(octet, f))) == f,
{
    let c: u8 = form_code(f);
    assert(c <= 3);
    assert((((c << 6) | (octet & 0x3f)) >> 6) & 0x03 == c) by (bit_vector)
        requires
            c <= 3,
    ;
    crate::flags::lemma_form_code_round_trip(f);
}

/// Setter/getter round trip: reading the mode field of an octet just
/// stamped with a mode yields that mode, whatever the octet held before.
pub proof fn lemma_set_get_mode(octet: u8, m: Mode)
    ensures
        mode_bits(with_mode(octet, m)) == mode_code(m),
        mode_of_code(mode_bits(with_mode(octet, m))) == m,
{
    let c: u8 = mode_code(m);
    assert(c <= 2);
    assert((((c << 4) | (octet & 0xcf)) >> 4) & 0x03 == c) by (bit_vector)
        requires
            c <= 2,
    ;
    crate::flags::lemma_mode_code_round_trip(m);
}

/// Reserved-bit preservation: stamping a form leaves bits 5..0 of the
/// octet unchanged. (Octet 1 is untouched by the setter's contract.)
pub proof fn lemma_set_form_preserves_reserved(octet: u8, f: Form)
    ensures
        with_form(octet, f) & 0x3f == octet & 0x3f,
{
    let c: u8 = form_code(f);
    assert(((c << 6) | (octet & 0x3f)) & 0x3f == octet & 0x3f) by (bit_vector);
}

/// Reserved-bit preservation: stamping a mode leaves bits 7, 6 and 3..0
/// of the octet unchanged. (Octet 1 is untouched by the setter's contract.)
pub proof fn lemma_set_mode_preserves_reserved(octet: u8, m: Mode)
    ensures
        with_mode(octet, m) & 0xcf == octet & 0xcf,
{
    let c: u8 = mode_code(m);
    assert(c <= 2);
    assert(((c << 4) | (octet & 0xcf)) & 0xcf == octet & 0xcf) by (bit_vector)
        requires
            c <= 2,
    ;
}

/// Field orthogonality: stamping the form and stamping the mode commute;
/// the two fields own disjoint bits.
pub proof fn lemma_form_mode_commute(octet: u8, f: Form, m: Mode)
    ensures
        with_form(with_mode(octet, m), f) == with_mode(with_form(octet, f), m),
{
    let cf: u8 = form_code(f);
    let cm: u8 = mode_code(m);
    assert(cf <= 3);
    assert(cm <= 2);
    assert((cf << 6) | (((cm << 4) | (octet & 0xcf)) & 0x3f) == (cm << 4) | (((cf << 6) | (octet
        & 0x3f)) & 0xcf)) by (bit_vector)
        requires
            cf <= 3,
            cm <= 2,
    ;
}

/// Idempotence: stamping the same form twice equals stamping it once.
pub proof fn lemma_set_form_idempotent(octet: u8, f: Form)
    ensures
        with_form(with_form(octet, f), f) == with_form(octet, f),
{
    let c: u8 = form_code(f);
    assert((c << 6) | (((c << 6) | (octet & 0x3f)) & 0x3f) == (c << 6) | (octet & 0x3f))
        by (bit_vector);
}

/// Idempotence: stamping the same mode twice equals stamping it once.
pub proof fn lemma_set_mode_idempotent(octet: u8, m: Mode)
    ensures
        with_mode(with_mode(octet, m), m) == with_mode(octet, m),
{
    let c: u8 = mode_code(m);
    assert(c <= 2);
    assert((c << 4) | (((c << 4) | (octet & 0xcf)) & 0xcf) == (c << 4) | (octet & 0xcf))
        by (bit_vector)
        requires
            c <= 2,
    ;
}

} // verus!
