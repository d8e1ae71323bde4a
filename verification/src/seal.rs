//! Transcoding of a compressed proof, as the proving service hands it out,
//! into the eight 256-bit integers that the on-chain verifier reads by
//! position.

use vstd::prelude::*;
use crate::word::{be_bytes, be_value, lemma_be_bytes_of_be_value, push_word, word_limit, U256};

verus! {

/// The compressed proof as the proving service reports it: three groups of
/// big-endian byte strings. Nothing is known of its shape until it has been
/// transcoded.
#[derive(Clone, Debug, PartialEq, Eq)]
pub struct Groth16Seal {
    pub a: Vec<Vec<u8>>,
    pub b: Vec<Vec<Vec<u8>>>,
    pub c: Vec<Vec<u8>>,
}

/// The byte strings of a [`Groth16Seal`].
pub struct Groth16SealView {
    pub a: Seq<Seq<u8>>,
    pub b: Seq<Seq<Seq<u8>>>,
    pub c: Seq<Seq<u8>>,
}

impl View for Groth16Seal {
    type V = Groth16SealView;

    open spec fn view(&self) -> Groth16SealView {
        Groth16SealView {
            a: self.a@.map_values(|e: Vec<u8>| e@),
            b: self.b@.map_values(|row: Vec<Vec<u8>>| row@.map_values(|e: Vec<u8>| e@)),
            c: self.c@.map_values(|e: Vec<u8>| e@),
        }
    }
}

/// A part of the SNARK output whose length is checked: the arrays of the
/// seal, and the digest that comes with it.
#[derive(Clone, Copy, Debug, PartialEq, Eq)]
pub enum SealField {
    A,
    B,
    B0,
    B1,
    C,
    PostStateDigest,
}

/// One byte string of a seal of the right shape.
#[derive(Clone, Copy, Debug, PartialEq, Eq)]
pub enum SealElement {
    A0,
    A1,
    B00,
    B01,
    B10,
    B11,
    C0,
    C1,
}

/// A part of the SNARK output does not have the length that the verifier
/// expects.
#[derive(Clone, Copy, Debug, PartialEq, Eq)]
pub struct ShapeError {
    pub field: SealField,
    pub expected: usize,
    pub actual: usize,
}

/// Why a seal was not transcoded.
#[derive(Clone, Copy, Debug, PartialEq, Eq)]
pub enum SealError {
    /// An array has the wrong length.
    Shape(ShapeError),
    /// The shape is right, but a byte string denotes a number of more than
    /// 256 bits.
    TooLarge { element: SealElement },
}

/// A [`SealError`] with its lengths as numbers.
pub enum SealFault {
    Shape { field: SealField, expected: nat, actual: nat },
    TooLarge { element: SealElement },
}

impl View for SealError {
    type V = SealFault;

    open spec fn view(&self) -> SealFault {
        match *self {
            SealError::Shape(e) => SealFault::Shape {
                field: e.field,
                expected: e.expected as nat,
                actual: e.actual as nat,
            },
            SealError::TooLarge { element } => SealFault::TooLarge { element },
        }
    }
}

/// The transcoded seal: `a: uint256[2]`, `b: uint256[2][2]`, `c: uint256[2]`.
#[derive(Clone, Copy, Debug, PartialEq, Eq)]
pub struct Seal {
    pub a: [U256; 2],
    pub b: [[U256; 2]; 2],
    pub c: [U256; 2],
}

/// The integers of a [`Seal`].
pub struct SealView {
    pub a: Seq<nat>,
    pub b: Seq<Seq<nat>>,
    pub c: Seq<nat>,
}

impl View for Seal {
    type V = SealView;

    open spec fn view(&self) -> SealView {
        SealView {
            a: seq![self.a[0]@, self.a[1]@],
            b: seq![seq![self.b[0][0]@, self.b[0][1]@], seq![self.b[1][0]@, self.b[1][1]@]],
            c: seq![self.c[0]@, self.c[1]@],
        }
    }
}

/// The first array, in the order `a`, `b`, `b[0]`, `b[1]`, `c`, that does not
/// hold exactly two items, with its length.
pub open spec fn first_bad_array(seal: Groth16SealView) -> Option<(SealField, nat)> {
    if seal.a.len() != 2 {
        Some((SealField::A, seal.a.len()))
    } else if seal.b.len() != 2 {
        Some((SealField::B, seal.b.len()))
    } else if seal.b[0].len() != 2 {
        Some((SealField::B0, seal.b[0].len()))
    } else if seal.b[1].len() != 2 {
        Some((SealField::B1, seal.b[1].len()))
    } else if seal.c.len() != 2 {
        Some((SealField::C, seal.c.len()))
    } else {
        None
    }
}

/// The byte string at one position of a seal of the right shape.
pub open spec fn element_bytes(seal: Groth16SealView, element: SealElement) -> Seq<u8> {
    match element {
        SealElement::A0 => seal.a[0],
        SealElement::A1 => seal.a[1],
        SealElement::B00 => seal.b[0][0],
        SealElement::B01 => seal.b[0][1],
        SealElement::B10 => seal.b[1][0],
        SealElement::B11 => seal.b[1][1],
        SealElement::C0 => seal.c[0],
        SealElement::C1 => seal.c[1],
    }
}

/// Whether the byte string at a position denotes a number of at most 256 bits.
pub open spec fn element_fits(seal: Groth16SealView, element: SealElement) -> bool {
    be_value(element_bytes(seal, element)) < word_limit()
}

/// The first byte string, in the order in which the verifier reads them, that
/// denotes a number of more than 256 bits.
pub open spec fn first_large_element(seal: Groth16SealView) -> Option<SealElement> {
    if !element_fits(seal, SealElement::A0) {
        Some(SealElement::A0)
    } else if !element_fits(seal, SealElement::A1) {
        Some(SealElement::A1)
    } else if !element_fits(seal, SealElement::B00) {
        Some(SealElement::B00)
    } else if !element_fits(seal, SealElement::B01) {
        Some(SealElement::B01)
    } else if !element_fits(seal, SealElement::B10) {
        Some(SealElement::B10)
    } else if !element_fits(seal, SealElement::B11) {
        Some(SealElement::B11)
    } else if !element_fits(seal, SealElement::C0) {
        Some(SealElement::C0)
    } else if !element_fits(seal, SealElement::C1) {
        Some(SealElement::C1)
    } else {
        None
    }
}

/// What transcoding gives. The shape is judged first, array by array; then
/// every byte string is read as a big-endian number and keeps its place.
pub open spec fn transcode(seal: Groth16SealView) -> Result<SealView, SealFault> {
    match first_bad_array(seal) {
        Some((field, actual)) => Err(SealFault::Shape { field, expected: 2, actual }),
        None => match first_large_element(seal) {
            Some(element) => Err(SealFault::TooLarge { element }),
            None => Ok(
                SealView {
                    a: seq![be_value(seal.a[0]), be_value(seal.a[1])],
                    b: seq![
                        seq![be_value(seal.b[0][0]), be_value(seal.b[0][1])],
                        seq![be_value(seal.b[1][0]), be_value(seal.b[1][1])],
                    ],
                    c: seq![be_value(seal.c[0]), be_value(seal.c[1])],
                },
            ),
        },
    }
}

/// The ABI encoding of the tuple `(uint256[2], uint256[2][2], uint256[2])`:
/// the eight integers as 32-byte big-endian words, `a` first, then `b` row by
/// row, then `c`.
pub open spec fn seal_encoding(seal: SealView) -> Seq<u8> {
    be_bytes(seal.a[0], 32) + be_bytes(seal.a[1], 32) + be_bytes(seal.b[0][0], 32) + be_bytes(
        seal.b[0][1],
        32,
    ) + be_bytes(seal.b[1][0], 32) + be_bytes(seal.b[1][1], 32) + be_bytes(seal.c[0], 32)
        + be_bytes(seal.c[1], 32)
}

/// Reads one byte string of the seal.
fn read_element(bytes: &Vec<u8>, element: SealElement) -> (r: Result<U256, SealError>)
    ensures
        be_value(bytes@) < word_limit() ==> (r matches Ok(w) && w@ == be_value(bytes@)),
        be_value(bytes@) >= word_limit() ==> r == Err::<U256, SealError>(
            SealError::TooLarge { element },
        ),
{
    match U256::try_from_be_slice(bytes.as_slice()) {
        Some(w) => Ok(w),
        None => Err(SealError::TooLarge { element }),
    }
}

impl Seal {
    /// Transcodes a seal. Fails if an array has a length other than two, or
    /// if a byte string denotes more than 256 bits; otherwise every integer
    /// stands where its byte string stood.
    pub fn try_from(seal: Groth16Seal) -> (r: Result<Seal, SealError>)
        ensures
            r matches Ok(s) ==> transcode(seal@) == Ok::<SealView, SealFault>(s@),
            r matches Err(e) ==> transcode(seal@) == Err::<SealView, SealFault>(e@),
    {
        if seal.a.len() != 2 {
            return Err(
                SealError::Shape(
                    ShapeError { field: SealField::A, expected: 2, actual: seal.a.len() },
                ),
            );
        }
        if seal.b.len() != 2 {
            return Err(
                SealError::Shape(
                    ShapeError { field: SealField::B, expected: 2, actual: seal.b.len() },
                ),
            );
        }
        if seal.b[0].len() != 2 {
            return Err(
                SealError::Shape(
                    ShapeError { field: SealField::B0, expected: 2, actual: seal.b[0].len() },
                ),
            );
        }
        if seal.b[1].len() != 2 {
            return Err(
                SealError::Shape(
                    ShapeError { field: SealField::B1, expected: 2, actual: seal.b[1].len() },
                ),
            );
        }
        if seal.c.len() != 2 {
            return Err(
                SealError::Shape(
                    ShapeError { field: SealField::C, expected: 2, actual: seal.c.len() },
                ),
            );
        }
        assert(first_bad_array(seal@) is None);
        let a0 = match read_element(&seal.a[0], SealElement::A0) {
            Ok(w) => w,
            Err(e) => {
                return Err(e);
            },
        };
        let a1 = match read_element(&seal.a[1], SealElement::A1) {
            Ok(w) => w,
            Err(e) => {
                return Err(e);
            },
        };
        let b00 = match read_element(&seal.b[0][0], SealElement::B00) {
            Ok(w) => w,
            Err(e) => {
                return Err(e);
            },
        };
        let b01 = match read_element(&seal.b[0][1], SealElement::B01) {
            Ok(w) => w,
            Err(e) => {
                return Err(e);
            },
        };
        let b10 = match read_element(&seal.b[1][0], SealElement::B10) {
            Ok(w) => w,
            Err(e) => {
                return Err(e);
            },
        };
        let b11 = match read_element(&seal.b[1][1], SealElement::B11) {
            Ok(w) => w,
            Err(e) => {
                return Err(e);
            },
        };
        let c0 = match read_element(&seal.c[0], SealElement::C0) {
            Ok(w) => w,
            Err(e) => {
                return Err(e);
            },
        };
        let c1 = match read_element(&seal.c[1], SealElement::C1) {
            Ok(w) => w,
            Err(e) => {
                return Err(e);
            },
        };
        let out = Seal { a: [a0, a1], b: [[b00, b01], [b10, b11]], c: [c0, c1] };
        proof {
            assert(first_large_element(seal@) is None);
            assert(out@.a =~= transcode(seal@)->Ok_0.a);
            assert(out@.b[0] =~= transcode(seal@)->Ok_0.b[0]);
            assert(out@.b[1] =~= transcode(seal@)->Ok_0.b[1]);
            assert(out@.b =~= transcode(seal@)->Ok_0.b);
            assert(out@.c =~= transcode(seal@)->Ok_0.c);
        }
        Ok(out)
    }

    /// The ABI encoding of the transcoded seal, 256 bytes.
    pub fn to_abi_bytes(&self) -> (r: Vec<u8>)
        ensures
            r@ == seal_encoding(self@),
    {
        let mut out: Vec<u8> = Vec::new();
        push_word(&mut out, &self.a[0]);
        push_word(&mut out, &self.a[1]);
        push_word(&mut out, &self.b[0][0]);
        push_word(&mut out, &self.b[0][1]);
        push_word(&mut out, &self.b[1][0]);
        push_word(&mut out, &self.b[1][1]);
        push_word(&mut out, &self.c[0]);
        push_word(&mut out, &self.c[1]);
        assert(out@ =~= seal_encoding(self@));
        out
    }

    /// Transcodes a seal and encodes it for the verifier in one step.
    pub fn abi_encode(seal: Groth16Seal) -> (r: Result<Vec<u8>, SealError>)
        ensures
            match transcode(seal@) {
                Ok(s) => r matches Ok(bytes) && bytes@ == seal_encoding(s),
                Err(f) => r matches Err(e) && e@ == f,
            },
    {
        match Seal::try_from(seal) {
            Ok(s) => Ok(s.to_abi_bytes()),
            Err(e) => Err(e),
        }
    }
}

/// Whether every array of the seal holds exactly two items.
pub open spec fn has_shape(seal: Groth16SealView) -> bool {
    &&& seal.a.len() == 2
    &&& seal.b.len() == 2
    &&& seal.b[0].len() == 2
    &&& seal.b[1].len() == 2
    &&& seal.c.len() == 2
}

/// Whether every byte string of a seal of the right shape denotes a number
/// of at most 256 bits.
pub open spec fn all_fit(seal: Groth16SealView) -> bool {
    &&& element_fits(seal, SealElement::A0)
    &&& element_fits(seal, SealElement::A1)
    &&& element_fits(seal, SealElement::B00)
    &&& element_fits(seal, SealElement::B01)
    &&& element_fits(seal, SealElement::B10)
    &&& element_fits(seal, SealElement::B11)
    &&& element_fits(seal, SealElement::C0)
    &&& element_fits(seal, SealElement::C1)
}

/// A seal of the right shape whose numbers fit is transcoded, and each
/// integer, written as a big-endian numeral of as many bytes as its byte
/// string has, is that byte string again.
pub proof fn lemma_transcode_round_trip(seal: Groth16SealView)
    requires
        has_shape(seal),
        all_fit(seal),
    ensures
        transcode(seal) matches Ok(t) && {
            &&& t.a.len() == 2 && t.b.len() == 2 && t.b[0].len() == 2 && t.b[1].len() == 2
                && t.c.len() == 2
            &&& be_bytes(t.a[0], seal.a[0].len()) == seal.a[0]
            &&& be_bytes(t.a[1], seal.a[1].len()) == seal.a[1]
            &&& be_bytes(t.b[0][0], seal.b[0][0].len()) == seal.b[0][0]
            &&& be_bytes(t.b[0][1], seal.b[0][1].len()) == seal.b[0][1]
            &&& be_bytes(t.b[1][0], seal.b[1][0].len()) == seal.b[1][0]
            &&& be_bytes(t.b[1][1], seal.b[1][1].len()) == seal.b[1][1]
            &&& be_bytes(t.c[0], seal.c[0].len()) == seal.c[0]
            &&& be_bytes(t.c[1], seal.c[1].len()) == seal.c[1]
        },
{
    lemma_be_bytes_of_be_value(seal.a[0]);
    lemma_be_bytes_of_be_value(seal.a[1]);
    lemma_be_bytes_of_be_value(seal.b[0][0]);
    lemma_be_bytes_of_be_value(seal.b[0][1]);
    lemma_be_bytes_of_be_value(seal.b[1][0]);
    lemma_be_bytes_of_be_value(seal.b[1][1]);
    lemma_be_bytes_of_be_value(seal.c[0]);
    lemma_be_bytes_of_be_value(seal.c[1]);
}

/// A seal with an array of another length than two is refused with a shape
/// error that names the first such array and its length; nothing of it is
/// transcoded.
pub proof fn lemma_bad_shape_is_refused(seal: Groth16SealView)
    requires
        !has_shape(seal),
    ensures
        first_bad_array(seal) matches Some((field, actual)) && actual != 2 && transcode(seal)
            == Err::<SealView, SealFault>(SealFault::Shape { field, expected: 2, actual }),
{
}

/// Transcoding succeeds exactly on the seals of the right shape whose
/// numbers fit.
pub proof fn lemma_transcode_succeeds_iff(seal: Groth16SealView)
    ensures
        transcode(seal) is Ok <==> has_shape(seal) && all_fit(seal),
{
}

} // verus!
