//! The tagged value representation that crosses the plugin boundary.
//!
//! A `Value` carries a discriminant and one payload per representable kind;
//! the discriminant alone decides which payload is meaningful, and every
//! other payload holds its zero or absent sentinel. At the binary boundary a
//! text or blob payload is a pointer plus a length; here an absent pointer is
//! modeled as `None` and a present buffer as the bytes it addresses.

use vstd::prelude::*;
use vstd::slice::slice_to_vec;
use vstd::utf8::{decode_utf8, encode_utf8, valid_utf8};

verus! {

/// Discriminant of a boundary value. The tag alone decides which payload
/// field is meaningful; payload fields are never probed to infer the kind.
#[derive(Clone, Copy, Debug, PartialEq, Eq, Structural)]
pub enum ValueType {
    Null,
    Integer,
    Float,
    Text,
    Blob,
}

/// The bytes an optional buffer holds; `None` models a null pointer at the
/// binary boundary.
pub open spec fn opt_bytes(data: Option<Vec<u8>>) -> Option<Seq<u8>> {
    match data {
        Option::Some(v) => Option::Some(v@),
        Option::None => Option::None,
    }
}

/// Text payload: an optional byte buffer addressed by its length. The bytes
/// are not assumed null-terminated and not assumed to be valid UTF-8.
pub struct TextValue {
    data: Option<Vec<u8>>,
}

impl View for TextValue {
    type V = Option<Seq<u8>>;

    closed spec fn view(&self) -> Option<Seq<u8>> {
        opt_bytes(self.data)
    }
}

/// What displaying a text payload yields: an absent buffer is shown as an
/// explicit null marker, valid UTF-8 as exactly its characters, and any
/// other byte sequence as an explicit invalid-encoding marker — never
/// silently truncated or dropped.
pub open spec fn rendering(text: Option<Seq<u8>>) -> Seq<char> {
    match text {
        Option::None => "<null>"@,
        Option::Some(b) => if valid_utf8(b) {
            decode_utf8(b)
        } else {
            "<invalid UTF-8>"@
        },
    }
}

/// Relies on core::str::from_utf8: it succeeds exactly on valid UTF-8 input
/// and yields the characters those bytes encode.
#[verifier::external_body]
fn utf8_to_str<'a>(bytes: &'a [u8]) -> (r: Option<&'a str>)
    ensures
        r is Some <==> valid_utf8(bytes@),
        r is Some ==> r.unwrap()@ == decode_utf8(bytes@),
{
    core::str::from_utf8(bytes).ok()
}

impl TextValue {
    /// True when the payload carries no buffer at all (a null pointer at the
    /// boundary). Note an absent buffer is not the same as a null value: the
    /// value's tag is the only trustworthy null discriminant.
    pub fn is_null(&self) -> (r: bool)
        ensures
            r == (self@ is None),
    {
        self.data.is_none()
    }

    /// A text payload addressing the given bytes.
    pub fn new(text: Vec<u8>) -> (r: Self)
        ensures
            r@ == Option::Some(text@),
    {
        TextValue { data: Some(text) }
    }

    /// The absent payload: no buffer, length zero.
    pub fn null() -> (r: Self)
        ensures
            r@ is None,
    {
        TextValue { data: None }
    }

    /// Byte length of the payload; an absent buffer has length zero.
    pub fn len(&self) -> (r: usize)
        ensures
            match self@ {
                Option::Some(b) => r == b.len(),
                Option::None => r == 0,
            },
    {
        match &self.data {
            Some(v) => v.len(),
            None => 0,
        }
    }

    /// The payload's buffer, if any.
    pub fn bytes(&self) -> (r: &Option<Vec<u8>>)
        ensures
            opt_bytes(*r) == self@,
    {
        &self.data
    }

    /// Display the payload: its characters when the bytes are valid UTF-8,
    /// an explicit marker when they are not or when the buffer is absent.
    pub fn render(&self) -> (r: String)
        ensures
            r@ == rendering(self@),
    {
        match &self.data {
            None => "<null>".to_owned(),
            Some(v) => match utf8_to_str(v.as_slice()) {
                Some(s) => s.to_owned(),
                None => "<invalid UTF-8>".to_owned(),
            },
        }
    }
}

impl Clone for TextValue {
    /// The copy a receiver makes of a payload: the buffer's bytes as they
    /// stand.
    fn clone(&self) -> (r: Self)
        ensures
            r@ == self@,
    {
        TextValue { data: clone_opt_bytes(&self.data) }
    }
}

/// Blob payload: an optional byte buffer, with the same absent-buffer
/// convention as text.
pub struct Blob {
    pub data: Option<Vec<u8>>,
}

impl View for Blob {
    type V = Option<Seq<u8>>;

    open spec fn view(&self) -> Option<Seq<u8>> {
        opt_bytes(self.data)
    }
}

impl Blob {
    /// A blob payload addressing the given bytes.
    pub fn new(data: Vec<u8>) -> (r: Self)
        ensures
            r@ == Option::Some(data@),
    {
        Blob { data: Some(data) }
    }

    /// The absent payload: no buffer, size zero.
    pub fn null() -> (r: Self)
        ensures
            r@ is None,
    {
        Blob { data: None }
    }

    /// Byte size of the payload; an absent buffer has size zero.
    pub fn size(&self) -> (r: usize)
        ensures
            match self@ {
                Option::Some(b) => r == b.len(),
                Option::None => r == 0,
            },
    {
        match &self.data {
            Some(v) => v.len(),
            None => 0,
        }
    }
}

impl Clone for Blob {
    /// The copy a receiver makes of a payload: the buffer's bytes as they
    /// stand.
    fn clone(&self) -> (r: Self)
        ensures
            r@ == self@,
    {
        Blob { data: clone_opt_bytes(&self.data) }
    }
}

fn clone_opt_bytes(data: &Option<Vec<u8>>) -> (r: Option<Vec<u8>>)
    ensures
        opt_bytes(r) == opt_bytes(*data),
{
    match data {
        Some(v) => Some(slice_to_vec(v.as_slice())),
        None => None,
    }
}

/// Mathematical model of a boundary value: its tag and all four payloads.
pub ghost struct ValueModel {
    pub kind: ValueType,
    pub integer: i64,
    pub float_bits: u64,
    pub text: Option<Seq<u8>>,
    pub blob: Option<Seq<u8>>,
}

/// Model of the null value: every payload at its sentinel.
pub open spec fn null_model() -> ValueModel {
    ValueModel {
        kind: ValueType::Null,
        integer: 0,
        float_bits: 0,
        text: Option::None,
        blob: Option::None,
    }
}

/// Model of an integer value.
pub open spec fn integer_model(value: i64) -> ValueModel {
    ValueModel {
        kind: ValueType::Integer,
        integer: value,
        float_bits: 0,
        text: Option::None,
        blob: Option::None,
    }
}

/// Model of a float value, carried as its IEEE 754 bit pattern.
pub open spec fn float_model(bits: u64) -> ValueModel {
    ValueModel {
        kind: ValueType::Float,
        integer: 0,
        float_bits: bits,
        text: Option::None,
        blob: Option::None,
    }
}

/// Model of a text value holding the given bytes.
pub open spec fn text_model(bytes: Seq<u8>) -> ValueModel {
    ValueModel {
        kind: ValueType::Text,
        integer: 0,
        float_bits: 0,
        text: Option::Some(bytes),
        blob: Option::None,
    }
}

/// Model of a blob value holding the given bytes.
pub open spec fn blob_model(bytes: Seq<u8>) -> ValueModel {
    ValueModel {
        kind: ValueType::Blob,
        integer: 0,
        float_bits: 0,
        text: Option::None,
        blob: Option::Some(bytes),
    }
}

/// A boundary value: the tag plus every payload field, fully initialized.
/// The float payload is carried as its IEEE 754 bit pattern, so the layout
/// twin at the binary boundary can hold a 64-bit float in its place.
pub struct Value {
    pub value_type: ValueType,
    pub integer: i64,
    pub float_bits: u64,
    pub text: TextValue,
    pub blob: Blob,
}

impl View for Value {
    type V = ValueModel;

    open spec fn view(&self) -> ValueModel {
        ValueModel {
            kind: self.value_type,
            integer: self.integer,
            float_bits: self.float_bits,
            text: self.text@,
            blob: self.blob@,
        }
    }
}

impl Value {
    /// Only the payload selected by the tag may differ from its zero or
    /// absent sentinel.
    pub open spec fn wf(&self) -> bool {
        &&& self@.kind != ValueType::Integer ==> self@.integer == 0
        &&& self@.kind != ValueType::Float ==> self@.float_bits == 0
        &&& self@.kind != ValueType::Text ==> self@.text is None
        &&& self@.kind != ValueType::Blob ==> self@.blob is None
    }

    /// The null value: null tag, every payload at its sentinel.
    pub fn null() -> (r: Self)
        ensures
            r@ == null_model(),
            r.wf(),
    {
        Value {
            value_type: ValueType::Null,
            integer: 0,
            float_bits: 0,
            text: TextValue::null(),
            blob: Blob::null(),
        }
    }

    /// An integer value carrying exactly the given 64-bit integer.
    pub fn from_integer(value: i64) -> (r: Self)
        ensures
            r@ == integer_model(value),
            r.wf(),
    {
        Value {
            value_type: ValueType::Integer,
            integer: value,
            float_bits: 0,
            text: TextValue::null(),
            blob: Blob::null(),
        }
    }

    /// A float value carrying exactly the given IEEE 754 bit pattern.
    pub fn from_float(bits: u64) -> (r: Self)
        ensures
            r@ == float_model(bits),
            r.wf(),
    {
        Value {
            value_type: ValueType::Float,
            integer: 0,
            float_bits: bits,
            text: TextValue::null(),
            blob: Blob::null(),
        }
    }

    /// A text value holding the UTF-8 encoding of the given string, addressed
    /// by byte length; no terminator is appended and none is assumed.
    pub fn from_text(value: String) -> (r: Self)
        ensures
            r@ == text_model(encode_utf8(value@)),
            r.wf(),
    {
        let bytes: Vec<u8> = slice_to_vec(value.as_str().as_bytes());
        Value {
            value_type: ValueType::Text,
            integer: 0,
            float_bits: 0,
            text: TextValue::new(bytes),
            blob: Blob::null(),
        }
    }

    /// A blob value holding the given bytes.
    pub fn from_blob(value: Vec<u8>) -> (r: Self)
        ensures
            r@ == blob_model(value@),
            r.wf(),
    {
        Value {
            value_type: ValueType::Blob,
            integer: 0,
            float_bits: 0,
            text: TextValue::null(),
            blob: Blob::new(value),
        }
    }
}

impl Clone for Value {
    /// The byte-for-byte copy a receiver makes of a boundary value.
    fn clone(&self) -> (r: Self)
        ensures
            r@ == self@,
    {
        Value {
            value_type: self.value_type,
            integer: self.integer,
            float_bits: self.float_bits,
            text: self.text.clone(),
            blob: self.blob.clone(),
        }
    }
}

/// A text value built from a string displays back as exactly that string's
/// characters: for any text payload holding the UTF-8 encoding of `s`, the
/// rendering of that payload is `s`.
pub proof fn lemma_from_text_renders_identically(text: Option<Seq<u8>>, s: Seq<char>)
    requires
        text == Option::Some(encode_utf8(s)),
    ensures
        rendering(text) == s,
{
    vstd::utf8::encode_utf8_valid_utf8(s);
    vstd::utf8::encode_utf8_decode_utf8(s);
}

} // verus!
