//! Vocabulary of the engine boundary: strings, requests and replies.
//!
//! The engine is a foreign library. Every one of its primitives takes plain
//! arguments, returns a status code and may write one value back. A
//! [`Request`] is one such call with the arguments it is to be made with; a
//! [`Reply`] is what came back from it.

use vstd::prelude::*;
use vstd::string::StringSliceAdditionalSpecFns;
use vstd::utf8::is_ascii_chars_encode_utf8;

use crate::error::{Count, Error};

verus! {

/// The bytes hold the terminator of the engine's strings somewhere.
pub open spec fn has_nul(bytes: Seq<u8>) -> bool {
    exists|i: int| 0 <= i < bytes.len() && bytes[i] == 0u8
}

/// A string as the engine reads it: the text, free of NUL bytes, followed by
/// one NUL.
#[derive(Debug, PartialEq, Eq)]
pub struct NativeString {
    bytes: Vec<u8>,
}

impl View for NativeString {
    type V = Seq<u8>;

    /// The text, without its terminator.
    closed spec fn view(&self) -> Seq<u8> {
        self.bytes@.drop_last()
    }
}

impl NativeString {
    #[verifier::type_invariant]
    spec fn terminated(&self) -> bool {
        &&& self.bytes@.len() >= 1
        &&& self.bytes@.last() == 0u8
        &&& !has_nul(self.bytes@.drop_last())
    }

    /// Encodes `text` for the engine. A text that holds a NUL byte has no
    /// such encoding.
    pub fn new(text: &str) -> (r: Result<NativeString, Error>)
        ensures
            has_nul(text.spec_bytes()) ==> r == Err::<NativeString, Error>(Error::Encoding),
            !has_nul(text.spec_bytes()) ==> r is Ok && r->Ok_0@ == text.spec_bytes(),
    {
        let source = text.as_bytes();
        let mut bytes: Vec<u8> = Vec::new();
        let mut i: usize = 0;
        while i < source.len()
            invariant
                source@ == text.spec_bytes(),
                i <= source@.len(),
                bytes@ == source@.take(i as int),
                !has_nul(bytes@),
            decreases source@.len() - i,
        {
            let b = source[i];
            if b == 0 {
                return Err(Error::Encoding);
            }
            bytes.push(b);
            i = i + 1;
            assert(bytes@ == source@.take(i as int));
        }
        assert(bytes@ == source@);
        bytes.push(0);
        assert(bytes@.drop_last() == source@);
        Ok(NativeString { bytes })
    }

    /// The encoded string, terminator included.
    pub fn as_bytes_with_nul(&self) -> (b: &Vec<u8>)
        ensures
            b@ == self@.push(0u8),
            !has_nul(self@),
    {
        proof {
            use_type_invariant(self);
            assert(self.bytes@ == self.bytes@.drop_last().push(0u8));
        }
        &self.bytes
    }
}

/// A per-row field of a dataset that can be set by name.
#[derive(Debug, Clone, Copy, PartialEq, Eq, Structural)]
pub enum Field {
    /// The target value of each row.
    Label,
    /// The weight of each row.
    Weight,
}

impl Field {
    /// The name under which the engine knows the field.
    pub open spec fn spec_name(self) -> Seq<char> {
        match self {
            Field::Label => "label"@,
            Field::Weight => "weight"@,
        }
    }

    /// The name under which the engine knows the field, encoded for it.
    pub fn name(self) -> (r: NativeString)
        ensures
            r@ == vstd::utf8::encode_utf8(self.spec_name()),
    {
        let text = match self {
            Field::Label => "label",
            Field::Weight => "weight",
        };
        proof {
            reveal_strlit("label");
            reveal_strlit("weight");
            assert(text@ == self.spec_name());
            is_ascii_chars_encode_utf8(text@);
            assert(!has_nul(text.spec_bytes()));
        }
        match NativeString::new(text) {
            Ok(name) => name,
            Err(_) => unreached(),
        }
    }
}

/// Element type of a buffer that is handed to the engine.
#[derive(Debug, Clone, Copy, PartialEq, Eq, Structural)]
pub enum ElementType {
    /// 32-bit floating point.
    Float32,
    /// 64-bit floating point.
    Float64,
}

/// One call into the engine, with the arguments that the library decides.
///
/// The buffers themselves stay with the host: a request says how they are to
/// be described to the engine.
#[derive(Debug, PartialEq, Eq)]
pub enum Request {
    /// Create a dataset from a dense matrix of `n_rows` rows and `n_cols`
    /// columns, with the parameter string of [`Request::parameters`].
    /// `reference` is the handle of a dataset to align with, if any.
    CreateFromMat {
        n_rows: i32,
        n_cols: i32,
        element: ElementType,
        row_major: bool,
        reference: Option<usize>,
    },
    /// Create a dataset from the file at `path`, with the parameter string of
    /// [`Request::parameters`]. `reference` is the handle of a dataset to
    /// align with, if any.
    CreateFromFile { path: NativeString, reference: Option<usize> },
    /// Attach `len` values of type `element` to the dataset `handle` as the
    /// field `field`.
    SetField { handle: usize, field: Field, len: i32, element: ElementType },
}

impl Request {
    /// The parameter string of the creation calls: it is empty.
    pub fn parameters() -> (r: NativeString)
        ensures
            r@ == Seq::<u8>::empty(),
    {
        proof {
            reveal_strlit("");
            assert(!has_nul("".spec_bytes()));
        }
        match NativeString::new("") {
            Ok(parameters) => parameters,
            Err(_) => unreached(),
        }
    }
}

/// What came back from one call into the engine.
///
/// `handle` and `count` are the places that a call may write to; one that a
/// call does not write to is not read.
#[derive(Debug, PartialEq, Eq)]
pub struct Reply {
    /// The status that the call returned: zero for success.
    pub code: i32,
    /// The engine's last error message, read when `code` is not zero.
    pub message: String,
    /// The handle that a creation call wrote.
    pub handle: usize,
    /// The number that a count query wrote.
    pub count: i32,
}

impl Reply {
    /// What the status of a call means: success, or a failure of the engine
    /// with its message.
    pub open spec fn outcome(self) -> Result<(), Error> {
        if self.code == 0 {
            Ok(())
        } else {
            Err(Error::Native(self.message))
        }
    }

    /// What a count query reported: the count as a size, unless the call
    /// failed or the count is below zero.
    pub open spec fn reported(self, which: Count) -> Result<usize, Error> {
        if self.code != 0 {
            Err(Error::Native(self.message))
        } else if self.count < 0 {
            Err(Error::Negative(which))
        } else {
            Ok(self.count as usize)
        }
    }

    /// Turns the status of a call into a result.
    pub fn check(self) -> (r: Result<(), Error>)
        ensures
            r == self.outcome(),
    {
        if self.code == 0 {
            Ok(())
        } else {
            Err(Error::Native(self.message))
        }
    }

    /// Reads the count that a query reported.
    pub fn into_count(self, which: Count) -> (r: Result<usize, Error>)
        ensures
            r == self.reported(which),
    {
        if self.code != 0 {
            Err(Error::Native(self.message))
        } else if self.count < 0 {
            Err(Error::Negative(which))
        } else {
            Ok(self.count as usize)
        }
    }
}

} // verus!
