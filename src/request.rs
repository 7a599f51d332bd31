//! The envelope: a payload together with the declared name of its type.
//!
//! On the wire an envelope is a record named `Request` with two fields:
//! `type`, the structural name of the payload, and `data`, the payload's own
//! encoding. Decoding reads the record's entries one at a time, in any order,
//! and accepts the payload only when its structural name equals the tag.
use vstd::prelude::*;
use crate::probe::NotStruct;

verus! {

/// A request envelope around one payload value.
#[derive(Debug, Clone)]
pub struct Request<T>(pub T);

impl<T> Request<T> {
    /// Wraps `data` in an envelope.
    pub fn new(data: T) -> (r: Self)
        ensures
            r.0 == data,
    {
        Request(data)
    }
}

/// The name of the record that an envelope encodes as.
pub const RECORD_NAME: &'static str = "Request";

/// The key of the field that holds the tag.
pub const TYPE_FIELD: &'static str = "type";

/// The key of the field that holds the payload.
pub const DATA_FIELD: &'static str = "data";

/// Number of fields an envelope encodes.
pub const FIELD_COUNT: usize = 2;

/// The two fields of an envelope.
#[derive(Debug, Clone, Copy, PartialEq, Eq, Structural)]
pub enum RequestField {
    Type,
    Data,
}

/// The key under which a field is written.
pub open spec fn key_of(field: RequestField) -> &'static str {
    match field {
        RequestField::Type => TYPE_FIELD,
        RequestField::Data => DATA_FIELD,
    }
}

/// The field that a key names, if any; other keys are skipped.
pub open spec fn field_of_key(key: Seq<char>) -> Option<RequestField> {
    if key == TYPE_FIELD@ {
        Some(RequestField::Type)
    } else if key == DATA_FIELD@ {
        Some(RequestField::Data)
    } else {
        None
    }
}

impl RequestField {
    /// The key under which this field is written.
    pub fn key(&self) -> (r: &'static str)
        ensures
            r == key_of(*self),
    {
        match self {
            RequestField::Type => TYPE_FIELD,
            RequestField::Data => DATA_FIELD,
        }
    }
}

/// Whether two texts hold the same characters.
fn same_text(a: &str, b: &str) -> (r: bool)
    ensures
        r == (a@ == b@),
{
    let n = a.unicode_len();
    if n != b.unicode_len() {
        return false;
    }
    let mut i: usize = 0;
    while i < n
        invariant
            n == a@.len(),
            n == b@.len(),
            i <= n,
            a@.subrange(0, i as int) == b@.subrange(0, i as int),
        decreases n - i,
    {
        if a.get_char(i) != b.get_char(i) {
            return false;
        }
        assert(a@.subrange(0, i + 1) == a@.subrange(0, i as int).push(a@[i as int]));
        assert(b@.subrange(0, i + 1) == b@.subrange(0, i as int).push(b@[i as int]));
        i = i + 1;
    }
    assert(a@ == a@.subrange(0, n as int));
    assert(b@ == b@.subrange(0, n as int));
    true
}

/// Classifies a key of the wire record.
pub fn classify_key(key: &str) -> (r: Option<RequestField>)
    ensures
        r == field_of_key(key@),
{
    if same_text(key, TYPE_FIELD) {
        Some(RequestField::Type)
    } else if same_text(key, DATA_FIELD) {
        Some(RequestField::Data)
    } else {
        None
    }
}

/// One entry of the wire record, as the decoder has read it.
#[derive(Debug)]
pub enum WireEntry<T> {
    /// The `type` field, holding the tag.
    Type(String),
    /// The `data` field, decoded into a payload, with the payload's structural name.
    Data { value: T, name: Result<&'static str, NotStruct> },
    /// A field under any other key: read and discarded.
    Ignored,
}

/// Why an envelope failed to decode.
#[derive(Debug, Clone, PartialEq, Eq)]
pub enum DecodeError {
    /// The record lacks one of its two fields.
    MissingField(RequestField),
    /// The decoded payload does not encode as a named record.
    NotStruct,
    /// The tag differs from the payload's structural name.
    WrongType { expected: &'static str, got: String },
}

/// What the decoder has seen so far: the last tag and the last payload read.
#[derive(Debug)]
pub struct RequestFields<T> {
    pub given_type: Option<String>,
    pub data: Option<(T, Result<&'static str, NotStruct>)>,
}

impl<T> RequestFields<T> {
    /// The state before any entry is read.
    pub open spec fn empty() -> Self {
        RequestFields { given_type: None, data: None }
    }

    /// The state after reading one more entry: a later field replaces an earlier one.
    pub open spec fn step(self, entry: WireEntry<T>) -> Self {
        match entry {
            WireEntry::Type(tag) => RequestFields { given_type: Some(tag), ..self },
            WireEntry::Data { value, name } => RequestFields { data: Some((value, name)), ..self },
            WireEntry::Ignored => self,
        }
    }

    /// The result of decoding once every entry has been read.
    pub open spec fn outcome(self) -> Result<Request<T>, DecodeError> {
        match self.data {
            None => Err(DecodeError::MissingField(RequestField::Data)),
            Some((value, name)) => match self.given_type {
                None => Err(DecodeError::MissingField(RequestField::Type)),
                Some(given) => match name {
                    Err(_) => Err(DecodeError::NotStruct),
                    Ok(expected) => if expected@ == given@ {
                        Ok(Request(value))
                    } else {
                        Err(DecodeError::WrongType { expected, got: given })
                    },
                },
            },
        }
    }

    /// Starts decoding a record.
    pub fn new() -> (r: Self)
        ensures
            r == Self::empty(),
    {
        RequestFields { given_type: None, data: None }
    }

    /// Takes in one entry of the record.
    pub fn accept(&mut self, entry: WireEntry<T>)
        ensures
            *final(self) == old(self).step(entry),
    {
        match entry {
            WireEntry::Type(tag) => {
                self.given_type = Some(tag);
            },
            WireEntry::Data { value, name } => {
                self.data = Some((value, name));
            },
            WireEntry::Ignored => {},
        }
    }

    /// Ends the record: checks that both fields came and that the tag is the
    /// payload's structural name.
    pub fn finish(self) -> (r: Result<Request<T>, DecodeError>)
        ensures
            r == self.outcome(),
    {
        match self.data {
            None => Err(DecodeError::MissingField(RequestField::Data)),
            Some((value, name)) => match self.given_type {
                None => Err(DecodeError::MissingField(RequestField::Type)),
                Some(given) => match name {
                    Err(_) => Err(DecodeError::NotStruct),
                    Ok(expected) => {
                        if same_text(expected, given.as_str()) {
                            Ok(Request(value))
                        } else {
                            Err(DecodeError::WrongType { expected, got: given })
                        }
                    },
                },
            },
        }
    }
}

/// The entries that encoding writes for a payload: the tag, then the payload.
pub open spec fn encoded_entries<T>(tag: String, payload: T, name: Result<&'static str, NotStruct>) -> Seq<WireEntry<T>> {
    seq![WireEntry::Type(tag), WireEntry::Data { value: payload, name }]
}

/// The state reached from `start` by reading `entries` in order.
pub open spec fn apply_entries<T>(start: RequestFields<T>, entries: Seq<WireEntry<T>>) -> RequestFields<T>
    decreases entries.len(),
{
    if entries.len() == 0 {
        start
    } else {
        apply_entries(start, entries.drop_last()).step(entries.last())
    }
}

/// The result of decoding a record made of `entries`, in order.
pub open spec fn decode_entries<T>(entries: Seq<WireEntry<T>>) -> Result<Request<T>, DecodeError> {
    apply_entries(RequestFields::empty(), entries).outcome()
}

} // verus!
