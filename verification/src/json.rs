use vstd::prelude::*;

verus! {

// The status command prints a JSON document.  This module models that
// document exactly as far as the status schema inspects it: the top level
// must be an object, the field holding the deployment list must be an
// array, each entry of that array must be an object, and every field of
// such an entry is read as a scalar.  Anything deeper, and any number that
// is not an unsigned 64-bit integer, can never match the schema and is
// kept only as the fact that such a value stood there (`Other`).

/// One field value of a deployment record, as far as the schema reads it.
#[derive(Debug, PartialEq)]
pub enum Scalar {
    Null,
    Bool(bool),
    UInt(u64),
    Str(String),
    /// An array, an object, or a number that is not an unsigned 64-bit
    /// integer: never accepted by any field of the schema, so its
    /// contents are not kept.
    Other,
}

/// One entry of the deployment list: an object, or some other value.
#[derive(Debug, PartialEq)]
pub enum Record {
    Obj(Vec<(String, Scalar)>),
    NonObj,
}

/// The value of one top-level field of the document.
#[derive(Debug, PartialEq)]
pub enum TopValue {
    Arr(Vec<Record>),
    Other,
}

/// The whole document: a top-level object, or some other value.
#[derive(Debug, PartialEq)]
pub enum Doc {
    Obj(Vec<(String, TopValue)>),
    NonObj,
}

/// Mathematical model of a `Scalar`.
pub enum ScalarV {
    Null,
    Bool(bool),
    UInt(u64),
    Str(Seq<char>),
    Other,
}

/// Mathematical model of a `Record`.
pub enum RecordV {
    Obj(Seq<(Seq<char>, ScalarV)>),
    NonObj,
}

/// Mathematical model of a `TopValue`.
pub enum TopValueV {
    Arr(Seq<RecordV>),
    Other,
}

/// Mathematical model of a `Doc`.
pub enum DocV {
    Obj(Seq<(Seq<char>, TopValueV)>),
    NonObj,
}

impl View for Scalar {
    type V = ScalarV;

    open spec fn view(&self) -> ScalarV {
        match self {
            Scalar::Null => ScalarV::Null,
            Scalar::Bool(b) => ScalarV::Bool(*b),
            Scalar::UInt(u) => ScalarV::UInt(*u),
            Scalar::Str(s) => ScalarV::Str(s@),
            Scalar::Other => ScalarV::Other,
        }
    }
}

/// The models of a record's fields.
pub open spec fn scalar_fields_view(f: Seq<(String, Scalar)>) -> Seq<(Seq<char>, ScalarV)> {
    f.map_values(|p: (String, Scalar)| (p.0@, p.1@))
}

/// The models of a sequence of records.
pub open spec fn records_view(rs: Seq<Record>) -> Seq<RecordV> {
    rs.map_values(|r: Record| r@)
}

/// The models of the top-level fields.
pub open spec fn top_fields_view(f: Seq<(String, TopValue)>) -> Seq<(Seq<char>, TopValueV)> {
    f.map_values(|p: (String, TopValue)| (p.0@, p.1@))
}

impl View for Record {
    type V = RecordV;

    open spec fn view(&self) -> RecordV {
        match self {
            Record::Obj(f) => RecordV::Obj(scalar_fields_view(f@)),
            Record::NonObj => RecordV::NonObj,
        }
    }
}

impl View for TopValue {
    type V = TopValueV;

    open spec fn view(&self) -> TopValueV {
        match self {
            TopValue::Arr(rs) => TopValueV::Arr(records_view(rs@)),
            TopValue::Other => TopValueV::Other,
        }
    }
}

impl View for Doc {
    type V = DocV;

    open spec fn view(&self) -> DocV {
        match self {
            Doc::Obj(f) => DocV::Obj(top_fields_view(f@)),
            Doc::NonObj => DocV::NonObj,
        }
    }
}

#[verifier::external_type_specification]
#[verifier::external_body]
pub struct ExValue(serde_json::Value);

/// Conversion half of `parse_doc_bytes`; no contract of its own.
/// Relies on the variants of `serde_json::Value` and on
/// `serde_json::Number::as_u64`, which answers for unsigned 64-bit
/// integers alone.
#[verifier::external_body]
fn scalar_of_value(v: serde_json::Value) -> Scalar {
    match v {
        serde_json::Value::Null => Scalar::Null,
        serde_json::Value::Bool(b) => Scalar::Bool(b),
        serde_json::Value::Number(n) => match n.as_u64() {
            Some(u) => Scalar::UInt(u),
            None => Scalar::Other,
        },
        serde_json::Value::String(s) => Scalar::Str(s),
        _ => Scalar::Other,
    }
}

/// Conversion half of `parse_doc_bytes`; no contract of its own.
/// Relies on the variants of `serde_json::Value`.
#[verifier::external_body]
fn record_of_value(v: serde_json::Value) -> Record {
    match v {
        serde_json::Value::Object(m) => Record::Obj(
            m.into_iter().map(|(k, x)| (k, scalar_of_value(x))).collect(),
        ),
        _ => Record::NonObj,
    }
}

/// Conversion half of `parse_doc_bytes`; no contract of its own.
/// Relies on the variants of `serde_json::Value`.
#[verifier::external_body]
fn top_value_of_value(v: serde_json::Value) -> TopValue {
    match v {
        serde_json::Value::Array(a) => TopValue::Arr(
            a.into_iter().map(record_of_value).collect(),
        ),
        _ => TopValue::Other,
    }
}

/// Conversion half of `parse_doc_bytes`; no contract of its own.
/// Relies on the variants of `serde_json::Value`.
#[verifier::external_body]
fn doc_of_value(v: serde_json::Value) -> Doc {
    match v {
        serde_json::Value::Object(m) => Doc::Obj(
            m.into_iter().map(|(k, x)| (k, top_value_of_value(x))).collect(),
        ),
        _ => Doc::NonObj,
    }
}

/// What `serde_json` parses a given byte sequence to, cut to the shape the
/// status schema inspects: `None` where the bytes are not valid JSON.
pub uninterp spec fn parsed_doc(b: Seq<u8>) -> Option<DocV>;

/// Relies on `serde_json::from_slice::<serde_json::Value>`: parsing is a
/// pure function of the bytes — it either rejects them or yields a value
/// determined by them alone (object fields come out keyed and ordered by
/// the map it builds, still a function of the input).  The `Err` text is
/// `serde_json`'s own description and nothing is claimed of it.
#[verifier::external_body]
pub(crate) fn parse_doc_bytes(b: &[u8]) -> (r: Result<Doc, String>)
    ensures
        r is Ok <==> parsed_doc(b@) is Some,
        r matches Ok(d) ==> Some(d@) == parsed_doc(b@),
{
    match serde_json::from_slice::<serde_json::Value>(b) {
        Ok(v) => Ok(doc_of_value(v)),
        Err(e) => Err(e.to_string()),
    }
}

} // verus!
