//! Values and the timestamped, status-coded snapshots that carry them.

use vstd::prelude::*;
use vstd::string::*;
use crate::status::{StatusCode, GOOD};
use crate::text::{decimal, decimal_text, signed_decimal, signed_decimal_text};

verus! {

/// The payload of a data change. Scalars that the application reads are kept
/// as such; `Other` holds the text of anything else.
#[derive(Debug, PartialEq, Eq)]
pub enum Value {
    Empty,
    Boolean(bool),
    Signed(i64),
    Unsigned(u64),
    Text(String),
    Other(String),
}

/// What a [`Value`] stands for.
pub enum ValueView {
    Empty,
    Boolean(bool),
    Signed(i64),
    Unsigned(u64),
    Text(Seq<char>),
    Other(Seq<char>),
}

impl View for Value {
    type V = ValueView;

    open spec fn view(&self) -> ValueView {
        match self {
            Value::Empty => ValueView::Empty,
            Value::Boolean(b) => ValueView::Boolean(*b),
            Value::Signed(i) => ValueView::Signed(*i),
            Value::Unsigned(n) => ValueView::Unsigned(*n),
            Value::Text(s) => ValueView::Text(s@),
            Value::Other(s) => ValueView::Other(s@),
        }
    }
}

impl Clone for Value {
    fn clone(&self) -> (copy: Value)
        ensures
            copy == *self,
    {
        match self {
            Value::Empty => Value::Empty,
            Value::Boolean(b) => Value::Boolean(*b),
            Value::Signed(i) => Value::Signed(*i),
            Value::Unsigned(n) => Value::Unsigned(*n),
            Value::Text(s) => Value::Text(s.clone()),
            Value::Other(s) => Value::Other(s.clone()),
        }
    }
}

/// The text that a log line shows for a value.
pub open spec fn value_text(value: ValueView) -> Seq<char> {
    match value {
        ValueView::Empty => seq!['E', 'm', 'p', 't', 'y'],
        ValueView::Boolean(b) => if b {
            seq!['t', 'r', 'u', 'e']
        } else {
            seq!['f', 'a', 'l', 's', 'e']
        },
        ValueView::Signed(i) => signed_decimal(i as int),
        ValueView::Unsigned(n) => decimal(n as nat),
        ValueView::Text(s) => s,
        ValueView::Other(s) => s,
    }
}

impl Value {
    /// Writes the value as a log line shows it.
    pub fn text(&self) -> (s: String)
        ensures
            s@ == value_text(self@),
    {
        match self {
            Value::Empty => {
                proof {
                    reveal_strlit("Empty");
                }
                let s = String::from_str("Empty");
                assert(s@ =~= seq!['E', 'm', 'p', 't', 'y']);
                s
            },
            Value::Boolean(b) => {
                proof {
                    reveal_strlit("true");
                    reveal_strlit("false");
                }
                let s = if *b {
                    String::from_str("true")
                } else {
                    String::from_str("false")
                };
                assert(*b ==> s@ =~= seq!['t', 'r', 'u', 'e']);
                assert(!*b ==> s@ =~= seq!['f', 'a', 'l', 's', 'e']);
                s
            },
            Value::Signed(i) => signed_decimal_text(*i),
            Value::Unsigned(n) => decimal_text(*n),
            Value::Text(s) => s.clone(),
            Value::Other(s) => s.clone(),
        }
    }
}

/// A snapshot of a variable: its value, if there is one, the status that
/// came with it, and when the source and the server saw it.
///
/// A snapshot without a value must say why: it then holds a status.
#[derive(Debug, PartialEq, Eq)]
pub struct DataValue {
    pub value: Option<Value>,
    pub status: Option<StatusCode>,
    pub source_timestamp: Option<i64>,
    pub server_timestamp: Option<i64>,
}

/// What a [`DataValue`] stands for.
pub struct DataValueView {
    pub value: Option<ValueView>,
    pub status: Option<StatusCode>,
    pub source_timestamp: Option<i64>,
    pub server_timestamp: Option<i64>,
}

impl DataValueView {
    /// A value or, in its place, the status that explains why there is none.
    pub open spec fn wf(self) -> bool {
        self.value is Some || self.status is Some
    }

    /// The status that stands in for an absent value.
    pub open spec fn missing_status(self) -> Option<StatusCode> {
        if self.value is Some {
            None
        } else {
            self.status
        }
    }

    /// The status of a value that is present: good unless one was sent.
    pub open spec fn value_status(self) -> StatusCode {
        match self.status {
            Some(code) => code,
            None => StatusCode { bits: GOOD },
        }
    }
}

impl View for DataValue {
    type V = DataValueView;

    open spec fn view(&self) -> DataValueView {
        DataValueView {
            value: match self.value {
                Some(v) => Some(v@),
                None => None,
            },
            status: self.status,
            source_timestamp: self.source_timestamp,
            server_timestamp: self.server_timestamp,
        }
    }
}

impl DataValue {
    /// A value or, in its place, the status that explains why there is none.
    pub open spec fn wf(&self) -> bool {
        self@.wf()
    }

    /// A snapshot from the four fields as they came off the wire. There is
    /// none where both the value and the status are absent.
    pub fn from_parts(
        value: Option<Value>,
        status: Option<StatusCode>,
        source_timestamp: Option<i64>,
        server_timestamp: Option<i64>,
    ) -> (data: Option<DataValue>)
        ensures
            data is Some <==> (value is Some || status is Some),
            data matches Some(d) ==> d == (DataValue {
                value,
                status,
                source_timestamp,
                server_timestamp,
            }) && d.wf(),
    {
        if value.is_none() && status.is_none() {
            None
        } else {
            Some(DataValue { value, status, source_timestamp, server_timestamp })
        }
    }

    /// A snapshot that carries a value.
    pub fn present(
        value: Value,
        status: Option<StatusCode>,
        source_timestamp: Option<i64>,
        server_timestamp: Option<i64>,
    ) -> (data: DataValue)
        ensures
            data == (DataValue { value: Some(value), status, source_timestamp, server_timestamp }),
            data.wf(),
            data@.missing_status() is None,
    {
        DataValue { value: Some(value), status, source_timestamp, server_timestamp }
    }

    /// A snapshot without a value, and the status that explains why.
    pub fn missing(status: StatusCode) -> (data: DataValue)
        ensures
            data == (DataValue {
                value: None,
                status: Some(status),
                source_timestamp: None,
                server_timestamp: None,
            }),
            data.wf(),
            data@.missing_status() == Some(status),
    {
        DataValue {
            value: None,
            status: Some(status),
            source_timestamp: None,
            server_timestamp: None,
        }
    }

    /// Whether the snapshot holds a value or a status.
    pub fn is_well_formed(&self) -> (b: bool)
        ensures
            b == self.wf(),
    {
        self.value.is_some() || self.status.is_some()
    }

    /// Whether the snapshot holds a value.
    pub fn has_value(&self) -> (b: bool)
        ensures
            b == (self@.value is Some),
    {
        self.value.is_some()
    }

    /// The status that explains an absent value; none where the value is there.
    pub fn missing_status(&self) -> (status: Option<StatusCode>)
        ensures
            status == self@.missing_status(),
    {
        if self.value.is_some() {
            None
        } else {
            self.status
        }
    }
}

/// A well-formed snapshot holds a value or a status for its absence, and
/// never both.
pub proof fn lemma_value_or_missing_status(data: DataValueView)
    requires
        data.wf(),
    ensures
        (data.value is Some) != (data.missing_status() is Some),
{
}

} // verus!
