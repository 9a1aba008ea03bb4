//! The dynamic record translator: from a destination table name and a raw
//! payload to a parameterized insert statement with bound values, or a typed
//! rejection.  The translator knows nothing of the table's schema beyond
//! what the payload itself declares.

use vstd::prelude::*;

use crate::payload::{parse_payload, parsed, FieldValue, FieldValueModel, ParsedPayload, PayloadModel};

verus! {

/// A per-message translation error: the message is dropped, the stream
/// continues.
#[derive(Debug, Clone, Copy, PartialEq, Eq, Structural)]
pub enum TranslateError {
    /// The payload bytes are not a well-formed document.
    MalformedPayload,
    /// The document's top level is not an object.
    UnsupportedShape,
    /// Some field holds a value of a kind the translator does not bind:
    /// null, an array, a nested object, or a number with no exact 64-bit
    /// signed integer representation.
    UnsupportedValueType,
    /// The destination table name contains the identifier-quoting delimiter
    /// and is rejected rather than escaped.
    InvalidTableName,
}

impl TranslateError {
    /// A short description of the error, for per-message logs.
    pub fn message(&self) -> (r: &'static str)
        ensures
            r@ == self.spec_message(),
    {
        match self {
            TranslateError::MalformedPayload => "payload is not a well-formed document",
            TranslateError::UnsupportedShape => "payload top level is not an object",
            TranslateError::UnsupportedValueType => "payload field value kind is unsupported",
            TranslateError::InvalidTableName => "table name contains the quoting delimiter",
        }
    }

    pub open spec fn spec_message(&self) -> Seq<char> {
        match self {
            TranslateError::MalformedPayload => "payload is not a well-formed document"@,
            TranslateError::UnsupportedShape => "payload top level is not an object"@,
            TranslateError::UnsupportedValueType => "payload field value kind is unsupported"@,
            TranslateError::InvalidTableName => "table name contains the quoting delimiter"@,
        }
    }
}

/// One value bound to a placeholder of an insert statement.
#[derive(Debug, Clone, PartialEq, Eq)]
pub enum BoundValue {
    Bool(bool),
    Int(i64),
    Text(String),
}

/// The mathematical shape of a [`BoundValue`].
pub ghost enum BoundValueModel {
    Bool(bool),
    Int(int),
    Text(Seq<char>),
}

impl View for BoundValue {
    type V = BoundValueModel;

    open spec fn view(&self) -> BoundValueModel {
        match self {
            BoundValue::Bool(b) => BoundValueModel::Bool(*b),
            BoundValue::Int(i) => BoundValueModel::Int(*i as int),
            BoundValue::Text(s) => BoundValueModel::Text(s@),
        }
    }
}

/// A parameterized insert: the destination table, the column list in payload
/// order, the values bound positionally to the placeholders, and the
/// rendered statement text.
#[derive(Debug, Clone, PartialEq, Eq)]
pub struct InsertStatement {
    pub table: String,
    pub columns: Vec<String>,
    pub values: Vec<BoundValue>,
    pub sql: String,
}

/// The mathematical shape of an [`InsertStatement`].
#[verifier::ext_equal]
pub ghost struct InsertModel {
    pub table: Seq<char>,
    pub columns: Seq<Seq<char>>,
    pub values: Seq<BoundValueModel>,
    pub sql: Seq<char>,
}

impl View for InsertStatement {
    type V = InsertModel;

    open spec fn view(&self) -> InsertModel {
        InsertModel {
            table: self.table@,
            columns: self.columns@.map_values(|c: String| c@),
            values: self.values@.map_values(|v: BoundValue| v@),
            sql: self.sql@,
        }
    }
}

/// Whether the translator binds a field value of this kind: coercion is
/// all-or-nothing per message, never partial.
pub open spec fn coercible(v: FieldValueModel) -> bool {
    !(v is Other)
}

/// Whether every field of the object holds a bindable value.
pub open spec fn all_coercible(fields: Seq<(Seq<char>, FieldValueModel)>) -> bool {
    forall|i: int| 0 <= i < fields.len() ==> coercible(fields[i].1)
}

/// The parameter a coercible field value becomes.
pub open spec fn coerced(v: FieldValueModel) -> BoundValueModel {
    match v {
        FieldValueModel::Bool(b) => BoundValueModel::Bool(b),
        FieldValueModel::Int(i) => BoundValueModel::Int(i),
        FieldValueModel::Text(s) => BoundValueModel::Text(s),
        FieldValueModel::Other => BoundValueModel::Bool(false),
    }
}

/// `parts` joined with `sep` between consecutive parts.
pub open spec fn joined(parts: Seq<Seq<char>>, sep: Seq<char>) -> Seq<char>
    decreases parts.len(),
{
    if parts.len() == 0 {
        Seq::empty()
    } else if parts.len() == 1 {
        parts.last()
    } else {
        joined(parts.drop_last(), sep) + sep + parts.last()
    }
}

/// `n` placeholders, comma-separated.
pub open spec fn qmarks(n: nat) -> Seq<char>
    decreases n,
{
    if n == 0 {
        Seq::empty()
    } else if n == 1 {
        "?"@
    } else {
        qmarks((n - 1) as nat) + ", "@ + "?"@
    }
}

/// The rendered statement text for a table and a column list.  The table
/// name stands between identifier quotes; names containing the quote
/// delimiter never reach this point, they are rejected.
pub open spec fn spec_sql(table: Seq<char>, cols: Seq<Seq<char>>) -> Seq<char> {
    "INSERT INTO `"@ + table + "` ("@ + joined(cols, ", "@) + ") VALUES ("@ + qmarks(cols.len())
        + ")"@
}

/// What the translator returns for a destination and a parsed payload:
/// rejections in the order the algorithm checks them (document shape, then
/// value kinds, then the table name), else the finished statement.
pub open spec fn spec_translate(table: Seq<char>, p: PayloadModel) -> Result<
    InsertModel,
    TranslateError,
> {
    match p {
        PayloadModel::Malformed => Err(TranslateError::MalformedPayload),
        PayloadModel::NotObject => Err(TranslateError::UnsupportedShape),
        PayloadModel::Object(fields) => {
            if !all_coercible(fields) {
                Err(TranslateError::UnsupportedValueType)
            } else if table.contains('`') {
                Err(TranslateError::InvalidTableName)
            } else {
                Ok(InsertModel {
                    table: table,
                    columns: fields.map_values(|f: (Seq<char>, FieldValueModel)| f.0),
                    values: fields.map_values(|f: (Seq<char>, FieldValueModel)| coerced(f.1)),
                    sql: spec_sql(
                        table,
                        fields.map_values(|f: (Seq<char>, FieldValueModel)| f.0),
                    ),
                })
            }
        },
    }
}

/// An insert statement or a translation error, as a mathematical value.
pub open spec fn translation_model(r: Result<InsertStatement, TranslateError>) -> Result<
    InsertModel,
    TranslateError,
> {
    match r {
        Ok(s) => Ok(s@),
        Err(e) => Err(e),
    }
}

/// Whether `s` contains the character `c`.
fn contains_char(s: &str, c: char) -> (r: bool)
    ensures
        r == s@.contains(c),
{
    let n = s.unicode_len();
    let mut i: usize = 0;
    while i < n
        invariant
            n == s@.len(),
            i <= n,
            forall|j: int| 0 <= j < i ==> s@[j] != c,
        decreases n - i,
    {
        if s.get_char(i) == c {
            return true;
        }
        i = i + 1;
    }
    false
}

proof fn lemma_joined_step(parts: Seq<Seq<char>>, sep: Seq<char>, i: int)
    requires
        0 <= i < parts.len(),
    ensures
        joined(parts.take(i + 1), sep) == if i == 0 {
            parts[0]
        } else {
            joined(parts.take(i), sep) + sep + parts[i]
        },
{
    let t = parts.take(i + 1);
    assert(t.len() == i + 1);
    if i == 0 {
        assert(t.last() == parts[0]);
    } else {
        assert(t.drop_last() =~~= parts.take(i));
        assert(t.last() == parts[i]);
    }
}

/// Renders the statement text for a table and a column list.
fn build_sql(table: &str, columns: &Vec<String>) -> (r: String)
    ensures
        r@ == spec_sql(table@, columns@.map_values(|c: String| c@)),
{
    let ghost cs = columns@.map_values(|c: String| c@);
    let mut s = String::new();
    s.append("INSERT INTO `");
    s.append(table);
    s.append("` (");
    assert(s@ =~= "INSERT INTO `"@ + table@ + "` ("@);
    let ghost head = s@;
    let mut i: usize = 0;
    while i < columns.len()
        invariant
            i <= columns.len(),
            cs == columns@.map_values(|c: String| c@),
            head == "INSERT INTO `"@ + table@ + "` ("@,
            s@ == head + joined(cs.take(i as int), ", "@),
        decreases columns.len() - i,
    {
        if i > 0 {
            s.append(", ");
        }
        s.append(columns[i].as_str());
        proof {
            lemma_joined_step(cs, ", "@, i as int);
            if i == 0 {
                assert(cs.take(0int) =~~= Seq::<Seq<char>>::empty());
                assert(s@ =~= head + joined(cs.take(i + 1), ", "@));
            } else {
                assert(s@ =~= head + joined(cs.take(i + 1), ", "@));
            }
        }
        i = i + 1;
    }
    assert(cs.take(columns.len() as int) =~~= cs);
    s.append(") VALUES (");
    let ghost mid = s@;
    assert(mid =~= head + joined(cs, ", "@) + ") VALUES ("@);
    let mut k: usize = 0;
    while k < columns.len()
        invariant
            k <= columns.len(),
            mid == head + joined(cs, ", "@) + ") VALUES ("@,
            s@ == mid + qmarks(k as nat),
        decreases columns.len() - k,
    {
        if k > 0 {
            s.append(", ");
        }
        s.append("?");
        proof {
            assert(s@ =~= mid + qmarks((k + 1) as nat));
        }
        k = k + 1;
    }
    s.append(")");
    proof {
        assert(cs.len() == columns.len());
        assert(s@ =~= spec_sql(table@, cs));
    }
    s
}

/// Translates one message: parses the payload, requires the top level to be
/// an object, coerces every field value or rejects the whole message, checks
/// the destination name, and builds the parameterized statement.  The result
/// is exactly what [`spec_translate`] says for the parsed payload.
pub fn translate(table: &str, payload: &[u8]) -> (r: Result<InsertStatement, TranslateError>)
    ensures
        translation_model(r) == spec_translate(table@, parsed(payload@)),
{
    let doc = parse_payload(payload);
    let fields = match doc {
        ParsedPayload::Malformed => {
            return Err(TranslateError::MalformedPayload);
        },
        ParsedPayload::NotObject => {
            return Err(TranslateError::UnsupportedShape);
        },
        ParsedPayload::Object(fields) => fields,
    };
    let ghost fm = fields@.map_values(|f: (String, FieldValue)| (f.0@, f.1@));
    assert(parsed(payload@) == PayloadModel::Object(fm));
    let mut columns: Vec<String> = Vec::new();
    let mut values: Vec<BoundValue> = Vec::new();
    let mut i: usize = 0;
    while i < fields.len()
        invariant
            i <= fields.len(),
            fm == fields@.map_values(|f: (String, FieldValue)| (f.0@, f.1@)),
            parsed(payload@) == PayloadModel::Object(fm),
            columns@.len() == i,
            values@.len() == i,
            forall|j: int| 0 <= j < i ==> coercible(fm[j].1),
            forall|j: int| 0 <= j < i ==> columns@[j]@ == fm[j].0,
            forall|j: int| 0 <= j < i ==> values@[j]@ == coerced(fm[j].1),
        decreases fields.len() - i,
    {
        columns.push(fields[i].0.clone());
        let bound = match &fields[i].1 {
            FieldValue::Bool(b) => BoundValue::Bool(*b),
            FieldValue::Int(n) => BoundValue::Int(*n),
            FieldValue::Text(t) => BoundValue::Text(t.clone()),
            FieldValue::Other => {
                proof {
                    assert(fm[i as int].1 == fields@[i as int].1@);
                    assert(!coercible(fm[i as int].1));
                    assert(!all_coercible(fm)) by {
                        if all_coercible(fm) {
                            assert(coercible(fm[i as int].1));
                            assert(false);
                        }
                    }
                }
                return Err(TranslateError::UnsupportedValueType);
            },
        };
        values.push(bound);
        i = i + 1;
    }
    proof {
        assert(all_coercible(fm)) by {
            assert(forall|j: int| 0 <= j < fm.len() ==> coercible(fm[j].1));
        }
    }
    if contains_char(table, '`') {
        return Err(TranslateError::InvalidTableName);
    }
    let sql = build_sql(table, &columns);
    let stmt = InsertStatement { table: table.to_owned(), columns, values, sql };
    proof {
        let cols_m = fm.map_values(|f: (Seq<char>, FieldValueModel)| f.0);
        let vals_m = fm.map_values(|f: (Seq<char>, FieldValueModel)| coerced(f.1));
        assert(stmt@.columns =~~= cols_m);
        assert(stmt@.values =~~= vals_m);
        assert(stmt@ =~~= spec_translate(table@, parsed(payload@))->Ok_0);
    }
    Ok(stmt)
}

} // verus!
