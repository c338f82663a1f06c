//! The opcode table: a total map from byte value to an optional descriptor,
//! built once from a JSON description and read-only afterwards.
//!
//! The description is a JSON object whose keys are two hex digits (the opcode
//! byte) and whose values are records: `"ins"`, the instruction template, and
//! an optional `"rel"`, a boolean or number that marks relative addressing.

use vstd::prelude::*;

use crate::disassembler::opcode::{valid_template, OpCode, OpCodeView, count_placeholder, HIGH, LOW};

use serde_json::Value;
use std::collections::BTreeMap;

verus! {

/// The value of one field of a record, by its JSON kind.
pub enum FieldValue {
    Text(String),
    Flag(bool),
    /// A number, with its value where it is a non-negative integer that fits in `u64`.
    Number(Option<u64>),
    Null,
    /// An array or an object.
    Other,
}

pub enum FieldValueView {
    Text(Seq<char>),
    Flag(bool),
    Number(Option<u64>),
    Null,
    Other,
}

impl View for FieldValue {
    type V = FieldValueView;

    open spec fn view(&self) -> FieldValueView {
        match self {
            FieldValue::Text(s) => FieldValueView::Text(s@),
            FieldValue::Flag(b) => FieldValueView::Flag(*b),
            FieldValue::Number(n) => FieldValueView::Number(*n),
            FieldValue::Null => FieldValueView::Null,
            FieldValue::Other => FieldValueView::Other,
        }
    }
}

/// One named field of a record.
pub struct SourceField {
    pub name: String,
    pub value: FieldValue,
}

pub struct SourceFieldView {
    pub name: Seq<char>,
    pub value: FieldValueView,
}

impl View for SourceField {
    type V = SourceFieldView;

    open spec fn view(&self) -> SourceFieldView {
        SourceFieldView { name: self.name@, value: self.value@ }
    }
}

/// One member of the description: its key and the fields of its record.
pub struct SourceRecord {
    pub key: String,
    pub fields: Vec<SourceField>,
}

pub struct SourceRecordView {
    pub key: Seq<char>,
    pub fields: Seq<SourceFieldView>,
}

impl View for SourceRecord {
    type V = SourceRecordView;

    open spec fn view(&self) -> SourceRecordView {
        SourceRecordView { key: self.key@, fields: self.fields@.map_values(|f: SourceField| f@) }
    }
}

pub open spec fn records_view(v: Seq<SourceRecord>) -> Seq<SourceRecordView> {
    v.map_values(|r: SourceRecord| r@)
}

/// Why a description was refused. Each variant but `Malformed` names the key
/// of the offending record.
#[derive(Debug)]
pub enum TableError {
    /// The text is not a JSON object whose members are objects.
    Malformed,
    /// The key is not two hex digits.
    BadKey(String),
    /// The record has no `"ins"` string.
    MissingTemplate(String),
    /// The `"rel"` field is neither a boolean, a non-negative integer nor null.
    BadRelative(String),
    /// The template holds a placeholder twice, or `ll` without `hh`.
    BadTemplate(String),
    /// The key names a byte that an earlier key already named.
    Duplicate(String),
}

pub enum TableErrorView {
    Malformed,
    BadKey(Seq<char>),
    MissingTemplate(Seq<char>),
    BadRelative(Seq<char>),
    BadTemplate(Seq<char>),
    Duplicate(Seq<char>),
}

impl View for TableError {
    type V = TableErrorView;

    open spec fn view(&self) -> TableErrorView {
        match self {
            TableError::Malformed => TableErrorView::Malformed,
            TableError::BadKey(k) => TableErrorView::BadKey(k@),
            TableError::MissingTemplate(k) => TableErrorView::MissingTemplate(k@),
            TableError::BadRelative(k) => TableErrorView::BadRelative(k@),
            TableError::BadTemplate(k) => TableErrorView::BadTemplate(k@),
            TableError::Duplicate(k) => TableErrorView::Duplicate(k@),
        }
    }
}

/// The value of a hex digit, either case.
pub open spec fn hex_value(c: char) -> Option<u8> {
    if '0' <= c && c <= '9' {
        Some((c as u32 - '0' as u32) as u8)
    } else if 'a' <= c && c <= 'f' {
        Some((c as u32 - 'a' as u32 + 10) as u8)
    } else if 'A' <= c && c <= 'F' {
        Some((c as u32 - 'A' as u32 + 10) as u8)
    } else {
        None
    }
}

/// The byte that a key names: exactly two hex digits, high digit first.
pub open spec fn key_byte(k: Seq<char>) -> Option<u8> {
    if k.len() == 2 && hex_value(k[0]) is Some && hex_value(k[1]) is Some {
        Some((hex_value(k[0])->0 * 16 + hex_value(k[1])->0) as u8)
    } else {
        None
    }
}

/// The value of the first field called `name`.
pub open spec fn find_field(fields: Seq<SourceFieldView>, name: Seq<char>) -> Option<FieldValueView>
    decreases fields.len(),
{
    if fields.len() == 0 {
        None
    } else if fields[0].name == name {
        Some(fields[0].value)
    } else {
        find_field(fields.drop_first(), name)
    }
}

/// The relative-addressing flag that a `"rel"` field gives, or `None` where it
/// is malformed: absent or null gives no flag, a number is relative when it is 1.
pub open spec fn relative_flag(v: Option<FieldValueView>) -> Option<Option<bool>> {
    match v {
        None => Some(None),
        Some(FieldValueView::Null) => Some(None),
        Some(FieldValueView::Flag(b)) => Some(Some(b)),
        Some(FieldValueView::Number(Some(x))) => Some(Some(x == 1)),
        _ => None,
    }
}

/// The table entry that one record describes, or why it is refused.
pub open spec fn entry_of(r: SourceRecordView) -> Result<(u8, OpCodeView), TableErrorView> {
    match key_byte(r.key) {
        None => Err(TableErrorView::BadKey(r.key)),
        Some(b) => match find_field(r.fields, "ins"@) {
            Some(FieldValueView::Text(t)) => match relative_flag(find_field(r.fields, "rel"@)) {
                None => Err(TableErrorView::BadRelative(r.key)),
                Some(rel) => if valid_template(t) {
                    Ok((b, OpCodeView { instructions: t, is_relative: rel }))
                } else {
                    Err(TableErrorView::BadTemplate(r.key))
                },
            },
            _ => Err(TableErrorView::MissingTemplate(r.key)),
        },
    }
}

/// The table with no entries.
pub open spec fn empty_table() -> Seq<Option<OpCodeView>> {
    Seq::new(256, |i: int| None)
}

/// The table that the first `n` records describe, or the first refusal among them.
pub open spec fn build_upto(records: Seq<SourceRecordView>, n: int) -> Result<
    Seq<Option<OpCodeView>>,
    TableErrorView,
>
    decreases n,
{
    if n <= 0 {
        Ok(empty_table())
    } else {
        match build_upto(records, n - 1) {
            Err(e) => Err(e),
            Ok(t) => match entry_of(records[n - 1]) {
                Err(e) => Err(e),
                Ok((b, op)) => if t[b as int] is Some {
                    Err(TableErrorView::Duplicate(records[n - 1].key))
                } else {
                    Ok(t.update(b as int, Some(op)))
                },
            },
        }
    }
}

/// Once a prefix of the records is refused, every longer prefix is refused
/// for the same reason.
proof fn lemma_refusal_persists(records: Seq<SourceRecordView>, k: int, m: int)
    requires
        0 <= k <= m,
        build_upto(records, k) is Err,
    ensures
        build_upto(records, m) == build_upto(records, k),
    decreases m - k,
{
    if m > k {
        lemma_refusal_persists(records, k, m - 1);
    }
}

/// The table that a sequence of records describes, or the first refusal.
pub open spec fn build_table(records: Seq<SourceRecordView>) -> Result<
    Seq<Option<OpCodeView>>,
    TableErrorView,
> {
    build_upto(records, records.len() as int)
}

/// What `serde_json` reads from a description: its members, in key order,
/// or `None` where the text is not an object whose members are objects.
pub uninterp spec fn json_records(text: Seq<char>) -> Option<Seq<SourceRecordView>>;

/// Relies on `serde_json::from_str` to read the text as a JSON object whose
/// members are JSON objects, into `BTreeMap`s (so members come in key order);
/// each field value is sorted by its JSON variant.
#[verifier::external_body]
fn parse_records(text: &str) -> (r: Option<Vec<SourceRecord>>)
    ensures
        r is None ==> json_records(text@) is None,
        r matches Some(v) ==> json_records(text@) == Some(records_view(v@)),
{
    let doc: BTreeMap<String, BTreeMap<String, Value>> = serde_json::from_str(text).ok()?;
    Some(doc.into_iter().map(|(key, fields)| SourceRecord {
        key,
        fields: fields.into_iter().map(|(name, v)| SourceField { name, value: match v {
            Value::String(s) => FieldValue::Text(s),
            Value::Bool(b) => FieldValue::Flag(b),
            Value::Number(n) => FieldValue::Number(n.as_u64()),
            Value::Null => FieldValue::Null,
            _ => FieldValue::Other,
        } }).collect(),
    }).collect())
}

/// The table that a JSON description gives, or why it is refused.
pub open spec fn description_table(text: Seq<char>) -> Result<Seq<Option<OpCodeView>>, TableErrorView> {
    match json_records(text) {
        None => Err(TableErrorView::Malformed),
        Some(recs) => build_table(recs),
    }
}

/// The table, or the refusal, that a construction returned.
pub open spec fn table_view(r: Result<OpcodeTable, TableError>) -> Result<Seq<Option<OpCodeView>>, TableErrorView> {
    match r {
        Ok(t) => Ok(t@),
        Err(e) => Err(e@),
    }
}

pub open spec fn entry_view(e: Option<OpCode>) -> Option<OpCodeView> {
    match e {
        Some(op) => Some(op@),
        None => None,
    }
}

/// The opcode table: one optional descriptor for each of the 256 byte values.
pub struct OpcodeTable {
    entries: Vec<Option<OpCode>>,
}

impl View for OpcodeTable {
    type V = Seq<Option<OpCodeView>>;

    closed spec fn view(&self) -> Seq<Option<OpCodeView>> {
        self.entries@.map_values(|e: Option<OpCode>| entry_view(e))
    }
}

impl OpcodeTable {
    #[verifier::type_invariant]
    spec fn inv(&self) -> bool {
        self.entries@.len() == 256
    }

    /// The descriptor of a byte, if the table has one.
    pub fn lookup(&self, byte: u8) -> (r: Option<&OpCode>)
        ensures
            self@.len() == 256,
            match r {
                Some(op) => self@[byte as int] == Some(op@),
                None => self@[byte as int] is None,
            },
    {
        proof {
            use_type_invariant(self);
        }
        self.entries[byte as usize].as_ref()
    }

    /// Builds the table that a sequence of records describes, checking each
    /// key, record shape and template, and that no byte is named twice.
    pub fn from_records(records: &Vec<SourceRecord>) -> (r: Result<OpcodeTable, TableError>)
        ensures
            table_view(r) == build_table(records_view(records@)),
    {
        let ghost recs = records_view(records@);
        let mut entries: Vec<Option<OpCode>> = Vec::new();
        let mut k: usize = 0;
        while k < 256
            invariant
                k <= 256,
                entries@.len() == k,
                forall|j: int| 0 <= j < k ==> entries@[j] is None,
            decreases 256 - k,
        {
            entries.push(None);
            k = k + 1;
        }
        assert(entries@.map_values(|e: Option<OpCode>| entry_view(e)) =~= empty_table());
        let mut i: usize = 0;
        while i < records.len()
            invariant
                recs == records_view(records@),
                i <= records@.len(),
                entries@.len() == 256,
                build_upto(recs, i as int) == Ok::<_, TableErrorView>(
                    entries@.map_values(|e: Option<OpCode>| entry_view(e)),
                ),
            decreases records@.len() - i,
        {
            let rec = &records[i];
            assert(recs[i as int] == rec@);
            match entry_from_record(rec) {
                Err(e) => {
                    proof {
                        lemma_refusal_persists(recs, i + 1, recs.len() as int);
                    }
                    return Err(e);
                },
                Ok((b, op)) => {
                    if entries[b as usize].is_some() {
                        proof {
                            lemma_refusal_persists(recs, i + 1, recs.len() as int);
                        }
                        return Err(TableError::Duplicate(rec.key.clone()));
                    }
                    let ghost before = entries@;
                    entries.set(b as usize, Some(op));
                    assert(entries@.map_values(|e: Option<OpCode>| entry_view(e)) =~= before.map_values(
                        |e: Option<OpCode>| entry_view(e),
                    ).update(b as int, entry_view(entries@[b as int])));
                },
            }
            i = i + 1;
        }
        Ok(OpcodeTable { entries })
    }

    /// Builds the table from a JSON description.
    pub fn from_json(text: &str) -> (r: Result<OpcodeTable, TableError>)
        ensures
            table_view(r) == description_table(text@),
    {
        match parse_records(text) {
            None => Err(TableError::Malformed),
            Some(records) => OpcodeTable::from_records(&records),
        }
    }
}

/// The value of a hex digit, either case.
fn hex_digit_value(c: char) -> (r: Option<u8>)
    ensures
        r == hex_value(c),
{
    if '0' <= c && c <= '9' {
        Some((c as u32 - '0' as u32) as u8)
    } else if 'a' <= c && c <= 'f' {
        Some((c as u32 - 'a' as u32 + 10) as u8)
    } else if 'A' <= c && c <= 'F' {
        Some((c as u32 - 'A' as u32 + 10) as u8)
    } else {
        None
    }
}

/// The byte that a key names, if it is exactly two hex digits.
pub fn parse_key(key: &str) -> (r: Option<u8>)
    ensures
        r == key_byte(key@),
{
    if key.unicode_len() != 2 {
        return None;
    }
    match (hex_digit_value(key.get_char(0)), hex_digit_value(key.get_char(1))) {
        (Some(h), Some(l)) => Some(h * 16 + l),
        _ => None,
    }
}

/// Whether two strings hold the same characters.
fn same_text(a: &str, b: &str) -> (r: bool)
    ensures
        r == (a@ == b@),
{
    let n = a.unicode_len();
    if n != b.unicode_len() {
        return false;
    }
    let mut i: usize = 0;
    while i < n
        invariant
            n == a@.len(),
            n == b@.len(),
            i <= n,
            forall|j: int| 0 <= j < i ==> a@[j] == b@[j],
        decreases n - i,
    {
        if a.get_char(i) != b.get_char(i) {
            return false;
        }
        i = i + 1;
    }
    assert(a@ =~= b@);
    true
}

/// The value of the first field called `name`.
fn field<'a>(fields: &'a Vec<SourceField>, name: &str) -> (r: Option<&'a FieldValue>)
    ensures
        match r {
            Some(v) => find_field(fields@.map_values(|f: SourceField| f@), name@) == Some(v@),
            None => find_field(fields@.map_values(|f: SourceField| f@), name@) is None,
        },
{
    let ghost all = fields@.map_values(|f: SourceField| f@);
    let mut i: usize = 0;
    assert(all.subrange(0, all.len() as int) =~= all);
    while i < fields.len()
        invariant
            all == fields@.map_values(|f: SourceField| f@),
            i <= fields@.len(),
            find_field(all, name@) == find_field(all.subrange(i as int, all.len() as int), name@),
        decreases fields@.len() - i,
    {
        let ghost rest = all.subrange(i as int, all.len() as int);
        assert(rest.drop_first() =~= all.subrange(i + 1, all.len() as int));
        if same_text(fields[i].name.as_str(), name) {
            return Some(&fields[i].value);
        }
        i = i + 1;
    }
    None
}

/// Whether a template holds each placeholder at most once, and `ll` only beside `hh`.
fn check_template(t: &str) -> (r: bool)
    ensures
        r == valid_template(t@),
{
    let h = count_placeholder(t, HIGH);
    let l = count_placeholder(t, LOW);
    h <= 1 && l <= 1 && (l != 1 || h == 1)
}

/// The table entry that one record describes, or why it is refused.
fn entry_from_record(rec: &SourceRecord) -> (r: Result<(u8, OpCode), TableError>)
    ensures
        match r {
            Ok((b, op)) => entry_of(rec@) == Ok::<_, TableErrorView>((b, op@)),
            Err(e) => entry_of(rec@) == Err::<(u8, OpCodeView), _>(e@),
        },
{
    let b = match parse_key(rec.key.as_str()) {
        None => {
            return Err(TableError::BadKey(rec.key.clone()));
        },
        Some(b) => b,
    };
    let template = match field(&rec.fields, "ins") {
        Some(FieldValue::Text(t)) => t,
        _ => {
            return Err(TableError::MissingTemplate(rec.key.clone()));
        },
    };
    let is_relative = match field(&rec.fields, "rel") {
        None => None,
        Some(FieldValue::Null) => None,
        Some(FieldValue::Flag(f)) => Some(*f),
        Some(FieldValue::Number(Some(x))) => Some(*x == 1),
        _ => {
            return Err(TableError::BadRelative(rec.key.clone()));
        },
    };
    if !check_template(template.as_str()) {
        return Err(TableError::BadTemplate(rec.key.clone()));
    }
    Ok((b, OpCode { instructions: template.clone(), is_relative }))
}

} // verus!

verus! {

/// The text that reports a refused description.
pub open spec fn table_error_message(e: TableErrorView) -> Seq<char> {
    match e {
        TableErrorView::Malformed => "Opcode table is not a JSON object of records"@,
        TableErrorView::BadKey(k) => "Opcode table key is not a two-digit hex byte: "@ + k,
        TableErrorView::MissingTemplate(k) => "Opcode table record has no instruction template: "@ + k,
        TableErrorView::BadRelative(k) => "Opcode table record has a malformed relative flag: "@ + k,
        TableErrorView::BadTemplate(k) => "Opcode table template has misplaced placeholders: "@ + k,
        TableErrorView::Duplicate(k) => "Opcode table names a byte twice: "@ + k,
    }
}

impl TableError {
    /// The text that reports this refusal.
    pub fn message(&self) -> (r: String)
        ensures
            r@ == table_error_message(self@),
    {
        match self {
            TableError::Malformed => String::from_str("Opcode table is not a JSON object of records"),
            TableError::BadKey(k) => String::from_str("Opcode table key is not a two-digit hex byte: ").concat(k.as_str()),
            TableError::MissingTemplate(k) => String::from_str("Opcode table record has no instruction template: ").concat(k.as_str()),
            TableError::BadRelative(k) => String::from_str("Opcode table record has a malformed relative flag: ").concat(k.as_str()),
            TableError::BadTemplate(k) => String::from_str("Opcode table template has misplaced placeholders: ").concat(k.as_str()),
            TableError::Duplicate(k) => String::from_str("Opcode table names a byte twice: ").concat(k.as_str()),
        }
    }
}

} // verus!

verus! {

/// Building a table twice from the same description gives the same outcome:
/// both succeed with the same entry for every byte value, or both fail alike.
pub proof fn lemma_construction_deterministic(
    text: Seq<char>,
    r1: Result<OpcodeTable, TableError>,
    r2: Result<OpcodeTable, TableError>,
)
    requires
        table_view(r1) == description_table(text),
        table_view(r2) == description_table(text),
    ensures
        r1 is Ok <==> r2 is Ok,
        r1 is Err ==> r1->Err_0@ == r2->Err_0@,
        r1 is Ok ==> forall|b: u8| r1->Ok_0@[b as int] == r2->Ok_0@[b as int],
{
}

} // verus!
