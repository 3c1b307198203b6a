//! Schema analysis: a record is an ordered list of named, typed fields,
//! walked once. Each field is classified as the identity field, a timestamp
//! field, text, integer, or other; the table name is derived once from the
//! record type's name and treated as a constant afterwards.

use vstd::prelude::*;
use vstd::string::*;
use crate::error::SchemaError;
use crate::naming;
use crate::text;

verus! {

/// The value a field currently holds. Text and fixed-width signed integers
/// take part in generated insert/update logic; `Other` stands for a value of
/// any further type, which appears in the column enumeration but is never
/// written by generated statements.
#[derive(Clone, Debug)]
pub enum FieldData {
    Text(String),
    I8(i8),
    I16(i16),
    I32(i32),
    I64(i64),
    Other,
}

/// The mathematical model of a [`FieldData`].
pub enum FieldDataV {
    Text(Seq<char>),
    I8(i8),
    I16(i16),
    I32(i32),
    I64(i64),
    Other,
}

impl View for FieldData {
    type V = FieldDataV;

    open spec fn view(&self) -> FieldDataV {
        match self {
            FieldData::Text(s) => FieldDataV::Text(s@),
            FieldData::I8(x) => FieldDataV::I8(*x),
            FieldData::I16(x) => FieldDataV::I16(*x),
            FieldData::I32(x) => FieldDataV::I32(*x),
            FieldData::I64(x) => FieldDataV::I64(*x),
            FieldData::Other => FieldDataV::Other,
        }
    }
}

/// One named field with its current value.
#[derive(Clone, Debug)]
pub struct Field {
    pub name: String,
    pub data: FieldData,
}

/// The mathematical model of a [`Field`].
pub struct FieldV {
    pub name: Seq<char>,
    pub data: FieldDataV,
}

impl View for Field {
    type V = FieldV;

    open spec fn view(&self) -> FieldV {
        FieldV { name: self.name@, data: self.data@ }
    }
}

impl Field {
    /// A field with the given name and current value.
    pub fn new(name: &str, data: FieldData) -> (f: Field)
        ensures
            f@.name == name@,
            f@.data == data@,
    {
        Field { name: name.to_owned(), data }
    }
}

/// The views of a list of fields, in order.
pub open spec fn views_of_fields(fs: Seq<Field>) -> Seq<FieldV> {
    fs.map_values(|f: Field| f@)
}

/// The field names, in declaration order.
pub open spec fn field_names(fs: Seq<FieldV>) -> Seq<Seq<char>> {
    fs.map_values(|f: FieldV| f.name)
}

/// How one field takes part in generated statements.
#[derive(Clone, Copy, Debug, PartialEq, Eq, Structural)]
pub enum FieldKind {
    /// The primary-key field, named `id`: excluded from insert/update field
    /// lists, used to target rows.
    Identity,
    /// The creation timestamp, named `created`: auto-populated on insert only
    /// while its current value is the sentinel zero.
    CreatedAt,
    /// The update timestamp, named `updated`: always auto-populated on insert
    /// and on update.
    UpdatedAt,
    /// A text field: written only while non-empty.
    Text,
    /// A fixed-width integer field: always written, zero included.
    Integer,
    /// Any further type: enumerated in every select, never written.
    Other,
}

/// The integer a field holds, when it holds one.
pub open spec fn int_value(d: FieldDataV) -> Option<int> {
    match d {
        FieldDataV::I8(x) => Some(x as int),
        FieldDataV::I16(x) => Some(x as int),
        FieldDataV::I32(x) => Some(x as int),
        FieldDataV::I64(x) => Some(x as int),
        FieldDataV::Text(_) => None,
        FieldDataV::Other => None,
    }
}

/// The classification of a field: the reserved names `id`, `created`,
/// `updated` take precedence, then the field's type decides.
pub open spec fn spec_classify(f: FieldV) -> FieldKind {
    if f.name == "id"@ {
        FieldKind::Identity
    } else if f.name == "created"@ {
        FieldKind::CreatedAt
    } else if f.name == "updated"@ {
        FieldKind::UpdatedAt
    } else {
        match f.data {
            FieldDataV::Text(_) => FieldKind::Text,
            FieldDataV::Other => FieldKind::Other,
            _ => FieldKind::Integer,
        }
    }
}

/// Classifies one field.
pub fn classify(f: &Field) -> (k: FieldKind)
    ensures
        k == spec_classify(f@),
{
    if text::str_eq(f.name.as_str(), "id") {
        FieldKind::Identity
    } else if text::str_eq(f.name.as_str(), "created") {
        FieldKind::CreatedAt
    } else if text::str_eq(f.name.as_str(), "updated") {
        FieldKind::UpdatedAt
    } else {
        match &f.data {
            FieldData::Text(_) => FieldKind::Text,
            FieldData::Other => FieldKind::Other,
            _ => FieldKind::Integer,
        }
    }
}

/// An identity field: named `id` and holding an integer.
pub open spec fn is_identity_int(f: FieldV) -> bool {
    f.name == "id"@ && int_value(f.data) is Some
}

/// Some field is an integer identity field.
pub open spec fn has_identity(fs: Seq<FieldV>) -> bool {
    exists|i: int| 0 <= i < fs.len() && is_identity_int(fs[i])
}

/// A field carrying one of the two reserved timestamp names.
pub open spec fn is_timestamp_name(f: FieldV) -> bool {
    f.name == "created"@ || f.name == "updated"@
}

/// Every field named `created` or `updated` holds an integer.
pub open spec fn timestamps_integral(fs: Seq<FieldV>) -> bool {
    forall|i: int|
        0 <= i < fs.len() ==> (is_timestamp_name(#[trigger] fs[i]) ==> int_value(fs[i].data)
            is Some)
}

/// Some field is named `updated`.
pub open spec fn has_updated(fs: Seq<FieldV>) -> bool {
    exists|i: int| 0 <= i < fs.len() && #[trigger] fs[i].name == "updated"@
}

/// The value of the first integer identity field (the row-targeting key).
pub open spec fn id_of(fs: Seq<FieldV>) -> int
    decreases fs.len(),
{
    if fs.len() == 0 {
        0
    } else if is_identity_int(fs[0]) {
        int_value(fs[0].data).unwrap()
    } else {
        id_of(fs.drop_first())
    }
}

proof fn lemma_id_of_first_match(fs: Seq<FieldV>, i: int)
    requires
        0 <= i < fs.len(),
        forall|j: int| 0 <= j < i ==> !is_identity_int(#[trigger] fs[j]),
        is_identity_int(fs[i]),
    ensures
        id_of(fs) == int_value(fs[i].data).unwrap(),
    decreases i,
{
    if i == 0 {
    } else {
        assert(!is_identity_int(fs[0]));
        assert forall|j: int| 0 <= j < i - 1 implies !is_identity_int(
            #[trigger] fs.drop_first()[j],
        ) by {
            assert(fs.drop_first()[j] == fs[j + 1]);
        }
        assert(fs.drop_first()[i - 1] == fs[i]);
        lemma_id_of_first_match(fs.drop_first(), i - 1);
    }
}

/// An analyzed record: the derived table name and the ordered field list.
#[derive(Clone, Debug)]
pub struct Record {
    pub table: String,
    pub fields: Vec<Field>,
}

/// The mathematical model of a [`Record`].
pub struct RecordV {
    pub table: Seq<char>,
    pub fields: Seq<FieldV>,
}

impl View for Record {
    type V = RecordV;

    open spec fn view(&self) -> RecordV {
        RecordV { table: self.table@, fields: views_of_fields(self.fields@) }
    }
}

impl Record {
    /// Well-formed: an integer identity field exists, and every timestamp
    /// field holds an integer.
    pub open spec fn wf(self) -> bool {
        has_identity(self@.fields) && timestamps_integral(self@.fields)
    }

    /// The value of the identity field.
    pub open spec fn spec_id(self) -> int {
        id_of(self@.fields)
    }

    /// Walks the fields once: whether an integer identity field exists, and
    /// whether every timestamp field holds an integer.
    fn analyze(fields: &Vec<Field>) -> (r: (bool, bool))
        ensures
            r.0 == has_identity(views_of_fields(fields@)),
            r.1 == timestamps_integral(views_of_fields(fields@)),
    {
        let ghost fv = views_of_fields(fields@);
        let mut has_id: bool = false;
        let mut ts_ok: bool = true;
        let mut i: usize = 0;
        while i < fields.len()
            invariant
                i <= fields.len(),
                fv == views_of_fields(fields@),
                has_id == has_identity(fv.take(i as int)),
                ts_ok == timestamps_integral(fv.take(i as int)),
            decreases fields.len() - i,
        {
            let f = &fields[i];
            proof {
                assert(fv[i as int] == f@);
                assert(fv.take(i + 1 as int).drop_last() =~= fv.take(i as int));
            }
            let is_int = match &f.data {
                FieldData::I8(_) => true,
                FieldData::I16(_) => true,
                FieldData::I32(_) => true,
                FieldData::I64(_) => true,
                _ => false,
            };
            if text::str_eq(f.name.as_str(), "id") && is_int {
                has_id = true;
            }
            if (text::str_eq(f.name.as_str(), "created") || text::str_eq(f.name.as_str(), "updated")) && !is_int {
                ts_ok = false;
            }
            proof {
                let pre = fv.take(i as int);
                let post = fv.take(i + 1 as int);
                assert(post[i as int] == fv[i as int]);
                assert forall|j: int| 0 <= j < post.len() implies post[j] == fv[j] by {}
                if has_identity(post) {
                    let w = choose|j: int| 0 <= j < post.len() && is_identity_int(post[j]);
                    if w < i {
                        assert(pre[w] == post[w]);
                        assert(has_identity(pre));
                    }
                }
                if has_identity(pre) {
                    let w = choose|j: int| 0 <= j < pre.len() && is_identity_int(pre[j]);
                    assert(post[w] == pre[w]);
                    assert(has_identity(post));
                }
                assert(is_int == (int_value(f@.data) is Some));
                if ts_ok {
                    assert forall|j: int|
                        0 <= j < post.len() implies (is_timestamp_name(#[trigger] post[j])
                        ==> int_value(post[j].data) is Some) by {
                        if j < i {
                            assert(post[j] == pre[j]);
                        } else {
                            assert(post[j] == f@);
                        }
                    }
                    assert(timestamps_integral(post));
                } else {
                    if timestamps_integral(pre) {
                        assert(is_timestamp_name(fv[i as int]) && !is_int);
                        assert(!timestamps_integral(post));
                    } else {
                        let w = choose|j: int|
                            0 <= j < pre.len() && is_timestamp_name(pre[j]) && !(int_value(
                                pre[j].data,
                            ) is Some);
                        assert(post[w] == pre[w]);
                        assert(is_timestamp_name(post[w]) && !(int_value(post[w].data) is Some));
                        assert(!timestamps_integral(post));
                    }
                }
            }
            i = i + 1;
        }
        proof {
            assert(fv.take(fields@.len() as int) =~= fv);
        }
        (has_id, ts_ok)
    }

    /// Analyzes a record definition once: derives the table name from the
    /// record type's name and validates the reserved fields. The field list
    /// and its order are kept exactly as declared.
    pub fn new(record_name: &str, fields: Vec<Field>) -> (r: Result<Record, SchemaError>)
        ensures
            r is Ok <==> has_identity(views_of_fields(fields@)) && timestamps_integral(
                views_of_fields(fields@),
            ),
            match r {
                Ok(rec) => rec.wf() && rec@.table == naming::table_name_of(record_name@)
                    && rec@.fields == views_of_fields(fields@),
                Err(e) => if e == SchemaError::MissingIdentity {
                    !has_identity(views_of_fields(fields@))
                } else {
                    e == SchemaError::TimestampNotInteger && has_identity(views_of_fields(fields@))
                        && !timestamps_integral(views_of_fields(fields@))
                },
            },
    {
        let (has_id, ts_ok) = Self::analyze(&fields);
        if !has_id {
            Err(SchemaError::MissingIdentity)
        } else if !ts_ok {
            Err(SchemaError::TimestampNotInteger)
        } else {
            let table = naming::derive_table_name(record_name);
            Ok(Record { table, fields })
        }
    }

    /// Tests well-formedness of a record built directly from its parts.
    pub fn is_well_formed(&self) -> (b: bool)
        ensures
            b == self.wf(),
    {
        let (has_id, ts_ok) = Self::analyze(&self.fields);
        has_id && ts_ok
    }

    /// The derived table name.
    pub fn get_table_name(&self) -> (r: &str)
        ensures
            r@ == self@.table,
    {
        self.table.as_str()
    }

    /// Whether some field carries the given name.
    pub open spec fn spec_has_field(self, name: Seq<char>) -> bool {
        exists|i: int| 0 <= i < self@.fields.len() && #[trigger] self@.fields[i].name == name
    }

    /// Tests whether the schema declares a field of the given name.
    pub fn has_field(&self, name: &str) -> (b: bool)
        ensures
            b == self.spec_has_field(name@),
    {
        let ghost fv = self@.fields;
        let mut i: usize = 0;
        while i < self.fields.len()
            invariant
                i <= self.fields.len(),
                fv == self@.fields,
                forall|j: int| 0 <= j < i ==> #[trigger] fv[j].name != name@,
            decreases self.fields.len() - i,
        {
            if text::str_eq(self.fields[i].name.as_str(), name) {
                proof {
                    assert(fv[i as int].name == name@);
                }
                return true;
            }
            i = i + 1;
        }
        false
    }

    /// Every field name, in declaration order, joined with commas: the column
    /// enumeration used by every select. Each field appears exactly once, at
    /// its declared position.
    pub fn get_fields(&self) -> (s: String)
        ensures
            s@ == text::join_sep(field_names(self@.fields), ","@),
    {
        let ghost fv = self@.fields;
        let mut names: Vec<String> = Vec::new();
        let mut i: usize = 0;
        while i < self.fields.len()
            invariant
                i <= self.fields.len(),
                fv == self@.fields,
                names@.len() == i,
                forall|j: int| 0 <= j < i ==> #[trigger] names@[j]@ == fv[j].name,
            decreases self.fields.len() - i,
        {
            names.push(self.fields[i].name.clone());
            i = i + 1;
        }
        proof {
            assert(names@.map_values(|n: String| n@) =~= field_names(fv));
        }
        text::join_sep_strs(&names, ",")
    }

    /// The value of the identity field, the row-targeting key.
    pub fn id(&self) -> (r: i64)
        requires
            self.wf(),
        ensures
            r as int == self.spec_id(),
    {
        let ghost fv = self@.fields;
        let mut i: usize = 0;
        while i < self.fields.len()
            invariant
                i <= self.fields.len(),
                fv == self@.fields,
                has_identity(fv),
                forall|j: int| 0 <= j < i ==> !is_identity_int(#[trigger] fv[j]),
            decreases self.fields.len() - i,
        {
            let f = &self.fields[i];
            if text::str_eq(f.name.as_str(), "id") {
                match &f.data {
                    FieldData::I8(x) => {
                        proof {
                            lemma_id_of_first_match(fv, i as int);
                        }
                        return *x as i64;
                    },
                    FieldData::I16(x) => {
                        proof {
                            lemma_id_of_first_match(fv, i as int);
                        }
                        return *x as i64;
                    },
                    FieldData::I32(x) => {
                        proof {
                            lemma_id_of_first_match(fv, i as int);
                        }
                        return *x as i64;
                    },
                    FieldData::I64(x) => {
                        proof {
                            lemma_id_of_first_match(fv, i as int);
                        }
                        return *x;
                    },
                    _ => {},
                }
            }
            i = i + 1;
        }
        proof {
            let w = choose|j: int| 0 <= j < fv.len() && is_identity_int(fv[j]);
            assert(!is_identity_int(fv[w]));
            assert(false);
        }
        vstd::pervasive::unreached()
    }
}

} // verus!
