//! The Statement Assembler: combines the table name, the column enumeration,
//! and per-field fragments into parameterized statement shapes, each paired
//! with its ordered bind-value list. Placeholders are 1-indexed and assigned
//! strictly in the order values are appended; every statement is built fresh
//! per call and never cached.

use vstd::prelude::*;
use vstd::string::*;
use crate::cond::{Cond, CondV, cond_clause};
use crate::schema::{
    Field, FieldData, FieldDataV, FieldKind, FieldV, Record, RecordV, classify, field_names,
    has_updated, int_value, spec_classify,
};
use crate::text;
use crate::value::{Val, ValV, val_views, dup_vals};

verus! {

/// A generated statement: transient SQL text plus the ordered values its
/// placeholders bind.
#[derive(Clone, Debug, PartialEq)]
pub struct Statement {
    pub sql: String,
    pub args: Vec<Val>,
}

/// The mathematical model of a [`Statement`].
pub struct StatementV {
    pub sql: Seq<char>,
    pub args: Seq<ValV>,
}

impl View for Statement {
    type V = StatementV;

    open spec fn view(&self) -> StatementV {
        StatementV { sql: self.sql@, args: val_views(self.args@) }
    }
}

/// `SELECT <all fields> FROM <table>`: the shared select prefix.
pub open spec fn select_sql(r: RecordV) -> Seq<char> {
    "SELECT "@ + text::join_sep(field_names(r.fields), ","@) + " FROM "@ + r.table
}

/// The unfiltered fetch: all columns, no predicate, no arguments.
pub open spec fn get_all_stmt_spec(r: RecordV) -> StatementV {
    StatementV { sql: select_sql(r), args: Seq::empty() }
}

/// The conditional fetch: the `WHERE` keyword appears only when the
/// condition carries arguments.
pub open spec fn select_by_cond_stmt_spec(r: RecordV, c: CondV) -> StatementV {
    StatementV {
        sql: select_sql(r) + " "@ + if c.args.len() > 0 {
            "WHERE "@ + cond_clause(c.lhss)
        } else {
            cond_clause(c.lhss)
        },
        args: c.args,
    }
}

/// The parallel row-count statement for a paginated fetch: it shares the
/// condition's clause text and receives the same argument list in the same
/// order as the content statement.
pub open spec fn count_by_cond_stmt_spec(r: RecordV, c: CondV) -> StatementV {
    StatementV {
        sql: "SELECT COUNT(*) AS total FROM "@ + r.table + " "@ + if c.args.len() > 0 {
            "WHERE "@ + cond_clause(c.lhss)
        } else {
            Seq::empty()
        },
        args: c.args,
    }
}

/// The caller-supplied-predicate fetch: the raw fragment (which may carry an
/// `ORDER BY`) is prefixed with `WHERE` only when non-empty, and the
/// caller's typed arguments pass through unchanged, in order.
pub open spec fn select_by_query_stmt_spec(r: RecordV, query: Seq<char>, values: Seq<ValV>) -> StatementV {
    StatementV {
        sql: select_sql(r) + " "@ + if query.len() == 0 {
            Seq::empty()
        } else {
            "WHERE "@ + query
        },
        args: values,
    }
}

/// The all-rows equality fetch on one schema field.
pub open spec fn get_all_by_field_stmt_spec(r: RecordV, field: Seq<char>, value: ValV) -> StatementV {
    StatementV { sql: select_sql(r) + " WHERE "@ + field + " = $1"@, args: seq![value] }
}

/// The single-row equality fetch on one schema field: the all-rows
/// statement plus a row limit.
pub open spec fn get_by_field_stmt_spec(r: RecordV, field: Seq<char>, value: ValV) -> StatementV {
    StatementV {
        sql: get_all_by_field_stmt_spec(r, field, value).sql + " LIMIT 1"@,
        args: seq![value],
    }
}

/// The rename-in-place update on one schema field, applied to every matching
/// row: binds the new value first, the old value second.
pub open spec fn update_all_by_field_stmt_spec(
    r: RecordV,
    field: Seq<char>,
    value_new: ValV,
    value_old: ValV,
) -> StatementV {
    StatementV {
        sql: "UPDATE "@ + r.table + " SET "@ + field + " = $1 WHERE "@ + field + " = $2"@,
        args: seq![value_new, value_old],
    }
}

/// The rename-in-place update limited to one row: the all-rows statement
/// plus a row limit, with the same binds in the same order.
pub open spec fn update_by_field_stmt_spec(
    r: RecordV,
    field: Seq<char>,
    value_new: ValV,
    value_old: ValV,
) -> StatementV {
    StatementV {
        sql: update_all_by_field_stmt_spec(r, field, value_new, value_old).sql + " LIMIT 1"@,
        args: seq![value_new, value_old],
    }
}

/// The equality delete on one schema field, applied to every matching row.
pub open spec fn delete_all_by_field_stmt_spec(r: RecordV, field: Seq<char>, value: ValV) -> StatementV {
    StatementV {
        sql: "DELETE FROM "@ + r.table + " WHERE "@ + field + " = $1"@,
        args: seq![value],
    }
}

/// The equality delete limited to one row.
pub open spec fn delete_by_field_stmt_spec(r: RecordV, field: Seq<char>, value: ValV) -> StatementV {
    StatementV {
        sql: delete_all_by_field_stmt_spec(r, field, value).sql + " LIMIT 1"@,
        args: seq![value],
    }
}

/// The single-field update of this record's own row, targeted by identity.
pub open spec fn modify_by_field_stmt_spec(r: RecordV, field: Seq<char>, value: ValV, id: int) -> StatementV {
    StatementV {
        sql: "UPDATE "@ + r.table + " SET "@ + field + " = $1 WHERE id = "@ + text::int_dec_of(id),
        args: seq![value],
    }
}

/// The whole-row delete, targeted by identity.
pub open spec fn delete_stmt_spec(r: RecordV, id: int) -> StatementV {
    StatementV {
        sql: "DELETE FROM "@ + r.table + " WHERE id = "@ + text::int_dec_of(id),
        args: Seq::empty(),
    }
}

/// Whether `create` writes this field, by its classification and current
/// value: the identity and `Other` fields never; the creation timestamp only
/// while its value is the sentinel zero; the update timestamp always; text
/// only while non-empty; integers always.
pub open spec fn create_included(f: FieldV) -> bool {
    match spec_classify(f) {
        FieldKind::Identity => false,
        FieldKind::CreatedAt => int_value(f.data) == Some(0int),
        FieldKind::UpdatedAt => true,
        FieldKind::Text => f.data matches FieldDataV::Text(s) && s.len() > 0,
        FieldKind::Integer => true,
        FieldKind::Other => false,
    }
}

/// The value a field's own data binds. Opaque (`Other`) fields are never
/// included in a write, so no statement constrains their bind value.
pub open spec fn data_val(d: FieldDataV) -> ValV {
    match d {
        FieldDataV::Text(s) => ValV::Text(s),
        FieldDataV::I8(x) => ValV::I8(x),
        FieldDataV::I16(x) => ValV::I16(x),
        FieldDataV::I32(x) => ValV::I32(x),
        FieldDataV::I64(x) => ValV::I64(x),
        FieldDataV::Other => vstd::pervasive::arbitrary(),
    }
}

/// The value `create` binds for an included field: both timestamps bind the
/// statement's `now`; text and integer fields bind their own value.
pub open spec fn create_bind_val(f: FieldV, now: i64) -> ValV {
    match spec_classify(f) {
        FieldKind::CreatedAt => ValV::I64(now),
        FieldKind::UpdatedAt => ValV::I64(now),
        _ => data_val(f.data),
    }
}

/// The column names `create` writes, in declaration order.
pub open spec fn create_cols(fs: Seq<FieldV>) -> Seq<Seq<char>>
    decreases fs.len(),
{
    if fs.len() == 0 {
        Seq::empty()
    } else {
        create_cols(fs.drop_last()) + if create_included(fs.last()) {
            seq![fs.last().name]
        } else {
            Seq::empty()
        }
    }
}

/// The values `create` binds, in the same order as the column names.
pub open spec fn create_vals(fs: Seq<FieldV>, now: i64) -> Seq<ValV>
    decreases fs.len(),
{
    if fs.len() == 0 {
        Seq::empty()
    } else {
        create_vals(fs.drop_last(), now) + if create_included(fs.last()) {
            seq![create_bind_val(fs.last(), now)]
        } else {
            Seq::empty()
        }
    }
}

/// `$1` through `$n`.
pub open spec fn placeholder_list(n: nat) -> Seq<Seq<char>> {
    Seq::new(n, |i: int| text::placeholder_text((i + 1) as nat))
}

/// `INSERT INTO <table> (<included fields>) VALUES (<placeholders>)`: one
/// placeholder per included field, numbered from 1.
pub open spec fn insert_sql(r: RecordV) -> Seq<char> {
    "INSERT INTO "@ + r.table + " ("@ + text::join_sep(create_cols(r.fields), ","@)
        + ") VALUES ("@ + text::join_sep(
        placeholder_list(create_cols(r.fields).len()),
        ","@,
    ) + ")"@
}

/// The insert: its column list and placeholder count vary with the record's
/// current values.
pub open spec fn create_stmt_spec(r: RecordV, now: i64) -> StatementV {
    StatementV { sql: insert_sql(r), args: create_vals(r.fields, now) }
}

/// The conflict-tolerant insert: the plain insert plus an `ON CONFLICT`
/// clause on the caller-named field, with the same binds.
pub open spec fn create_or_skip_stmt_spec(r: RecordV, now: i64, skip: Seq<char>) -> StatementV {
    StatementV {
        sql: insert_sql(r) + " ON CONFLICT ("@ + skip + ") DO NOTHING"@,
        args: create_vals(r.fields, now),
    }
}

/// One SET fragment: `<name> = $<index>`.
pub open spec fn set_frag(name: Seq<char>, index: nat) -> Seq<char> {
    name + " = "@ + text::placeholder_text(index)
}

/// SET fragments for the names, numbered from 1 in order.
pub open spec fn set_frags(names: Seq<Seq<char>>) -> Seq<Seq<char>>
    decreases names.len(),
{
    if names.len() == 0 {
        Seq::empty()
    } else {
        set_frags(names.drop_last()) + seq![set_frag(names.last(), names.len() as nat)]
    }
}

/// `UPDATE <table> SET <fragments> WHERE id = <id>`.
pub open spec fn update_sql(table: Seq<char>, names: Seq<Seq<char>>, id: int) -> Seq<char> {
    "UPDATE "@ + table + " SET "@ + text::join_sep(set_frags(names), ","@) + " WHERE id = "@
        + text::int_dec_of(id)
}

/// The trailing automatic `updated` column, present exactly when the schema
/// declares one.
pub open spec fn with_updated_col(names: Seq<Seq<char>>, has_upd: bool) -> Seq<Seq<char>> {
    if has_upd {
        names.push("updated"@)
    } else {
        names
    }
}

/// The trailing automatic `updated` bind, present exactly when the schema
/// declares an `updated` column.
pub open spec fn with_updated_val(vals: Seq<ValV>, has_upd: bool, now: i64) -> Seq<ValV> {
    if has_upd {
        vals.push(ValV::I64(now))
    } else {
        vals
    }
}

/// The names of an explicit (field, value) list, in order.
pub open spec fn pair_names(ps: Seq<(String, Val)>) -> Seq<Seq<char>> {
    ps.map_values(|p: (String, Val)| p.0@)
}

/// The values of an explicit (field, value) list, in order.
pub open spec fn pair_vals(ps: Seq<(String, Val)>) -> Seq<ValV> {
    ps.map_values(|p: (String, Val)| p.1@)
}

/// The explicit-field update: the caller's (field, value) pairs in order,
/// then the automatic `updated` timestamp, targeted by identity.
pub open spec fn update_stmt_spec(r: RecordV, ps: Seq<(String, Val)>, now: i64, id: int) -> StatementV {
    StatementV {
        sql: update_sql(r.table, with_updated_col(pair_names(ps), has_updated(r.fields)), id),
        args: with_updated_val(pair_vals(ps), has_updated(r.fields), now),
    }
}

/// Whether `save` writes this field: text only while non-empty, integers
/// always, nothing else.
pub open spec fn save_included(f: FieldV) -> bool {
    match spec_classify(f) {
        FieldKind::Text => f.data matches FieldDataV::Text(s) && s.len() > 0,
        FieldKind::Integer => true,
        _ => false,
    }
}

/// The column names `save` writes, in declaration order.
pub open spec fn save_cols(fs: Seq<FieldV>) -> Seq<Seq<char>>
    decreases fs.len(),
{
    if fs.len() == 0 {
        Seq::empty()
    } else {
        save_cols(fs.drop_last()) + if save_included(fs.last()) {
            seq![fs.last().name]
        } else {
            Seq::empty()
        }
    }
}

/// The values `save` binds, in the same order as its column names.
pub open spec fn save_vals(fs: Seq<FieldV>) -> Seq<ValV>
    decreases fs.len(),
{
    if fs.len() == 0 {
        Seq::empty()
    } else {
        save_vals(fs.drop_last()) + if save_included(fs.last()) {
            seq![data_val(fs.last().data)]
        } else {
            Seq::empty()
        }
    }
}

/// The full-row overwrite: every currently-included field in declaration
/// order, then the automatic `updated` timestamp, targeted by identity.
pub open spec fn save_stmt_spec(r: RecordV, now: i64, id: int) -> StatementV {
    StatementV {
        sql: update_sql(r.table, with_updated_col(save_cols(r.fields), has_updated(r.fields)), id),
        args: with_updated_val(save_vals(r.fields), has_updated(r.fields), now),
    }
}

impl Record {
    /// `SELECT <all fields> FROM <table>`, with no predicate and no binds.
    pub fn get_all_stmt(&self) -> (st: Statement)
        ensures
            st@ == get_all_stmt_spec(self@),
    {
        let fields_csv = self.get_fields();
        let mut sql = String::from_str("SELECT ");
        sql.append(fields_csv.as_str());
        sql.append(" FROM ");
        sql.append(self.table.as_str());
        proof {
            assert(sql@ =~= select_sql(self@));
            assert(val_views(Seq::<Val>::empty()) =~= Seq::<ValV>::empty());
        }
        Statement { sql, args: Vec::new() }
    }

    /// The content statement of a conditional fetch: the condition's clause,
    /// prefixed with `WHERE` only when it carries arguments, bound to the
    /// condition's arguments in order.
    pub fn select_by_cond_stmt(&self, cond: &Cond) -> (st: Statement)
        ensures
            st@ == select_by_cond_stmt_spec(self@, cond@),
    {
        let clause = cond.build();
        let fields_csv = self.get_fields();
        let mut sql = String::from_str("SELECT ");
        sql.append(fields_csv.as_str());
        sql.append(" FROM ");
        sql.append(self.table.as_str());
        sql.append(" ");
        if cond.has_args() {
            sql.append("WHERE ");
        }
        sql.append(clause.as_str());
        proof {
            reveal_strlit(" ");
            assert(sql@ =~= select_by_cond_stmt_spec(self@, cond@).sql);
        }
        Statement { sql, args: dup_vals(&cond.args) }
    }

    /// The parallel count statement of a paginated fetch: same clause text,
    /// same argument list in the same order as the content statement.
    pub fn count_by_cond_stmt(&self, cond: &Cond) -> (st: Statement)
        ensures
            st@ == count_by_cond_stmt_spec(self@, cond@),
    {
        let mut sql = String::from_str("SELECT COUNT(*) AS total FROM ");
        sql.append(self.table.as_str());
        sql.append(" ");
        if cond.has_args() {
            let clause = cond.build();
            sql.append("WHERE ");
            sql.append(clause.as_str());
        }
        proof {
            reveal_strlit(" ");
            assert(sql@ =~= count_by_cond_stmt_spec(self@, cond@).sql);
        }
        Statement { sql, args: dup_vals(&cond.args) }
    }

    /// The caller-supplied-predicate fetch: `query` may carry an `ORDER BY`;
    /// the caller's typed arguments pass through unchanged, in order.
    pub fn select_by_query_stmt(&self, query: &str, values: &Vec<Val>) -> (st: Statement)
        ensures
            st@ == select_by_query_stmt_spec(self@, query@, val_views(values@)),
    {
        let fields_csv = self.get_fields();
        let mut sql = String::from_str("SELECT ");
        sql.append(fields_csv.as_str());
        sql.append(" FROM ");
        sql.append(self.table.as_str());
        sql.append(" ");
        if !query.is_empty() {
            sql.append("WHERE ");
            sql.append(query);
        }
        proof {
            reveal_strlit(" ");
            assert(sql@ =~= select_by_query_stmt_spec(self@, query@, val_views(values@)).sql);
        }
        Statement { sql, args: dup_vals(values) }
    }

    /// The single-row equality fetch on `field`.
    pub fn get_by_field_stmt(&self, field: &str, value: Val) -> (st: Statement)
        requires
            self.spec_has_field(field@),
        ensures
            st@ == get_by_field_stmt_spec(self@, field@, value@),
    {
        let ghost vv = value@;
        let mut st = self.get_all_by_field_stmt(field, value);
        st.sql.append(" LIMIT 1");
        proof {
            assert(st@.sql =~= get_by_field_stmt_spec(self@, field@, vv).sql);
        }
        st
    }

    /// The all-rows equality fetch on `field`.
    pub fn get_all_by_field_stmt(&self, field: &str, value: Val) -> (st: Statement)
        requires
            self.spec_has_field(field@),
        ensures
            st@ == get_all_by_field_stmt_spec(self@, field@, value@),
    {
        let fields_csv = self.get_fields();
        let mut sql = String::from_str("SELECT ");
        sql.append(fields_csv.as_str());
        sql.append(" FROM ");
        sql.append(self.table.as_str());
        sql.append(" WHERE ");
        sql.append(field);
        sql.append(" = $1");
        let ghost vv = value@;
        let mut args: Vec<Val> = Vec::new();
        args.push(value);
        proof {
            assert(sql@ =~= get_all_by_field_stmt_spec(self@, field@, vv).sql);
            assert(val_views(args@) =~= seq![vv]);
        }
        Statement { sql, args }
    }

    /// The rename-in-place update on `field` for every matching row: sets
    /// the new value on rows holding the old one, binding new first, old
    /// second.
    pub fn update_all_by_field_stmt(&self, field: &str, value_new: Val, value_old: Val) -> (st: Statement)
        requires
            self.spec_has_field(field@),
        ensures
            st@ == update_all_by_field_stmt_spec(self@, field@, value_new@, value_old@),
    {
        let mut sql = String::from_str("UPDATE ");
        sql.append(self.table.as_str());
        sql.append(" SET ");
        sql.append(field);
        sql.append(" = $1 WHERE ");
        sql.append(field);
        sql.append(" = $2");
        let ghost vn = value_new@;
        let ghost vo = value_old@;
        let mut args: Vec<Val> = Vec::new();
        args.push(value_new);
        args.push(value_old);
        proof {
            assert(sql@ =~= update_all_by_field_stmt_spec(self@, field@, vn, vo).sql);
            assert(val_views(args@) =~= seq![vn, vo]);
        }
        Statement { sql, args }
    }

    /// The rename-in-place update on `field`, limited to one row; binds in
    /// the same (new, old) order as the all-rows variant.
    pub fn update_by_field_stmt(&self, field: &str, value_new: Val, value_old: Val) -> (st: Statement)
        requires
            self.spec_has_field(field@),
        ensures
            st@ == update_by_field_stmt_spec(self@, field@, value_new@, value_old@),
    {
        let ghost vn = value_new@;
        let ghost vo = value_old@;
        let mut st = self.update_all_by_field_stmt(field, value_new, value_old);
        st.sql.append(" LIMIT 1");
        proof {
            assert(st@.sql =~= update_by_field_stmt_spec(self@, field@, vn, vo).sql);
        }
        st
    }

    /// The equality delete on `field` for every matching row.
    pub fn delete_all_by_field_stmt(&self, field: &str, value: Val) -> (st: Statement)
        requires
            self.spec_has_field(field@),
        ensures
            st@ == delete_all_by_field_stmt_spec(self@, field@, value@),
    {
        let mut sql = String::from_str("DELETE FROM ");
        sql.append(self.table.as_str());
        sql.append(" WHERE ");
        sql.append(field);
        sql.append(" = $1");
        let ghost vv = value@;
        let mut args: Vec<Val> = Vec::new();
        args.push(value);
        proof {
            assert(sql@ =~= delete_all_by_field_stmt_spec(self@, field@, vv).sql);
            assert(val_views(args@) =~= seq![vv]);
        }
        Statement { sql, args }
    }

    /// The equality delete on `field`, limited to one row.
    pub fn delete_by_field_stmt(&self, field: &str, value: Val) -> (st: Statement)
        requires
            self.spec_has_field(field@),
        ensures
            st@ == delete_by_field_stmt_spec(self@, field@, value@),
    {
        let ghost vv = value@;
        let mut st = self.delete_all_by_field_stmt(field, value);
        st.sql.append(" LIMIT 1");
        proof {
            assert(st@.sql =~= delete_by_field_stmt_spec(self@, field@, vv).sql);
        }
        st
    }

    /// The single-field update of this record's own row, targeted by the
    /// identity value rendered into the statement text.
    pub fn modify_by_field_stmt(&self, field: &str, value: Val) -> (st: Statement)
        requires
            self.wf(),
            self.spec_has_field(field@),
        ensures
            st@ == modify_by_field_stmt_spec(self@, field@, value@, self.spec_id()),
    {
        let id = self.id();
        let id_text = text::fmt_i64(id);
        let mut sql = String::from_str("UPDATE ");
        sql.append(self.table.as_str());
        sql.append(" SET ");
        sql.append(field);
        sql.append(" = $1 WHERE id = ");
        sql.append(id_text.as_str());
        let ghost vv = value@;
        let mut args: Vec<Val> = Vec::new();
        args.push(value);
        proof {
            assert(sql@ =~= modify_by_field_stmt_spec(self@, field@, vv, self.spec_id()).sql);
            assert(val_views(args@) =~= seq![vv]);
        }
        Statement { sql, args }
    }

    /// The whole-row delete, targeted by the identity value rendered into
    /// the statement text.
    pub fn delete_stmt(&self) -> (st: Statement)
        requires
            self.wf(),
        ensures
            st@ == delete_stmt_spec(self@, self.spec_id()),
    {
        let id = self.id();
        let id_text = text::fmt_i64(id);
        let mut sql = String::from_str("DELETE FROM ");
        sql.append(self.table.as_str());
        sql.append(" WHERE id = ");
        sql.append(id_text.as_str());
        proof {
            assert(sql@ =~= delete_stmt_spec(self@, self.spec_id()).sql);
            assert(val_views(Seq::<Val>::empty()) =~= Seq::<ValV>::empty());
        }
        Statement { sql, args: Vec::new() }
    }

    /// The insert for this record's current values: columns, placeholders
    /// and binds are appended together, one per included field, so the
    /// statement's placeholder count always equals its bind count.
    pub fn create_stmt(&self, now: i64) -> (st: Statement)
        ensures
            st@ == create_stmt_spec(self@, now),
    {
        let ghost fv = self@.fields;
        let mut cols: Vec<String> = Vec::new();
        let mut phs: Vec<String> = Vec::new();
        let mut args: Vec<Val> = Vec::new();
        let mut i: usize = 0;
        while i < self.fields.len()
            invariant
                i <= self.fields.len(),
                fv == self@.fields,
                cols@.map_values(|s: String| s@) == create_cols(fv.take(i as int)),
                val_views(args@) == create_vals(fv.take(i as int), now),
                phs@.len() == cols@.len(),
                forall|j: int|
                    0 <= j < phs@.len() ==> #[trigger] phs@[j]@ == text::placeholder_text(
                        (j + 1) as nat,
                    ),
            decreases self.fields.len() - i,
        {
            let f = &self.fields[i];
            proof {
                assert(fv[i as int] == f@);
            }
            let k = classify(f);
            match k {
                FieldKind::Identity => {},
                FieldKind::Other => {},
                FieldKind::CreatedAt => {
                    let unset = match &f.data {
                        FieldData::I8(x) => *x == 0,
                        FieldData::I16(x) => *x == 0,
                        FieldData::I32(x) => *x == 0,
                        FieldData::I64(x) => *x == 0,
                        _ => false,
                    };
                    if unset {
                        cols.push(f.name.clone());
                        let n = cols.len();
                        phs.push(text::fmt_placeholder(n));
                        args.push(Val::I64(now));
                    }
                },
                FieldKind::UpdatedAt => {
                    cols.push(f.name.clone());
                    let n = cols.len();
                    phs.push(text::fmt_placeholder(n));
                    args.push(Val::I64(now));
                },
                FieldKind::Text => {
                    match &f.data {
                        FieldData::Text(s) => {
                            if !s.as_str().is_empty() {
                                cols.push(f.name.clone());
                                let n = cols.len();
                                phs.push(text::fmt_placeholder(n));
                                args.push(Val::Text(s.clone()));
                            }
                        },
                        _ => {},
                    }
                },
                FieldKind::Integer => {
                    let v = match &f.data {
                        FieldData::I8(x) => Val::I8(*x),
                        FieldData::I16(x) => Val::I16(*x),
                        FieldData::I32(x) => Val::I32(*x),
                        FieldData::I64(x) => Val::I64(*x),
                        _ => Val::I64(0),
                    };
                    cols.push(f.name.clone());
                    let n = cols.len();
                    phs.push(text::fmt_placeholder(n));
                    args.push(v);
                },
            }
            proof {
                let pre = fv.take(i as int);
                let post = fv.take(i + 1 as int);
                assert(post.drop_last() =~= pre);
                assert(post.last() == f@);
                if create_included(f@) {
                    assert(create_cols(post) =~= create_cols(pre).push(f@.name));
                    assert(create_vals(post, now) =~= create_vals(pre, now).push(
                        create_bind_val(f@, now),
                    ));
                } else {
                    assert(create_cols(post) =~= create_cols(pre));
                    assert(create_vals(post, now) =~= create_vals(pre, now));
                }
                assert(cols@.map_values(|s: String| s@) =~= create_cols(post));
                assert(val_views(args@) =~= create_vals(post, now));
            }
            i = i + 1;
        }
        proof {
            assert(fv.take(self.fields@.len() as int) =~= fv);
            assert(phs@.map_values(|s: String| s@) =~= placeholder_list(cols@.len() as nat));
        }
        let cols_csv = text::join_sep_strs(&cols, ",");
        let phs_csv = text::join_sep_strs(&phs, ",");
        let mut sql = String::from_str("INSERT INTO ");
        sql.append(self.table.as_str());
        sql.append(" (");
        sql.append(cols_csv.as_str());
        sql.append(") VALUES (");
        sql.append(phs_csv.as_str());
        sql.append(")");
        proof {
            assert(sql@ =~= insert_sql(self@));
        }
        Statement { sql, args }
    }

    /// The conflict-tolerant insert: the plain insert plus `ON CONFLICT
    /// (<skip_field>) DO NOTHING`, with the same binds.
    pub fn create_or_skip_by_stmt(&self, now: i64, skip_field: &str) -> (st: Statement)
        requires
            self.spec_has_field(skip_field@),
        ensures
            st@ == create_or_skip_stmt_spec(self@, now, skip_field@),
    {
        let mut st = self.create_stmt(now);
        st.sql.append(" ON CONFLICT (");
        st.sql.append(skip_field);
        st.sql.append(") DO NOTHING");
        proof {
            assert(st@.sql =~= create_or_skip_stmt_spec(self@, now, skip_field@).sql);
        }
        st
    }

    /// The explicit-field update of this record's own row: sets the caller's
    /// (field, value) pairs in order, then the automatic `updated`
    /// timestamp, targeted by the identity value rendered into the text.
    pub fn update_stmt(&self, set_fields: &Vec<(String, Val)>, now: i64) -> (st: Statement)
        requires
            self.wf(),
            set_fields@.len() < usize::MAX,
        ensures
            st@ == update_stmt_spec(self@, set_fields@, now, self.spec_id()),
    {
        let ghost fv = self@.fields;
        let ghost ps = set_fields@;
        let mut frags: Vec<String> = Vec::new();
        let mut args: Vec<Val> = Vec::new();
        let mut i: usize = 0;
        while i < set_fields.len()
            invariant
                i <= set_fields.len(),
                ps == set_fields@,
                frags@.len() == i,
                frags@.map_values(|s: String| s@) == set_frags(pair_names(ps.take(i as int))),
                args@.len() == i,
                forall|j: int| 0 <= j < i ==> #[trigger] args@[j]@ == ps[j].1@,
            decreases set_fields.len() - i,
        {
            let p = &set_fields[i];
            let mut frag = p.0.clone();
            frag.append(" = ");
            let ph = text::fmt_placeholder(i + 1);
            frag.append(ph.as_str());
            proof {
                assert(frag@ =~= set_frag(ps[i as int].0@, (i + 1) as nat));
            }
            frags.push(frag);
            args.push(p.1.duplicate());
            proof {
                let pre = pair_names(ps.take(i as int));
                let post = pair_names(ps.take(i + 1 as int));
                assert(post.drop_last() =~= pre);
                assert(post.last() == ps[i as int].0@);
                assert(frags@.map_values(|s: String| s@) =~= set_frags(post));
            }
            i = i + 1;
        }
        proof {
            assert(ps.take(set_fields@.len() as int) =~= ps);
        }
        let has_upd = self.has_field("updated");
        proof {
            if self.spec_has_field("updated"@) {
                let w = choose|j: int|
                    0 <= j < fv.len() && #[trigger] self@.fields[j].name == "updated"@;
                assert(fv[w].name == "updated"@);
                assert(has_updated(fv));
            }
            if has_updated(fv) {
                let w = choose|j: int| 0 <= j < fv.len() && #[trigger] fv[j].name == "updated"@;
                assert(self@.fields[w].name == "updated"@);
                assert(self.spec_has_field("updated"@));
            }
        }
        if has_upd {
            let ghost names = pair_names(ps);
            let mut frag = String::from_str("updated");
            frag.append(" = ");
            let ph = text::fmt_placeholder(frags.len() + 1);
            frag.append(ph.as_str());
            proof {
                assert(frag@ =~= set_frag("updated"@, (names.len() + 1) as nat));
            }
            frags.push(frag);
            args.push(Val::I64(now));
            proof {
                assert(names.push("updated"@).drop_last() =~= names);
                assert(frags@.map_values(|s: String| s@) =~= set_frags(
                    with_updated_col(names, true),
                ));
            }
        }
        proof {
            assert(val_views(args@) =~= with_updated_val(pair_vals(ps), has_updated(fv), now));
        }
        let set_csv = text::join_sep_strs(&frags, ",");
        let id = self.id();
        let id_text = text::fmt_i64(id);
        let mut sql = String::from_str("UPDATE ");
        sql.append(self.table.as_str());
        sql.append(" SET ");
        sql.append(set_csv.as_str());
        sql.append(" WHERE id = ");
        sql.append(id_text.as_str());
        proof {
            assert(sql@ =~= update_stmt_spec(self@, ps, now, self.spec_id()).sql);
        }
        Statement { sql, args }
    }

    /// The full-row overwrite of this record's own row: every
    /// currently-included field in declaration order (empty text omitted
    /// entirely, never set to the empty string), then the automatic
    /// `updated` timestamp, targeted by identity.
    pub fn save_stmt(&self, now: i64) -> (st: Statement)
        requires
            self.wf(),
            self@.fields.len() < usize::MAX,
        ensures
            st@ == save_stmt_spec(self@, now, self.spec_id()),
    {
        let ghost fv = self@.fields;
        let mut frags: Vec<String> = Vec::new();
        let mut args: Vec<Val> = Vec::new();
        let mut i: usize = 0;
        while i < self.fields.len()
            invariant
                i <= self.fields.len(),
                fv == self@.fields,
                frags@.len() == save_cols(fv.take(i as int)).len(),
                frags@.len() <= i,
                frags@.map_values(|s: String| s@) == set_frags(save_cols(fv.take(i as int))),
                val_views(args@) == save_vals(fv.take(i as int)),
            decreases self.fields.len() - i,
        {
            let f = &self.fields[i];
            proof {
                assert(fv[i as int] == f@);
            }
            let k = classify(f);
            let include_val: Option<Val> = match k {
                FieldKind::Text => match &f.data {
                    FieldData::Text(s) => if !s.as_str().is_empty() {
                        Some(Val::Text(s.clone()))
                    } else {
                        None
                    },
                    _ => None,
                },
                FieldKind::Integer => match &f.data {
                    FieldData::I8(x) => Some(Val::I8(*x)),
                    FieldData::I16(x) => Some(Val::I16(*x)),
                    FieldData::I32(x) => Some(Val::I32(*x)),
                    FieldData::I64(x) => Some(Val::I64(*x)),
                    _ => None,
                },
                _ => None,
            };
            match include_val {
                Some(v) => {
                    let mut frag = f.name.clone();
                    frag.append(" = ");
                    let ph = text::fmt_placeholder(frags.len() + 1);
                    frag.append(ph.as_str());
                    proof {
                        assert(frag@ =~= set_frag(f@.name, (frags@.len() + 1) as nat));
                    }
                    frags.push(frag);
                    args.push(v);
                },
                None => {},
            }
            proof {
                let pre = fv.take(i as int);
                let post = fv.take(i + 1 as int);
                assert(post.drop_last() =~= pre);
                assert(post.last() == f@);
                if save_included(f@) {
                    assert(save_cols(pre).push(f@.name).drop_last() =~= save_cols(pre));
                    assert(save_cols(post) =~= save_cols(pre).push(f@.name));
                    assert(save_vals(post) =~= save_vals(pre).push(data_val(f@.data)));
                    assert(set_frags(save_cols(post)) =~= set_frags(save_cols(pre)) + seq![
                        set_frag(f@.name, (save_cols(pre).len() + 1) as nat),
                    ]);
                } else {
                    assert(save_cols(post) =~= save_cols(pre));
                    assert(save_vals(post) =~= save_vals(pre));
                }
                assert(frags@.map_values(|s: String| s@) =~= set_frags(save_cols(post)));
                assert(val_views(args@) =~= save_vals(post));
            }
            i = i + 1;
        }
        proof {
            assert(fv.take(self.fields@.len() as int) =~= fv);
        }
        let has_upd = self.has_field("updated");
        proof {
            if self.spec_has_field("updated"@) {
                let w = choose|j: int|
                    0 <= j < fv.len() && #[trigger] self@.fields[j].name == "updated"@;
                assert(fv[w].name == "updated"@);
                assert(has_updated(fv));
            }
            if has_updated(fv) {
                let w = choose|j: int| 0 <= j < fv.len() && #[trigger] fv[j].name == "updated"@;
                assert(self@.fields[w].name == "updated"@);
                assert(self.spec_has_field("updated"@));
            }
        }
        if has_upd {
            let ghost names = save_cols(fv);
            let mut frag = String::from_str("updated");
            frag.append(" = ");
            let ph = text::fmt_placeholder(frags.len() + 1);
            frag.append(ph.as_str());
            proof {
                assert(frag@ =~= set_frag("updated"@, (names.len() + 1) as nat));
            }
            frags.push(frag);
            args.push(Val::I64(now));
            proof {
                assert(names.push("updated"@).drop_last() =~= names);
                assert(frags@.map_values(|s: String| s@) =~= set_frags(
                    with_updated_col(names, true),
                ));
                assert(val_views(args@) =~= with_updated_val(save_vals(fv), true, now));
            }
        }
        let set_csv = text::join_sep_strs(&frags, ",");
        let id = self.id();
        let id_text = text::fmt_i64(id);
        let mut sql = String::from_str("UPDATE ");
        sql.append(self.table.as_str());
        sql.append(" SET ");
        sql.append(set_csv.as_str());
        sql.append(" WHERE id = ");
        sql.append(id_text.as_str());
        proof {
            assert(sql@ =~= save_stmt_spec(self@, now, self.spec_id()).sql);
        }
        Statement { sql, args }
    }
}

} // verus!
