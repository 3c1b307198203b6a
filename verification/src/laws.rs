//! Properties that hold of the generated statements for every schema,
//! stated and proved over the same spec functions the statement contracts
//! use.

use vstd::prelude::*;
use crate::cond::CondV;
use crate::schema::{FieldDataV, FieldKind, FieldV, RecordV, int_value, spec_classify};
use crate::stmt::{
    count_by_cond_stmt_spec, create_cols, create_included, create_vals, pair_names, pair_vals,
    save_cols, save_included, save_vals, select_by_cond_stmt_spec, set_frags,
    update_all_by_field_stmt_spec, update_by_field_stmt_spec, with_updated_col, with_updated_val,
};
use crate::value::{Val, ValV};

verus! {

/// An insert's placeholder count always equals its bind count: columns and
/// bind values are appended together, one per included field.
pub proof fn lemma_create_placeholder_arg_balance(fs: Seq<FieldV>, now: i64)
    ensures
        create_cols(fs).len() == create_vals(fs, now).len(),
    decreases fs.len(),
{
    if fs.len() > 0 {
        lemma_create_placeholder_arg_balance(fs.drop_last(), now);
    }
}

/// A full-row save binds exactly one value per SET column.
pub proof fn lemma_save_placeholder_arg_balance(fs: Seq<FieldV>)
    ensures
        save_cols(fs).len() == save_vals(fs).len(),
    decreases fs.len(),
{
    if fs.len() > 0 {
        lemma_save_placeholder_arg_balance(fs.drop_last());
    }
}

/// A SET clause renders exactly one fragment per column name.
pub proof fn lemma_set_frags_len(names: Seq<Seq<char>>)
    ensures
        set_frags(names).len() == names.len(),
    decreases names.len(),
{
    if names.len() > 0 {
        lemma_set_frags_len(names.drop_last());
    }
}

/// An explicit-field update renders one SET fragment per bound value: the
/// caller's pairs contribute one each, and the automatic timestamp adds one
/// fragment and one bind together.
pub proof fn lemma_update_placeholder_arg_balance(
    ps: Seq<(String, Val)>,
    has_upd: bool,
    now: i64,
)
    ensures
        set_frags(with_updated_col(pair_names(ps), has_upd)).len() == with_updated_val(
            pair_vals(ps),
            has_upd,
            now,
        ).len(),
{
    lemma_set_frags_len(with_updated_col(pair_names(ps), has_upd));
}

/// A full-row save renders one SET fragment per bound value, the automatic
/// timestamp included.
pub proof fn lemma_save_set_balance(fs: Seq<FieldV>, has_upd: bool, now: i64)
    ensures
        set_frags(with_updated_col(save_cols(fs), has_upd)).len() == with_updated_val(
            save_vals(fs),
            has_upd,
            now,
        ).len(),
{
    lemma_save_placeholder_arg_balance(fs);
    lemma_set_frags_len(with_updated_col(save_cols(fs), has_upd));
}

/// A field that every insert and full-row save writes regardless of its
/// current value: the two timestamps and the integer fields.
pub open spec fn always_written(f: FieldV) -> bool {
    spec_classify(f) == FieldKind::CreatedAt || spec_classify(f) == FieldKind::UpdatedAt
        || spec_classify(f) == FieldKind::Integer
}

/// The names of the always-written fields, in declaration order.
pub open spec fn always_written_names(fs: Seq<FieldV>) -> Seq<Seq<char>>
    decreases fs.len(),
{
    if fs.len() == 0 {
        Seq::empty()
    } else {
        always_written_names(fs.drop_last()) + if always_written(fs.last()) {
            seq![fs.last().name]
        } else {
            Seq::empty()
        }
    }
}

/// With every text field empty and the creation timestamp unset, the insert
/// writes exactly the non-identity fields that are not excluded (empty text
/// and opaque fields): the two timestamps and every integer field, in
/// declaration order. Its placeholder count equals its bind count.
pub proof fn lemma_create_shape_with_defaults(fs: Seq<FieldV>, now: i64)
    requires
        forall|i: int|
            0 <= i < fs.len() && spec_classify(#[trigger] fs[i]) == FieldKind::Text
                ==> (fs[i].data matches FieldDataV::Text(s) && s.len() == 0),
        forall|i: int|
            0 <= i < fs.len() && spec_classify(#[trigger] fs[i]) == FieldKind::CreatedAt
                ==> int_value(fs[i].data) == Some(0int),
    ensures
        create_cols(fs) == always_written_names(fs),
        create_cols(fs).len() == create_vals(fs, now).len(),
    decreases fs.len(),
{
    lemma_create_placeholder_arg_balance(fs, now);
    if fs.len() > 0 {
        let prefix = fs.drop_last();
        assert forall|i: int|
            0 <= i < prefix.len() && spec_classify(#[trigger] prefix[i]) == FieldKind::Text
                implies (prefix[i].data matches FieldDataV::Text(s) && s.len() == 0) by {
            assert(prefix[i] == fs[i]);
        }
        assert forall|i: int|
            0 <= i < prefix.len() && spec_classify(#[trigger] prefix[i]) == FieldKind::CreatedAt
                implies int_value(prefix[i].data) == Some(0int) by {
            assert(prefix[i] == fs[i]);
        }
        lemma_create_shape_with_defaults(prefix, now);
        assert(create_included(fs.last()) == always_written(fs.last()));
    }
}

/// Two inserts for the same record issued at different instants bind
/// different values: while the creation timestamp is unset, the timestamp
/// bound for it differs whenever the instants differ.
pub proof fn lemma_create_binds_fresh_timestamp(fs: Seq<FieldV>, now1: i64, now2: i64)
    requires
        now1 != now2,
        exists|i: int|
            0 <= i < fs.len() && spec_classify(#[trigger] fs[i]) == FieldKind::CreatedAt
                && int_value(fs[i].data) == Some(0int),
    ensures
        create_vals(fs, now1) != create_vals(fs, now2),
    decreases fs.len(),
{
    let w = choose|i: int|
        0 <= i < fs.len() && spec_classify(#[trigger] fs[i]) == FieldKind::CreatedAt && int_value(
            fs[i].data,
        ) == Some(0int);
    let prefix = fs.drop_last();
    let a1 = create_vals(prefix, now1);
    let a2 = create_vals(prefix, now2);
    lemma_create_placeholder_arg_balance(prefix, now1);
    lemma_create_placeholder_arg_balance(prefix, now2);
    if w == fs.len() - 1 {
        assert(create_included(fs.last()));
        assert(create_vals(fs, now1).last() == ValV::I64(now1));
        assert(create_vals(fs, now2).last() == ValV::I64(now2));
        assert(create_vals(fs, now1).len() == create_vals(fs, now2).len());
        if create_vals(fs, now1) == create_vals(fs, now2) {
            assert(false);
        }
    } else {
        assert(prefix[w] == fs[w]);
        lemma_create_binds_fresh_timestamp(prefix, now1, now2);
        if create_vals(fs, now1) == create_vals(fs, now2) {
            assert forall|j: int| 0 <= j < a1.len() implies a1[j] == a2[j] by {
                assert(create_vals(fs, now1)[j] == a1[j]);
                assert(create_vals(fs, now2)[j] == a2[j]);
            }
            assert(a1 =~= a2);
            assert(false);
        }
    }
}

/// For one condition, the paginated fetch's content statement and its
/// parallel count statement receive identical argument lists in identical
/// order: the condition's own arguments.
pub proof fn lemma_cond_pair_args_identical(r: RecordV, c: CondV)
    ensures
        select_by_cond_stmt_spec(r, c).args == count_by_cond_stmt_spec(r, c).args,
        select_by_cond_stmt_spec(r, c).args == c.args,
{
}

/// The one-row and all-rows per-field updates differ only by the row limit
/// suffix, and both bind the new value first and the old value second.
pub proof fn lemma_update_by_field_limit_only(
    r: RecordV,
    field: Seq<char>,
    value_new: ValV,
    value_old: ValV,
)
    ensures
        update_by_field_stmt_spec(r, field, value_new, value_old).sql
            == update_all_by_field_stmt_spec(r, field, value_new, value_old).sql + " LIMIT 1"@,
        update_by_field_stmt_spec(r, field, value_new, value_old).args == seq![
            value_new,
            value_old,
        ],
        update_all_by_field_stmt_spec(r, field, value_new, value_old).args == seq![
            value_new,
            value_old,
        ],
{
}

proof fn lemma_save_cols_source(fs: Seq<FieldV>, n: Seq<char>)
    requires
        save_cols(fs).contains(n),
    ensures
        exists|j: int| 0 <= j < fs.len() && fs[j].name == n && save_included(#[trigger] fs[j]),
    decreases fs.len(),
{
    let prefix = fs.drop_last();
    if fs.len() > 0 && save_included(fs.last()) && fs.last().name == n {
        assert(fs[fs.len() - 1].name == n && save_included(fs[fs.len() - 1]));
    } else {
        assert(fs.len() > 0);
        assert(save_cols(prefix).contains(n)) by {
            let k = choose|k: int| 0 <= k < save_cols(fs).len() && save_cols(fs)[k] == n;
            if save_included(fs.last()) {
                assert(k < save_cols(prefix).len());
                assert(save_cols(prefix)[k] == n);
            } else {
                assert(save_cols(fs) =~= save_cols(prefix));
                assert(save_cols(prefix)[k] == n);
            }
        }
        lemma_save_cols_source(prefix, n);
        let j = choose|j: int|
            0 <= j < prefix.len() && prefix[j].name == n && save_included(#[trigger] prefix[j]);
        assert(fs[j] == prefix[j]);
    }
}

/// A full-row save omits an empty text field from its SET clause entirely:
/// when the only field of its name holds empty text, no written column
/// carries that name.
pub proof fn lemma_save_omits_empty_text(fs: Seq<FieldV>, i: int)
    requires
        0 <= i < fs.len(),
        spec_classify(fs[i]) == FieldKind::Text,
        fs[i].data matches FieldDataV::Text(s) && s.len() == 0,
        forall|j: int| 0 <= j < fs.len() && j != i ==> #[trigger] fs[j].name != fs[i].name,
    ensures
        !with_updated_col(save_cols(fs), crate::schema::has_updated(fs)).contains(fs[i].name),
{
    let n = fs[i].name;
    let cols = with_updated_col(save_cols(fs), crate::schema::has_updated(fs));
    if cols.contains(n) {
        let k = choose|k: int| 0 <= k < cols.len() && cols[k] == n;
        if crate::schema::has_updated(fs) && k == cols.len() - 1 {
            assert(n == "updated"@);
            assert(spec_classify(fs[i]) == FieldKind::UpdatedAt);
            assert(false);
        } else {
            assert(save_cols(fs)[k] == n);
            assert(save_cols(fs).contains(n));
            lemma_save_cols_source(fs, n);
            let j = choose|j: int|
                0 <= j < fs.len() && fs[j].name == n && save_included(#[trigger] fs[j]);
            assert(j == i);
            assert(!save_included(fs[i]));
            assert(false);
        }
    }
}

} // verus!
