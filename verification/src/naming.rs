//! Table naming: the record type's name converted to a word-separated
//! lowercase form and then pluralized. Both conversions are pure string
//! utilities of an outside crate; their results are named rather than
//! restated, and the table name is the composition of the two.

use vstd::prelude::*;

verus! {

/// The snake_case form of a string, as inflector computes it.
pub uninterp spec fn snake_of(s: Seq<char>) -> Seq<char>;

/// The plural form of a string, as inflector computes it.
pub uninterp spec fn plural_of(s: Seq<char>) -> Seq<char>;

/// Relies on inflector's `cases::snakecase::to_snake_case`: the result is a
/// pure function of the input characters (word boundaries lowered and joined
/// with underscores), and the call returns on every input.
#[verifier::external_body]
fn to_snake_case(s: &str) -> (r: String)
    ensures
        r@ == snake_of(s@),
{
    inflector::cases::snakecase::to_snake_case(s)
}

/// Relies on inflector's `string::pluralize::to_plural`: the result is a pure
/// function of the input characters (a fixed table of pluralization rules),
/// and the call returns on every input.
#[verifier::external_body]
fn to_plural(s: &str) -> (r: String)
    ensures
        r@ == plural_of(s@),
{
    inflector::string::pluralize::to_plural(s)
}

/// The table name derived from a record type's name: its snake_case form,
/// pluralized.
pub open spec fn table_name_of(record_name: Seq<char>) -> Seq<char> {
    plural_of(snake_of(record_name))
}

/// Derives the table name for a record type's name.
pub fn derive_table_name(record_name: &str) -> (r: String)
    ensures
        r@ == table_name_of(record_name@),
{
    let snake = to_snake_case(record_name);
    to_plural(snake.as_str())
}

} // verus!
