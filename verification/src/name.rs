//! How the name of an internal table is made.

use crate::case::lowercase;
use crate::decimal::{
    decimal, is_decimal_digit, lemma_decimal_is_digits, lemma_decimal_is_injective, push_decimal,
};
use vstd::prelude::*;
use vstd::utf8::encode_utf8;

verus! {

/// The name under which the catalog's introspection speaks of the current
/// table.
pub const RW_TABLE_FUNCTION_NAME: &'static str = "rw_table";

/// What every internal table's name begins with.
pub const INTERNAL_TABLE_NAME_PREFIX: &'static str = "__internal_";

/// What stands between the parts of an internal table's name.
pub const INTERNAL_TABLE_NAME_SEPARATOR: &'static str = "_";

/// The name made of these parts: the prefix, then the materialized view's
/// name, the fragment's id, the type tag and the table's id, each pair with
/// an underscore between. The tag goes in as it is given.
pub open spec fn internal_table_name(
    mview_name: Seq<char>,
    fragment_id: u32,
    table_id: u32,
    table_type: Seq<char>,
) -> Seq<char> {
    INTERNAL_TABLE_NAME_PREFIX@ + mview_name + seq!['_'] + decimal(fragment_id as nat) + seq!['_']
        + table_type + seq!['_'] + decimal(table_id as nat)
}

/// The name of the internal table with these parts: `internal_table_name`
/// with the type tag in lowercase.
pub open spec fn generated_name(
    mview_name: Seq<char>,
    fragment_id: u32,
    table_id: u32,
    table_type: Seq<char>,
) -> Seq<char> {
    internal_table_name(mview_name, fragment_id, table_id, lowercase(table_type))
}

/// Joins the parts of an internal table's name. The type tag goes in as it
/// is given.
pub fn compose_internal_table_name(
    mview_name: &str,
    fragment_id: u32,
    table_id: u32,
    table_type: &str,
) -> (name: String)
    ensures
        name@ == internal_table_name(mview_name@, fragment_id, table_id, table_type@),
{
    proof {
        reveal_strlit("_");
    }
    let mut name = String::new();
    name.append(INTERNAL_TABLE_NAME_PREFIX);
    name.append(mview_name);
    name.append(INTERNAL_TABLE_NAME_SEPARATOR);
    push_decimal(&mut name, fragment_id);
    name.append(INTERNAL_TABLE_NAME_SEPARATOR);
    name.append(table_type);
    name.append(INTERNAL_TABLE_NAME_SEPARATOR);
    push_decimal(&mut name, table_id);
    name
}

/// The name of the internal table `table_id` of type `table_type` that
/// belongs to fragment `fragment_id` of the materialized view `mview_name`.
pub fn generate_internal_table_name_with_type(
    mview_name: &str,
    fragment_id: u32,
    table_id: u32,
    table_type: &str,
) -> (name: String)
    ensures
        name@ == generated_name(mview_name@, fragment_id, table_id, table_type@),
        (INTERNAL_TABLE_NAME_PREFIX@ + mview_name@).is_prefix_of(name@),
{
    let lowered = table_type.to_lowercase();
    compose_internal_table_name(mview_name, fragment_id, table_id, lowered.as_str())
}

/// A generated name begins with the prefix, and the materialized view's
/// name comes next.
pub proof fn lemma_generated_name_starts_with_mview(
    mview_name: Seq<char>,
    fragment_id: u32,
    table_id: u32,
    table_type: Seq<char>,
)
    ensures
        (INTERNAL_TABLE_NAME_PREFIX@ + mview_name).is_prefix_of(
            generated_name(mview_name, fragment_id, table_id, table_type),
        ),
{
}

/// The case of the type tag does not matter: two tags with the same
/// lowercase form give the same name.
pub proof fn lemma_generated_name_ignores_case(
    mview_name: Seq<char>,
    fragment_id: u32,
    table_id: u32,
    first_type: Seq<char>,
    second_type: Seq<char>,
)
    requires
        lowercase(first_type) == lowercase(second_type),
    ensures
        generated_name(mview_name, fragment_id, table_id, first_type) == generated_name(
            mview_name,
            fragment_id,
            table_id,
            second_type,
        ),
{
}

/// Two names generated from the same parts are the same, character for
/// character and byte for byte.
pub proof fn lemma_generation_is_deterministic(
    first: String,
    second: String,
    mview_name: Seq<char>,
    fragment_id: u32,
    table_id: u32,
    table_type: Seq<char>,
)
    requires
        first@ == generated_name(mview_name, fragment_id, table_id, table_type),
        second@ == generated_name(mview_name, fragment_id, table_id, table_type),
    ensures
        first@ == second@,
        encode_utf8(first@) == encode_utf8(second@),
{
}

/// Where digits and then an underscore begin one sequence, and digits and
/// then an underscore begin an equal one, the two runs of digits are equal
/// and so is what follows them.
proof fn lemma_digits_end_at_underscore(
    first: Seq<char>,
    first_rest: Seq<char>,
    second: Seq<char>,
    second_rest: Seq<char>,
)
    requires
        forall|i: int| 0 <= i < first.len() ==> is_decimal_digit(#[trigger] first[i]),
        forall|i: int| 0 <= i < second.len() ==> is_decimal_digit(#[trigger] second[i]),
        first + seq!['_'] + first_rest == second + seq!['_'] + second_rest,
    ensures
        first == second,
        first_rest == second_rest,
{
    let left = first + seq!['_'] + first_rest;
    let right = second + seq!['_'] + second_rest;
    if first.len() < second.len() {
        assert(left[first.len() as int] == '_');
        assert(right[first.len() as int] == second[first.len() as int]);
        assert(false);
    }
    if second.len() < first.len() {
        assert(right[second.len() as int] == '_');
        assert(left[second.len() as int] == first[second.len() as int]);
        assert(false);
    }
    assert(first =~= left.subrange(0, first.len() as int));
    assert(second =~= right.subrange(0, second.len() as int));
    assert(first_rest =~= left.subrange(first.len() as int + 1, left.len() as int));
    assert(second_rest =~= right.subrange(second.len() as int + 1, right.len() as int));
}

/// For one materialized view and one type tag, the name tells the ids: two
/// names are the same only where the fragment's id and the table's id are.
pub proof fn lemma_generated_name_tells_ids(
    mview_name: Seq<char>,
    table_type: Seq<char>,
    first_fragment_id: u32,
    first_table_id: u32,
    second_fragment_id: u32,
    second_table_id: u32,
)
    requires
        generated_name(mview_name, first_fragment_id, first_table_id, table_type) == generated_name(
            mview_name,
            second_fragment_id,
            second_table_id,
            table_type,
        ),
    ensures
        first_fragment_id == second_fragment_id,
        first_table_id == second_table_id,
{
    let head = INTERNAL_TABLE_NAME_PREFIX@ + mview_name + seq!['_'];
    let tag = lowercase(table_type) + seq!['_'];
    let first = generated_name(mview_name, first_fragment_id, first_table_id, table_type);
    let second = generated_name(mview_name, second_fragment_id, second_table_id, table_type);
    let first_fragment = decimal(first_fragment_id as nat);
    let second_fragment = decimal(second_fragment_id as nat);
    let first_table = decimal(first_table_id as nat);
    let second_table = decimal(second_table_id as nat);
    lemma_decimal_is_digits(first_fragment_id as nat);
    lemma_decimal_is_digits(second_fragment_id as nat);

    assert(first =~= head + (first_fragment + seq!['_'] + (tag + first_table)));
    assert(second =~= head + (second_fragment + seq!['_'] + (tag + second_table)));
    assert(first_fragment + seq!['_'] + (tag + first_table) =~= first.subrange(
        head.len() as int,
        first.len() as int,
    ));
    assert(second_fragment + seq!['_'] + (tag + second_table) =~= second.subrange(
        head.len() as int,
        second.len() as int,
    ));
    lemma_digits_end_at_underscore(
        first_fragment,
        tag + first_table,
        second_fragment,
        tag + second_table,
    );
    lemma_decimal_is_injective(first_fragment_id as nat, second_fragment_id as nat);
    assert(first_table =~= (tag + first_table).subrange(
        tag.len() as int,
        (tag + first_table).len() as int,
    ));
    assert(second_table =~= (tag + second_table).subrange(
        tag.len() as int,
        (tag + second_table).len() as int,
    ));
    lemma_decimal_is_injective(first_table_id as nat, second_table_id as nat);
}

} // verus!
