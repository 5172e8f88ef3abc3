//! How a table name is told apart from the names of internal tables.
//!
//! The rule is a pattern, and the `regex` crate reads it: a name is taken
//! for an internal table's where the pattern matches somewhere in it. What
//! the pattern asks for is also written down here as `has_reserved_shape`,
//! for the digits `0` to `9`, and a generated name is shown to have that
//! shape unless a line break came in with one of its parts. That the
//! compiled expression finds the names of that shape is the `regex` crate's
//! part and is not proved.

use crate::case::lowercase;
use crate::decimal::{decimal, is_decimal_digit, lemma_decimal_is_digits};
use crate::expression::{compiled, finds_match};
use crate::name::{generated_name, INTERNAL_TABLE_NAME_PREFIX};
use regex::Regex;
use vstd::prelude::*;

verus! {

/// The pattern that the names of internal tables match: the prefix, anything
/// on the same line, an underscore and one or more digits.
pub const INTERNAL_TABLE_NAME_PATTERN: &'static str = r"__internal_.*_\d+";

/// Whether the pattern of internal table names is one that can be compiled.
pub open spec fn pattern_compiles() -> bool {
    compiled(INTERNAL_TABLE_NAME_PATTERN@) is Some
}

/// Whether the pattern of internal table names matches somewhere in `name`.
pub open spec fn looks_internal(name: Seq<char>) -> bool {
    finds_match(compiled(INTERNAL_TABLE_NAME_PATTERN@)->0, name)
}

/// The pattern of internal table names, compiled once for any number of
/// names.
pub struct InternalTableNamePattern {
    expression: Regex,
}

impl InternalTableNamePattern {
    #[verifier::type_invariant]
    spec fn holds_the_pattern(&self) -> bool {
        compiled(INTERNAL_TABLE_NAME_PATTERN@) == Some(self.expression)
    }

    /// Compiles the pattern. `None` means that it cannot be compiled.
    pub fn compile() -> (pattern: Option<InternalTableNamePattern>)
        ensures
            pattern is Some <==> pattern_compiles(),
    {
        match Regex::new(INTERNAL_TABLE_NAME_PATTERN) {
            Ok(expression) => Some(InternalTableNamePattern { expression }),
            Err(_) => None,
        }
    }

    /// Whether `table_name` is free for a user's table: `false` where it
    /// looks like the name of an internal table.
    pub fn is_valid_table_name(&self, table_name: &str) -> (valid: bool)
        ensures
            valid == !looks_internal(table_name@),
    {
        proof {
            use_type_invariant(self);
        }
        !self.expression.is_match(table_name)
    }
}

/// Whether `table_name` is free for a user's table: `false` where it looks
/// like the name of an internal table.
///
/// The pattern is compiled at each call; hold an `InternalTableNamePattern`
/// to compile it once.
pub fn valid_table_name(table_name: &str) -> (valid: bool)
    requires
        pattern_compiles(),
    ensures
        valid == !looks_internal(table_name@),
{
    match InternalTableNamePattern::compile() {
        Some(pattern) => pattern.is_valid_table_name(table_name),
        None => unreached(),
    }
}

/// `valid_table_name` for a caller that does not know whether the pattern
/// can be compiled: `None` where it cannot.
pub fn try_valid_table_name(table_name: &str) -> (valid: Option<bool>)
    ensures
        valid is Some <==> pattern_compiles(),
        valid matches Some(v) ==> v == !looks_internal(table_name@),
{
    if InternalTableNamePattern::compile().is_some() {
        Some(valid_table_name(table_name))
    } else {
        None
    }
}

/// Whether `name` holds the prefix at `start` and, behind it and with no
/// line break between, an underscore at `underscore` with a digit `0` to `9`
/// next to it.
pub open spec fn reserved_shape_at(name: Seq<char>, start: int, underscore: int) -> bool {
    &&& 0 <= start
    &&& start + INTERNAL_TABLE_NAME_PREFIX@.len() <= underscore
    &&& underscore + 1 < name.len()
    &&& name.subrange(start, start + INTERNAL_TABLE_NAME_PREFIX@.len())
        == INTERNAL_TABLE_NAME_PREFIX@
    &&& forall|k: int|
        start + INTERNAL_TABLE_NAME_PREFIX@.len() <= k < underscore ==> #[trigger] name[k] != '\n'
    &&& name[underscore] == '_'
    &&& is_decimal_digit(name[underscore + 1])
}

/// Whether `name` has the shape of an internal table's name: somewhere the
/// prefix and, behind it on the same line, an underscore with a digit `0` to
/// `9` next to it.
pub open spec fn has_reserved_shape(name: Seq<char>) -> bool {
    exists|start: int, underscore: int| reserved_shape_at(name, start, underscore)
}

/// A generated name ends with an underscore and the table's id, and it has
/// the reserved shape unless the materialized view's name or the lowercase
/// type tag holds a line break.
pub proof fn lemma_generated_name_has_reserved_shape(
    mview_name: Seq<char>,
    fragment_id: u32,
    table_id: u32,
    table_type: Seq<char>,
)
    ensures
        (seq!['_'] + decimal(table_id as nat)).is_suffix_of(
            generated_name(mview_name, fragment_id, table_id, table_type),
        ),
        !mview_name.contains('\n') && !lowercase(table_type).contains('\n') ==> has_reserved_shape(
            generated_name(mview_name, fragment_id, table_id, table_type),
        ),
{
    let name = generated_name(mview_name, fragment_id, table_id, table_type);
    let digits = decimal(table_id as nat);
    let prefix = INTERNAL_TABLE_NAME_PREFIX@;
    lemma_decimal_is_digits(fragment_id as nat);
    lemma_decimal_is_digits(table_id as nat);
    let underscore: int = name.len() - digits.len() - 1;
    assert(name.subrange(underscore, name.len() as int) == seq!['_'] + digits);
    if !mview_name.contains('\n') && !lowercase(table_type).contains('\n') {
        assert(name.subrange(0, prefix.len() as int) == prefix);
        assert(name[underscore + 1] == digits[0]);
        assert(reserved_shape_at(name, 0, underscore));
    }
}

} // verus!
