//! The scripting engine's values, as far as this library handles them.
//!
//! A `Value` and a `FrozenValue` are handles: the library carries them and
//! hands them back to the engine, and never looks inside one.

use crate::result::ErrorReport;
use starlark::values::FreezeError;
use starlark::values::Freezer;
use starlark::values::FrozenValue;
use starlark::values::Value;
use vstd::prelude::*;

verus! {

/// `starlark::values::Value`: a handle to a value on an evaluator's heap.
#[verifier::external_type_specification]
#[verifier::external_body]
pub struct ExValue<'v>(Value<'v>);

/// `starlark::values::FrozenValue`: a handle to a value that no longer
/// changes.
#[verifier::external_type_specification]
#[verifier::external_body]
pub struct ExFrozenValue(FrozenValue);

/// `starlark::values::Freezer`: what the engine freezes values with.
#[verifier::external_type_specification]
#[verifier::external_body]
pub struct ExFreezer(Freezer);

/// `starlark::values::FreezeError`: why the engine could not freeze a value.
#[verifier::external_type_specification]
#[verifier::external_body]
pub struct ExFreezeError(FreezeError);

/// `indexmap::IndexSet`: a set that keeps the order of insertion.
#[verifier::external_type_specification]
#[verifier::external_body]
#[verifier::reject_recursive_types(T)]
#[verifier::reject_recursive_types(S)]
pub struct ExIndexSet<T, S>(indexmap::IndexSet<T, S>);

/// `anyhow::Error`: an error with its chain of causes.
#[verifier::external_type_specification]
#[verifier::external_body]
pub struct ExAnyhowError(anyhow::Error);

/// The value that a reader gets for a frozen value: what
/// `FrozenValue::to_value` returns for it.
pub uninterp spec fn thawed(frozen: FrozenValue) -> Value<'static>;

/// `value` is a frozen value that was handed out for reading.
pub open spec fn is_frozen<'v>(value: Value<'v>) -> bool {
    exists|frozen: FrozenValue| value == #[trigger] thawed(frozen)
}

/// `FrozenValue::to_value`: the same object, seen as a value of the caller's
/// heap. The handle that comes back depends on the frozen handle alone.
#[verifier::external_body]
pub(crate) fn frozen_to_value<'v>(frozen: FrozenValue) -> (value: Value<'v>)
    ensures
        value == thawed(frozen),
{
    frozen.to_value()
}

/// `Freeze::freeze` for a `Value`, which is `Freezer::freeze`. A value that
/// is frozen already comes back as the frozen value that it was read from.
/// Of any other value nothing is promised: the outcome depends on the heap
/// that the freezer fills.
#[verifier::external_body]
pub(crate) fn freeze_value<'v>(value: Value<'v>, freezer: &Freezer) -> (outcome: Result<
    FrozenValue,
    FreezeError,
>)
    ensures
        is_frozen(value) ==> outcome is Ok && thawed(outcome->Ok_0) == value,
{
    starlark::values::Freeze::freeze(value, freezer)
}

/// What the engine's `repr` makes of a string: the string in double quotes,
/// with the characters escaped that the engine escapes.
pub uninterp spec fn starlark_repr(s: Seq<char>) -> Seq<char>;

/// `StarlarkStr::repr`: the text depends on the string alone.
#[verifier::external_body]
pub(crate) fn string_repr(s: &str) -> (quoted: String)
    ensures
        quoted@ == starlark_repr(s@),
{
    starlark::values::string::StarlarkStr::repr(s)
}

/// The `Display` form of a value, which the engine renders from what the
/// value holds at the time of the call. Nothing is promised of the text.
#[verifier::external_body]
pub(crate) fn value_text<'v>(value: Value<'v>) -> (text: String) {
    format!("{}", value)
}

/// `display_container::fmt_container` with one item, in the plain (not the
/// alternate) form: the prefix, the item, the suffix, with nothing between.
#[verifier::external_body]
pub(crate) fn container_text(prefix: &str, suffix: &str, item: &str) -> (text: String)
    ensures
        text@ == prefix@ + item@ + suffix@,
{
    format!("{}", std::fmt::from_fn(|f| display_container::fmt_container(f, prefix, suffix, [item])))
}

/// `Display` and `Debug` of an `anyhow::Error`, taken once. The texts are
/// anyhow's to choose (a captured backtrace is part of the second), so nothing
/// is promised of them.
#[verifier::external_body]
pub(crate) fn report_of(error: &anyhow::Error) -> (report: ErrorReport) {
    ErrorReport { display: format!("{}", error), debug: format!("{:?}", error) }
}

/// `String::push_str` appends the slice to the string.
pub assume_specification[ String::push_str ](s: &mut String, string: &str)
    ensures
        final(s)@ == old(s)@ + string@,
;

} // verus!
