//! The parameters of a dynamic lambda: what analysis collects while the rule
//! runs, and the frozen form that the build graph keeps.

use crate::engine::freeze_value;
use crate::engine::frozen_to_value;
use crate::engine::is_frozen;
use crate::engine::thawed;
use indexmap::IndexSet;
use starlark::values::FreezeError;
use starlark::values::Freezer;
use starlark::values::FrozenValue;
use starlark::values::Value;
use vstd::prelude::*;

verus! {

/// What identifies a dynamic lambda. No field holds a value of the engine, so
/// freezing moves these over as they are.
#[derive(Debug, PartialEq, Eq)]
pub struct DynamicLambdaStaticFields {
    /// The label of the owner that defined this lambda.
    pub owner: String,
    /// Input artifacts that must be materialized before the lambda runs, by
    /// identifier, in the order in which they were declared.
    pub dynamic: IndexSet<u64>,
    /// The artifacts that the lambda produces, by identifier.
    pub outputs: Box<[u64]>,
    /// The execution platform inherited from the owner, by identifier.
    pub execution_platform: u64,
}

/// The parameters while analysis still runs: every value lives on the
/// evaluator's heap.
#[derive(Debug)]
pub struct DynamicLambdaParams<'v> {
    /// The rule's attributes, a struct value.
    pub attributes: Option<Value<'v>>,
    /// The plugins of the rule.
    pub plugins: Option<Value<'v>>,
    /// The callable to invoke once the inputs are there.
    pub lambda: Value<'v>,
    /// A free argument handed to the callable.
    pub arg: Option<Value<'v>>,
    pub static_fields: DynamicLambdaStaticFields,
}

/// The parameters after freezing. Readers on any thread get the values back
/// through the accessors.
#[derive(Debug)]
pub struct FrozenDynamicLambdaParams {
    pub attributes: Option<FrozenValue>,
    pub plugins: Option<FrozenValue>,
    pub lambda: FrozenValue,
    pub arg: Option<FrozenValue>,
    pub static_fields: DynamicLambdaStaticFields,
}

/// The fields of the parameters that hold a value, in the order in which
/// they are frozen.
#[derive(Clone, Copy, Debug, PartialEq, Eq, Structural)]
pub enum ParamField {
    Attributes,
    Plugins,
    Lambda,
    Arg,
}

/// Freezing stopped at a field whose value the engine could not freeze.
#[derive(Debug)]
pub struct FreezeFailure {
    /// The first field that failed.
    pub field: ParamField,
    /// What the engine reported for it.
    pub cause: FreezeError,
}

/// A frozen value is not of the kind that its accessor hands out.
#[derive(Clone, Copy, Debug, PartialEq, Eq, Structural)]
pub enum InternalError {
    /// The stored plugins are no plugins value.
    PluginsKind,
}

/// `out` is a possible result of freezing the optional value `value` with
/// `freeze`: absent stays absent, and a value becomes one of the frozen values
/// that `freeze` may return for it.
pub open spec fn field_freezes_to<'v, F: Fn(Value<'v>) -> Result<FrozenValue, FreezeError>>(
    freeze: F,
    value: Option<Value<'v>>,
    out: Option<FrozenValue>,
) -> bool {
    match value {
        None => out is None,
        Some(v) => out matches Some(f) && call_ensures(freeze, (v,), Ok(f)),
    }
}

/// `freeze` may fail on the optional value `value` with `cause`.
pub open spec fn field_fails_with<'v, F: Fn(Value<'v>) -> Result<FrozenValue, FreezeError>>(
    freeze: F,
    value: Option<Value<'v>>,
    cause: FreezeError,
) -> bool {
    value matches Some(v) && call_ensures(freeze, (v,), Err(cause))
}

/// `freeze` may succeed on the optional value `value`.
pub open spec fn field_can_freeze<'v, F: Fn(Value<'v>) -> Result<FrozenValue, FreezeError>>(
    freeze: F,
    value: Option<Value<'v>>,
) -> bool {
    exists|out: Option<FrozenValue>| field_freezes_to(freeze, value, out)
}

/// `after` is what a field that held `before` may hold once `visit` has seen
/// it: nothing for nothing, and else a value that `visit` may return for the
/// value that it held.
pub open spec fn field_visited<'v, F: Fn(Value<'v>) -> Value<'v>>(
    visit: F,
    before: Option<Value<'v>>,
    after: Option<Value<'v>>,
) -> bool {
    match before {
        None => after is None,
        Some(v) => after matches Some(w) && call_ensures(visit, (v,), w),
    }
}

/// `freeze` may be called on `value`, if there is one.
pub open spec fn accepts<'v, F: Fn(Value<'v>) -> Result<FrozenValue, FreezeError>>(
    freeze: F,
    value: Option<Value<'v>>,
) -> bool {
    value matches Some(v) ==> call_requires(freeze, (v,))
}

impl ParamField {
    /// The place of the field in the order of freezing.
    pub open spec fn position(self) -> nat {
        match self {
            ParamField::Attributes => 0,
            ParamField::Plugins => 1,
            ParamField::Lambda => 2,
            ParamField::Arg => 3,
        }
    }
}

impl<'v> DynamicLambdaParams<'v> {
    /// The value that a field holds, if it holds one.
    pub open spec fn field(self, field: ParamField) -> Option<Value<'v>> {
        match field {
            ParamField::Attributes => self.attributes,
            ParamField::Plugins => self.plugins,
            ParamField::Lambda => Some(self.lambda),
            ParamField::Arg => self.arg,
        }
    }

    /// `out` is a possible result of freezing these parameters with `freeze`.
    pub open spec fn may_freeze_to<F: Fn(Value<'v>) -> Result<FrozenValue, FreezeError>>(
        self,
        freeze: F,
        out: FrozenDynamicLambdaParams,
    ) -> bool {
        &&& field_freezes_to(freeze, self.attributes, out.attributes)
        &&& field_freezes_to(freeze, self.plugins, out.plugins)
        &&& field_freezes_to(freeze, Some(self.lambda), Some(out.lambda))
        &&& field_freezes_to(freeze, self.arg, out.arg)
        &&& out.static_fields == self.static_fields
    }

    /// Freezing these parameters with `freeze` may stop at `field` with
    /// `cause`: `freeze` may fail so on that field's value, and may succeed on
    /// every field before it.
    pub open spec fn may_fail_at<F: Fn(Value<'v>) -> Result<FrozenValue, FreezeError>>(
        self,
        freeze: F,
        field: ParamField,
        cause: FreezeError,
    ) -> bool {
        &&& field_fails_with(freeze, self.field(field), cause)
        &&& forall|earlier: ParamField|
            earlier.position() < field.position() ==> field_can_freeze(
                freeze,
                #[trigger] self.field(earlier),
            )
    }

    /// `r` is a possible result of freezing these parameters with `freeze`.
    pub open spec fn may_return<F: Fn(Value<'v>) -> Result<FrozenValue, FreezeError>>(
        self,
        freeze: F,
        r: Result<FrozenDynamicLambdaParams, FreezeFailure>,
    ) -> bool {
        match r {
            Ok(out) => self.may_freeze_to(freeze, out),
            Err(failure) => self.may_fail_at(freeze, failure.field, failure.cause),
        }
    }

    /// Freezes every value with `freeze`, in the order attributes, plugins,
    /// lambda, argument, and stops at the first failure. The static fields
    /// move over unchanged.
    pub fn freeze_with<F: Fn(Value<'v>) -> Result<FrozenValue, FreezeError>>(
        self,
        freeze: F,
    ) -> (r: Result<FrozenDynamicLambdaParams, FreezeFailure>)
        requires
            forall|field: ParamField| accepts(freeze, #[trigger] self.field(field)),
        ensures
            self.may_return(freeze, r),
    {
        proof {
            // names each field, so that the precondition speaks of it
            assert(accepts(freeze, self.field(ParamField::Attributes)));
            assert(accepts(freeze, self.field(ParamField::Plugins)));
            assert(accepts(freeze, self.field(ParamField::Lambda)));
            assert(accepts(freeze, self.field(ParamField::Arg)));
        }
        let attributes = match freeze_field(&freeze, self.attributes) {
            Ok(frozen) => frozen,
            Err(cause) => {
                return Err(FreezeFailure { field: ParamField::Attributes, cause });
            },
        };
        let plugins = match freeze_field(&freeze, self.plugins) {
            Ok(frozen) => frozen,
            Err(cause) => {
                return Err(FreezeFailure { field: ParamField::Plugins, cause });
            },
        };
        let lambda = match freeze(self.lambda) {
            Ok(frozen) => frozen,
            Err(cause) => {
                return Err(FreezeFailure { field: ParamField::Lambda, cause });
            },
        };
        assert(field_freezes_to(freeze, Some(self.lambda), Some(lambda)));
        let arg = match freeze_field(&freeze, self.arg) {
            Ok(frozen) => frozen,
            Err(cause) => {
                return Err(FreezeFailure { field: ParamField::Arg, cause });
            },
        };
        Ok(FrozenDynamicLambdaParams { attributes, plugins, lambda, arg, static_fields: self.static_fields })
    }

    /// Hands every value that the parameters hold to `visit`, in the order
    /// attributes, plugins, lambda, argument, and keeps in its place what
    /// `visit` returns. This is how a collector that moves values reaches
    /// the ones that are held here. The static fields stay as they are.
    pub fn trace_with<F: Fn(Value<'v>) -> Value<'v>>(&mut self, visit: F)
        requires
            forall|field: ParamField| #[trigger]
                old(self).field(field) matches Some(value) ==> call_requires(visit, (value,)),
        ensures
            forall|field: ParamField|
                field_visited(visit, #[trigger] old(self).field(field), final(self).field(field)),
            final(self).static_fields == old(self).static_fields,
    {
        proof {
            // names each field, so that the precondition speaks of it
            assert(self.field(ParamField::Attributes) == self.attributes);
            assert(self.field(ParamField::Plugins) == self.plugins);
            assert(self.field(ParamField::Lambda) == Some(self.lambda));
            assert(self.field(ParamField::Arg) == self.arg);
        }
        if let Some(attributes) = self.attributes {
            self.attributes = Some(visit(attributes));
        }
        if let Some(plugins) = self.plugins {
            self.plugins = Some(visit(plugins));
        }
        self.lambda = visit(self.lambda);
        if let Some(arg) = self.arg {
            self.arg = Some(visit(arg));
        }
    }

    /// Every value that the parameters hold is frozen already.
    pub open spec fn all_frozen(self) -> bool {
        forall|field: ParamField| #[trigger]
            self.field(field) matches Some(value) ==> is_frozen(value)
    }

    /// Freezes the parameters into the heap that `freezer` fills. Whether a
    /// value freezes is the engine's decision. Whatever it decides, a result
    /// has the fields populated that were populated before, and a failure
    /// names a populated field whose value was not frozen yet. Parameters
    /// that hold frozen values only always freeze, to parameters that read
    /// back as the same values.
    pub fn freeze(self, freezer: &Freezer) -> (r: Result<FrozenDynamicLambdaParams, FreezeFailure>)
        ensures
            match r {
                Ok(out) => {
                    &&& out.attributes is Some <==> self.attributes is Some
                    &&& out.plugins is Some <==> self.plugins is Some
                    &&& out.arg is Some <==> self.arg is Some
                    &&& out.static_fields == self.static_fields
                },
                Err(failure) => self.field(failure.field) matches Some(value) && !is_frozen(value),
            },
            self.all_frozen() ==> r is Ok && r->Ok_0.reads_back_as(self),
    {
        let freeze = |value: Value<'v>| -> (outcome: Result<FrozenValue, FreezeError>)
            ensures
                is_frozen(value) ==> outcome is Ok && thawed(outcome->Ok_0) == value,
            { freeze_value(value, freezer) };
        proof {
            // names each field, so that `all_frozen` speaks of it
            assert(self.field(ParamField::Attributes) == self.attributes);
            assert(self.field(ParamField::Plugins) == self.plugins);
            assert(self.field(ParamField::Lambda) == Some(self.lambda));
            assert(self.field(ParamField::Arg) == self.arg);
        }
        self.freeze_with(freeze)
    }
}

/// What a reader gets for an optional frozen value.
pub open spec fn thawed_option(frozen: Option<FrozenValue>) -> Option<Value<'static>> {
    match frozen {
        None => None,
        Some(f) => Some(thawed(f)),
    }
}

impl InternalError {
    /// The text of the error.
    pub fn message(&self) -> (text: String)
        ensures
            text@ == "plugins must be AnalysisPlugins"@,
    {
        match self {
            InternalError::PluginsKind => "plugins must be AnalysisPlugins".to_owned(),
        }
    }
}

impl FrozenDynamicLambdaParams {
    /// A reader of these parameters gets the values that `params` holds, and
    /// the same static fields.
    pub open spec fn reads_back_as<'v>(self, params: DynamicLambdaParams<'v>) -> bool {
        &&& thawed_option(self.attributes) == params.attributes
        &&& thawed_option(self.plugins) == params.plugins
        &&& thawed(self.lambda) == params.lambda
        &&& thawed_option(self.arg) == params.arg
        &&& self.static_fields == params.static_fields
    }

    /// The attributes, as a value that the caller can use.
    pub fn attributes<'v>(&'v self) -> (r: Result<Option<Value<'v>>, InternalError>)
        ensures
            r == Ok::<Option<Value<'v>>, InternalError>(thawed_option(self.attributes)),
    {
        match self.attributes {
            None => Ok(None),
            Some(attributes) => Ok(Some(frozen_to_value(attributes))),
        }
    }

    /// The plugins, as what `downcast` makes of the stored value. `downcast`
    /// tells whether a value is a plugins value; where it finds that the
    /// stored value is none, the error says so and nothing is handed out.
    pub fn plugins<'v, T, D: Fn(Value<'v>) -> Option<T>>(&'v self, downcast: D) -> (r: Result<
        Option<T>,
        InternalError,
    >)
        requires
            forall|value: Value<'v>| call_requires(downcast, (value,)),
        ensures
            match self.plugins {
                None => r == Ok::<Option<T>, InternalError>(None),
                Some(p) => match r {
                    Ok(Some(plugins)) => call_ensures(downcast, (thawed(p),), Some(plugins)),
                    Ok(None) => false,
                    Err(e) => e == InternalError::PluginsKind && call_ensures(
                        downcast,
                        (thawed(p),),
                        None,
                    ),
                },
            },
    {
        match self.plugins {
            None => Ok(None),
            Some(plugins) => match downcast(frozen_to_value(plugins)) {
                Some(typed) => Ok(Some(typed)),
                None => Err(InternalError::PluginsKind),
            },
        }
    }

    /// The callable, as a value that the caller can use.
    pub fn lambda<'v>(&'v self) -> (r: Value<'v>)
        ensures
            r == thawed(self.lambda),
    {
        frozen_to_value(self.lambda)
    }

    /// The argument, as a value that the caller can use.
    pub fn arg<'v>(&'v self) -> (r: Option<Value<'v>>)
        ensures
            r == thawed_option(self.arg),
    {
        match self.arg {
            None => None,
            Some(arg) => Some(frozen_to_value(arg)),
        }
    }
}

/// `read` is what a reader gets for the optional value `value` after it was
/// frozen with `freeze`: nothing for nothing, and else the thawed form of a
/// frozen value that `freeze` may return for it.
pub open spec fn reads_back<'v, F: Fn(Value<'v>) -> Result<FrozenValue, FreezeError>>(
    freeze: F,
    value: Option<Value<'v>>,
    read: Option<Value<'static>>,
) -> bool {
    match value {
        None => read is None,
        Some(v) => exists|f: FrozenValue| #[trigger]
            call_ensures(freeze, (v,), Ok(f)) && read == Some(thawed(f)),
    }
}

/// Parameters that hold a callable and nothing else freeze to parameters whose
/// accessors hand out nothing but the callable, and the freezing succeeds
/// wherever `freeze` cannot fail on the callable.
pub proof fn lemma_bare_params_freeze<'v, F: Fn(Value<'v>) -> Result<FrozenValue, FreezeError>>(
    params: DynamicLambdaParams<'v>,
    freeze: F,
    r: Result<FrozenDynamicLambdaParams, FreezeFailure>,
)
    requires
        params.attributes is None,
        params.plugins is None,
        params.arg is None,
        forall|cause: FreezeError| !#[trigger] field_fails_with(freeze, Some(params.lambda), cause),
        params.may_return(freeze, r),
    ensures
        r is Ok,
        thawed_option(r->Ok_0.attributes) is None,
        r->Ok_0.plugins is None,
        thawed_option(r->Ok_0.arg) is None,
{
    if let Err(failure) = r {
        assert(field_fails_with(freeze, params.field(failure.field), failure.cause));
    }
}

/// Where `freeze` cannot fail on any value that the parameters hold, freezing
/// succeeds, and every accessor hands out the thawed form of what `freeze`
/// made of the field's value; the static fields are the same.
pub proof fn lemma_freeze_keeps_every_field<
    'v,
    F: Fn(Value<'v>) -> Result<FrozenValue, FreezeError>,
>(
    params: DynamicLambdaParams<'v>,
    freeze: F,
    r: Result<FrozenDynamicLambdaParams, FreezeFailure>,
)
    requires
        forall|field: ParamField, cause: FreezeError|
            !#[trigger] field_fails_with(freeze, params.field(field), cause),
        params.may_return(freeze, r),
    ensures
        r is Ok,
        reads_back(freeze, params.attributes, thawed_option(r->Ok_0.attributes)),
        reads_back(freeze, params.plugins, thawed_option(r->Ok_0.plugins)),
        reads_back(freeze, Some(params.lambda), Some(thawed(r->Ok_0.lambda))),
        reads_back(freeze, params.arg, thawed_option(r->Ok_0.arg)),
        r->Ok_0.static_fields == params.static_fields,
{
    match r {
        Err(failure) => {
            assert(field_fails_with(freeze, params.field(failure.field), failure.cause));
        },
        Ok(out) => {
            assert(params.may_freeze_to(freeze, out));
        },
    }
}

/// Where `freeze` cannot succeed on the value of one field, freezing fails:
/// no frozen parameters come back, and the failure is at that field or at an
/// earlier one.
pub proof fn lemma_one_failure_fails_all<
    'v,
    F: Fn(Value<'v>) -> Result<FrozenValue, FreezeError>,
>(
    params: DynamicLambdaParams<'v>,
    freeze: F,
    field: ParamField,
    r: Result<FrozenDynamicLambdaParams, FreezeFailure>,
)
    requires
        params.field(field) is Some,
        !field_can_freeze(freeze, params.field(field)),
        params.may_return(freeze, r),
    ensures
        r is Err,
        r->Err_0.field.position() <= field.position(),
{
    match r {
        Ok(out) => {
            assert(params.may_freeze_to(freeze, out));
            let frozen = match field {
                ParamField::Attributes => out.attributes,
                ParamField::Plugins => out.plugins,
                ParamField::Lambda => Some(out.lambda),
                ParamField::Arg => out.arg,
            };
            assert(field_freezes_to(freeze, params.field(field), frozen));
        },
        Err(failure) => {},
    }
}

/// Where `freeze` gives each value at most one frozen form, two freezings of
/// the same parameters that succeed give the same frozen parameters.
pub proof fn lemma_freeze_is_repeatable<
    'v,
    F: Fn(Value<'v>) -> Result<FrozenValue, FreezeError>,
>(
    params: DynamicLambdaParams<'v>,
    freeze: F,
    first: FrozenDynamicLambdaParams,
    second: FrozenDynamicLambdaParams,
)
    requires
        forall|v: Value<'v>, f1: FrozenValue, f2: FrozenValue|
            #[trigger] call_ensures(freeze, (v,), Ok(f1)) && #[trigger] call_ensures(
                freeze,
                (v,),
                Ok(f2),
            ) ==> f1 == f2,
        params.may_freeze_to(freeze, first),
        params.may_freeze_to(freeze, second),
    ensures
        first == second,
{
}

/// Freezes one optional field.
fn freeze_field<'v, F: Fn(Value<'v>) -> Result<FrozenValue, FreezeError>>(
    freeze: &F,
    value: Option<Value<'v>>,
) -> (r: Result<Option<FrozenValue>, FreezeError>)
    requires
        accepts(*freeze, value),
    ensures
        match r {
            Ok(out) => field_freezes_to(*freeze, value, out),
            Err(cause) => field_fails_with(*freeze, value, cause),
        },
{
    match value {
        None => Ok(None),
        Some(v) => match freeze(v) {
            Ok(f) => Ok(Some(f)),
            Err(cause) => Err(cause),
        },
    }
}

} // verus!
