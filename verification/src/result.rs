//! The result value that a fallible operation hands to a script: a success
//! with its payload, or an error, and never anything between.

use crate::engine::container_text;
use crate::engine::frozen_to_value;
use crate::engine::report_of;
use crate::engine::starlark_repr;
use crate::engine::string_repr;
use crate::engine::thawed;
use crate::engine::value_text;
use starlark::values::FrozenValue;
use starlark::values::Value;
use vstd::prelude::*;

verus! {

/// An error as a script can see it.
#[derive(Debug, PartialEq, Eq)]
pub struct ErrorReport {
    /// The `Display` form: the outermost message.
    pub display: String,
    /// The `Debug` form: the message with every chained cause.
    pub debug: String,
}

impl Clone for ErrorReport {
    fn clone(&self) -> (copy: Self)
        ensures
            copy == *self,
    {
        ErrorReport { display: self.display.clone(), debug: self.debug.clone() }
    }
}

/// A result was asked for the side that it does not have.
#[derive(Debug, PartialEq, Eq)]
pub enum BxlResultError {
    /// `unwrap` on an error; the error is the cause.
    UnwrapOnError(ErrorReport),
    /// `unwrap_err` on a success; the text is the payload as it displays.
    UnwrapErrOnOk(String),
}

impl BxlResultError {
    /// The text of the message.
    pub open spec fn spec_message(self) -> Seq<char> {
        match self {
            BxlResultError::UnwrapOnError(error) => "called `bxl.Result.unwrap()` on an `Err` value: "@
                + error.display@,
            BxlResultError::UnwrapErrOnOk(shown) => "called `bxl.Result.unwrap_err()` on an `Ok` value: "@
                + shown@,
        }
    }

    /// The message: which operation was misused, then the error as it
    /// displays, or the payload as it displays.
    pub fn message(&self) -> (text: String)
        ensures
            text@ == self.spec_message(),
    {
        match self {
            BxlResultError::UnwrapOnError(error) => {
                let mut text = "called `bxl.Result.unwrap()` on an `Err` value: ".to_owned();
                text.push_str(error.display.as_str());
                text
            },
            BxlResultError::UnwrapErrOnOk(shown) => {
                let mut text = "called `bxl.Result.unwrap_err()` on an `Ok` value: ".to_owned();
                text.push_str(shown.as_str());
                text
            },
        }
    }
}

/// The error value that a script gets from a result.
#[derive(Debug, PartialEq, Eq)]
pub struct StarlarkError {
    pub err: ErrorReport,
}

impl StarlarkError {
    /// The text of the message.
    pub open spec fn spec_message(self) -> Seq<char> {
        self.err.debug@
    }

    /// The error message: the full debug text, chained causes included.
    pub fn message(&self) -> (text: String)
        ensures
            text@ == self.spec_message(),
    {
        self.err.debug.clone()
    }

    /// The text that the error displays as.
    pub open spec fn spec_to_string(self) -> Seq<char> {
        "bx.Error("@ + starlark_repr(self.err.debug@) + ")"@
    }

    /// How the error displays: the debug text, quoted as the engine quotes a
    /// string, in a tagged pair of brackets.
    pub fn to_string(&self) -> (text: String)
        ensures
            text@ == self.spec_to_string(),
    {
        let quoted = string_repr(self.err.debug.as_str());
        let mut text = "bx.Error(".to_owned();
        text.push_str(quoted.as_str());
        text.push_str(")");
        text
    }
}

/// A value of the engine, mutable or frozen, that can be read as a `Value`.
pub trait AsValue<'v>: Copy {
    /// The value that this is read as.
    spec fn spec_to_value(self) -> Value<'v>;

    fn to_value(self) -> (value: Value<'v>)
        ensures
            value == self.spec_to_value(),
    ;
}

impl<'v> AsValue<'v> for Value<'v> {
    open spec fn spec_to_value(self) -> Value<'v> {
        self
    }

    fn to_value(self) -> (value: Value<'v>) {
        self
    }
}

impl<'v> AsValue<'v> for FrozenValue {
    open spec fn spec_to_value(self) -> Value<'v> {
        thawed(self)
    }

    fn to_value(self) -> (value: Value<'v>) {
        frozen_to_value(self)
    }
}

/// The result of a fallible operation.
#[derive(Debug)]
pub enum StarlarkResultGen<T> {
    /// The operation gave this payload.
    Success(T),
    /// The operation failed with this error.
    Failure(ErrorReport),
}

/// A result whose payload lives on the evaluator's heap.
pub type StarlarkResult<'v> = StarlarkResultGen<Value<'v>>;

/// A result whose payload is frozen.
pub type FrozenStarlarkResult = StarlarkResultGen<FrozenValue>;

/// The text that a success displays as, for a payload that displays as `shown`.
pub open spec fn ok_text(shown: Seq<char>) -> Seq<char> {
    "Result(Ok = "@ + shown + ")"@
}

/// The text that an error displays as.
pub open spec fn err_text(error: ErrorReport) -> Seq<char> {
    "Result(Err = "@ + starlark_repr(error.debug@) + ")"@
}

impl<T> StarlarkResultGen<T> {
    /// Lifts an outcome whose error is reported already: a success keeps its
    /// payload, a failure keeps its report.
    pub fn from_reported(res: Result<T, ErrorReport>) -> (r: Self)
        ensures
            r == match res {
                Ok(val) => StarlarkResultGen::Success(val),
                Err(report) => StarlarkResultGen::Failure(report),
            },
    {
        match res {
            Ok(val) => StarlarkResultGen::Success(val),
            Err(report) => StarlarkResultGen::Failure(report),
        }
    }

    /// Lifts the outcome of a fallible computation: a success keeps its
    /// payload, a failure becomes the report of its error. What the report
    /// holds is for the error to say.
    pub fn from_result(res: Result<T, anyhow::Error>) -> (r: Self)
        ensures
            res matches Ok(val) ==> r == StarlarkResultGen::Success(val),
            res is Err ==> r is Failure,
    {
        match res {
            Ok(val) => StarlarkResultGen::Success(val),
            Err(err) => Self::from_reported(Err(report_of(&err))),
        }
    }

    /// Whether this is a success.
    pub fn is_ok(&self) -> (ok: bool)
        ensures
            ok == (self is Success),
    {
        match self {
            StarlarkResultGen::Success(_) => true,
            StarlarkResultGen::Failure(_) => false,
        }
    }

    /// `r` is a possible result of `unwrap_err`.
    pub open spec fn unwrap_err_gives(self, r: Result<StarlarkError, BxlResultError>) -> bool {
        match self {
            StarlarkResultGen::Success(_) => r matches Err(BxlResultError::UnwrapErrOnOk(_)),
            StarlarkResultGen::Failure(err) => r == Ok::<StarlarkError, BxlResultError>(
                StarlarkError { err },
            ),
        }
    }

    /// `r` is a possible result of `unwrap_err_with` for a payload that `show`
    /// renders.
    pub open spec fn unwrap_err_shows<S: Fn(&T) -> String>(
        self,
        show: S,
        r: Result<StarlarkError, BxlResultError>,
    ) -> bool {
        match self {
            StarlarkResultGen::Success(val) => r matches Err(BxlResultError::UnwrapErrOnOk(shown))
                && call_ensures(show, (&val,), shown),
            StarlarkResultGen::Failure(err) => r == Ok::<StarlarkError, BxlResultError>(
                StarlarkError { err },
            ),
        }
    }

    /// `text` is a possible result of `to_string_with` for a payload that
    /// `show` renders.
    pub open spec fn displays_as<S: Fn(&T) -> String>(self, show: S, text: Seq<char>) -> bool {
        match self {
            StarlarkResultGen::Success(val) => exists|shown: String| #[trigger]
                call_ensures(show, (&val,), shown) && text == ok_text(shown@),
            StarlarkResultGen::Failure(err) => text == err_text(err),
        }
    }

    /// The error of a failure, as an error value. On a success this fails,
    /// and the failure holds the payload as `show` renders it; `show` is not
    /// called on a failure.
    pub fn unwrap_err_with<S: Fn(&T) -> String>(&self, show: S) -> (r: Result<
        StarlarkError,
        BxlResultError,
    >)
        requires
            self matches StarlarkResultGen::Success(val) ==> call_requires(show, (&val,)),
        ensures
            self.unwrap_err_shows(show, r),
            self.unwrap_err_gives(r),
    {
        match self {
            StarlarkResultGen::Success(val) => {
                let display_str = show(val);
                Err(BxlResultError::UnwrapErrOnOk(display_str))
            },
            StarlarkResultGen::Failure(err) => Ok(StarlarkError { err: err.clone() }),
        }
    }

    /// How the result displays: the payload as `show` renders it, or the
    /// error's debug text quoted as the engine quotes a string, in a tagged
    /// pair of brackets.
    pub fn to_string_with<S: Fn(&T) -> String>(&self, show: S) -> (text: String)
        requires
            self matches StarlarkResultGen::Success(val) ==> call_requires(show, (&val,)),
        ensures
            self.displays_as(show, text@),
    {
        match self {
            StarlarkResultGen::Success(val) => {
                let shown = show(val);
                container_text("Result(Ok = ", ")", shown.as_str())
            },
            StarlarkResultGen::Failure(err) => {
                let quoted = string_repr(err.debug.as_str());
                container_text("Result(Err = ", ")", quoted.as_str())
            },
        }
    }
}

impl<'v, V: AsValue<'v>> StarlarkResultGen<V> {
    /// The payload of a success. On an error this fails, and the failure
    /// carries the error.
    pub fn unwrap(&self) -> (r: Result<Value<'v>, BxlResultError>)
        ensures
            r == match *self {
                StarlarkResultGen::Success(val) => Ok::<Value<'v>, BxlResultError>(val.spec_to_value()),
                StarlarkResultGen::Failure(err) => Err(BxlResultError::UnwrapOnError(err)),
            },
    {
        match self {
            StarlarkResultGen::Success(val) => Ok(val.to_value()),
            StarlarkResultGen::Failure(err) => Err(BxlResultError::UnwrapOnError(err.clone())),
        }
    }

    /// The error of a failure, as an error value. On a success this fails,
    /// and the failure holds the payload as the engine displays it.
    pub fn unwrap_err(&self) -> (r: Result<StarlarkError, BxlResultError>)
        ensures
            self.unwrap_err_gives(r),
    {
        self.unwrap_err_with(|val: &V| -> (shown: String) { value_text(val.to_value()) })
    }

    /// How the result displays: the payload as the engine displays it, or the
    /// error's debug text quoted as the engine quotes a string, in a tagged
    /// pair of brackets.
    pub fn to_string(&self) -> (text: String)
        ensures
            match *self {
                StarlarkResultGen::Success(val) => exists|shown: Seq<char>| text@ == #[trigger] ok_text(shown),
                StarlarkResultGen::Failure(err) => text@ == err_text(err),
            },
    {
        let text = self.to_string_with(|val: &V| -> (shown: String) { value_text(val.to_value()) });
        proof {
            if let StarlarkResultGen::Success(val) = *self {
                let shown = choose|shown: String| text@ == ok_text(shown@);
                assert(text@ == ok_text(shown@));
            }
        }
        text
    }
}

/// The error value that `unwrap_err` takes out of an error has the error's
/// full debug text as its message.
pub proof fn lemma_unwrap_err_keeps_debug_text<T>(
    result: StarlarkResultGen<T>,
    r: Result<StarlarkError, BxlResultError>,
)
    requires
        result is Failure,
        result.unwrap_err_gives(r),
    ensures
        r is Ok,
        r->Ok_0.spec_message() == result->Failure_0.debug@,
{
}

/// On a success `unwrap_err_with` fails, with a message that ends with the
/// payload as `show` renders it.
pub proof fn lemma_unwrap_err_fails_on_success<T, S: Fn(&T) -> String>(
    result: StarlarkResultGen<T>,
    show: S,
    r: Result<StarlarkError, BxlResultError>,
)
    requires
        result is Success,
        result.unwrap_err_shows(show, r),
    ensures
        r is Err,
        exists|shown: String| #[trigger]
            call_ensures(show, (&result->Success_0,), shown) && shown@.is_suffix_of(
                r->Err_0.spec_message(),
            ),
{
    lemma_message_ends_with_detail(r->Err_0);
    let shown = r->Err_0->UnwrapErrOnOk_0;
    assert(call_ensures(show, (&result->Success_0,), shown));
}

/// The message of a misuse ends with what the misuse carries: the error as it
/// displays, or the payload as it displays.
pub proof fn lemma_message_ends_with_detail(error: BxlResultError)
    ensures
        match error {
            BxlResultError::UnwrapOnError(cause) => cause.display@.is_suffix_of(error.spec_message()),
            BxlResultError::UnwrapErrOnOk(shown) => shown@.is_suffix_of(error.spec_message()),
        },
{
    let message = error.spec_message();
    match error {
        BxlResultError::UnwrapOnError(cause) => {
            assert(message.subrange(message.len() - cause.display@.len(), message.len() as int)
                =~= cause.display@);
        },
        BxlResultError::UnwrapErrOnOk(shown) => {
            assert(message.subrange(message.len() - shown@.len(), message.len() as int)
                =~= shown@);
        },
    }
}

} // verus!
