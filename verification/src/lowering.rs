//! Lowering a declared error that arrives inside a type-erased wrapper.

use crate::converter::FfiConverter;
use vstd::prelude::*;
use vstd::string::*;

verus! {

/// `anyhow::Error`: a wrapper around an error of any type, of which
/// nothing is known here.
#[verifier::external_type_specification]
#[verifier::external_body]
pub struct ExAnyhowError(anyhow::Error);

/// `anyhow::Error::downcast`: the error that the wrapper holds, where that
/// is an `E`, and the wrapper itself where it is not.
#[verifier::external_body]
fn downcast<E: core::fmt::Display + core::fmt::Debug + Send + Sync + 'static>(
    err: anyhow::Error,
) -> (r: Result<E, anyhow::Error>) {
    err.downcast::<E>()
}

/// The `Display` text of an `anyhow::Error`.
#[verifier::external_body]
fn error_text(err: &anyhow::Error) -> (r: String) {
    err.to_string()
}

/// Why a declared error could not be handed to the foreign side. Either is
/// a defect of the program, not a condition of its input: the caller must
/// end the process rather than go on.
#[derive(Debug, Clone, PartialEq, Eq)]
pub enum LoweringDefect {
    /// The wrapper held an error of another type than the one declared.
    WrongType { message: String },
    /// The error is of the declared type and too large to be lowered.
    NotLowerable,
}

/// What is said of an error of the wrong type.
pub open spec fn mismatch_message(arg_name: Seq<char>, text: Seq<char>) -> Seq<char> {
    "Failed to convert arg '"@ + arg_name + "': "@ + text
}

/// Lowers the declared error that a downcast gave, or says what is wrong:
/// an `Err` holds the text of the error that was there in place of the
/// declared one.
pub fn lower_downcast<UT, E: FfiConverter<UT>>(outcome: Result<E, String>, arg_name: &str) -> (r: Result<
    E::FfiType,
    LoweringDefect,
>)
    ensures
        match outcome {
            Ok(e) => if E::lowerable(e.deep_view()) {
                r matches Ok(v) && v.deep_view() == E::lowered(e.deep_view())
            } else {
                r == Err::<E::FfiType, LoweringDefect>(LoweringDefect::NotLowerable)
            },
            Err(text) => r matches Err(LoweringDefect::WrongType { message }) && message@
                == mismatch_message(arg_name@, text@),
        },
{
    match outcome {
        Ok(actual_error) => {
            if E::can_lower(&actual_error) {
                Ok(E::lower(actual_error))
            } else {
                Err(LoweringDefect::NotLowerable)
            }
        },
        Err(text) => {
            let mut message = "Failed to convert arg '".to_owned();
            message.append(arg_name);
            message.append("': ");
            message.append(text.as_str());
            Err(LoweringDefect::WrongType { message })
        },
    }
}

/// Lowers an error that arrives wrapped, where it is of the declared type
/// `E`. Where it is not, or cannot be lowered, the result says so, and the
/// caller must end the process.
pub fn lower_anyhow_error_or_panic<UT, E>(err: anyhow::Error, arg_name: &str) -> (r: Result<
    E::FfiType,
    LoweringDefect,
>) where E: 'static + FfiConverter<UT> + Sync + Send + core::fmt::Debug + core::fmt::Display
    ensures
        r matches Ok(v) ==> exists|e: <E as DeepView>::V|
            E::lowerable(e) && v.deep_view() == E::lowered(e),
        r matches Err(LoweringDefect::WrongType { message }) ==> exists|text: Seq<char>|
            message@ == mismatch_message(arg_name@, text),
        r matches Err(LoweringDefect::NotLowerable) ==> exists|e: <E as DeepView>::V|
            !E::lowerable(e),
{
    let outcome = match downcast::<E>(err) {
        Ok(actual_error) => Ok(actual_error),
        Err(ohno) => Err(error_text(&ohno)),
    };
    lower_downcast::<UT, E>(outcome, arg_name)
}

} // verus!
