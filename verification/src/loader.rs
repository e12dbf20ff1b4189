//! Failures of the dynamic loader, as this tool reports them.
use vstd::prelude::*;
use vstd::string::to_string_from_display_ensures;
use crate::error::{LaunchError, LaunchErrorView};

verus! {

/// The error type of the `libloading` crate. Nothing is known of what a
/// value of it holds.
#[verifier::external_type_specification]
#[verifier::external_body]
pub struct ExLoaderError(libloading::Error);

/// `text` is what formatting `error` for display gives: the description
/// the system gave of the failure, or a fixed sentence where it gave none.
///
/// The relation is the one vstd lays down between a value and the result
/// of `to_string` on it. What the text holds is decided by the `Display`
/// impl of `libloading::Error`, which is not verified here.
pub open spec fn is_diagnostic_of(error: &libloading::Error, text: String) -> bool {
    to_string_from_display_ensures::<libloading::Error>(error, text)
}

/// The failure to load a library, with the loader's description of it.
pub fn load_error(diagnostic: String) -> (r: LaunchError)
    ensures
        r == (LaunchError::Load { diagnostic }),
        r@ == (LaunchErrorView::Load { diagnostic: diagnostic@ }),
{
    LaunchError::Load { diagnostic }
}

/// The failure to find a symbol, with the loader's description of it.
pub fn symbol_error(diagnostic: String) -> (r: LaunchError)
    ensures
        r == (LaunchError::SymbolNotFound { diagnostic }),
        r@ == (LaunchErrorView::SymbolNotFound { diagnostic: diagnostic@ }),
{
    LaunchError::SymbolNotFound { diagnostic }
}

/// Turns the loader's refusal to open the shared library into the launch
/// error that is reported for it: a load error whose diagnostic is the
/// loader's own description of `error`.
pub fn load_failure(error: &libloading::Error) -> (r: LaunchError)
    ensures
        r@ is Load,
        r matches LaunchError::Load { diagnostic } && is_diagnostic_of(error, diagnostic),
{
    load_error(error.to_string())
}

/// Turns the loader's failure to resolve the function into the launch
/// error that is reported for it: a symbol-not-found error whose
/// diagnostic is the loader's own description of `error`.
pub fn symbol_failure(error: &libloading::Error) -> (r: LaunchError)
    ensures
        r@ is SymbolNotFound,
        r matches LaunchError::SymbolNotFound { diagnostic } && is_diagnostic_of(
            error,
            diagnostic,
        ),
{
    symbol_error(error.to_string())
}

} // verus!
