//! Outcomes of the checks made on HTTP requests: a route parameter that is
//! missing or does not parse, and a body where none is expected.
use vstd::prelude::*;
use vstd::string::StringExecFns;

verus! {

/// A request that cannot be served, with what was wrong with it.
#[derive(Clone, Debug, PartialEq, Eq)]
pub enum ApiError {
    /// The route has no parameter of this name.
    MissingParam(String),
    /// The parameter of this name could not be parsed.
    UnparsableParam(String),
    /// The request carried a body where none is expected.
    UnexpectedBody,
}

/// The result for the route parameter `name` whose lookup gave `found`.
pub fn param_or_missing<'a>(found: Option<&'a str>, name: &str) -> (r: Result<&'a str, ApiError>)
    ensures
        match found {
            Some(v) => r == Ok::<&str, ApiError>(v),
            None => r matches Err(ApiError::MissingParam(n)) && n@ == name@,
        },
{
    match found {
        Some(v) => Ok(v),
        None => Err(ApiError::MissingParam(String::from_str(name))),
    }
}

/// The result for the route parameter `name` whose value parsed to `parsed`.
pub fn parsed_or_unparsable<T>(parsed: Option<T>, name: &str) -> (r: Result<T, ApiError>)
    ensures
        match parsed {
            Some(v) => r == Ok::<T, ApiError>(v),
            None => r matches Err(ApiError::UnparsableParam(n)) && n@ == name@,
        },
{
    match parsed {
        Some(v) => Ok(v),
        None => Err(ApiError::UnparsableParam(String::from_str(name))),
    }
}

/// The result of checking a request for a body, given whether a first
/// chunk of body data arrived.
pub fn no_body_result(has_data: bool) -> (r: Result<(), ApiError>)
    ensures
        has_data ==> r == Err::<(), ApiError>(ApiError::UnexpectedBody),
        !has_data ==> r is Ok,
{
    if has_data {
        Err(ApiError::UnexpectedBody)
    } else {
        Ok(())
    }
}

} // verus!
