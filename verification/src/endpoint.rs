//! The upload endpoint's decision surface: choosing the naming mode from a
//! request, and classifying store errors into client and server failures.

use vstd::prelude::*;

use crate::extension::extension_of;
use crate::extension::extract_extension;
use crate::extension::has_extension;
use crate::store::Naming;
use crate::store::StoreError;

verus! {

/// Which side of the exchange a store error is charged to.
#[derive(Debug, Clone, Copy, PartialEq, Eq)]
pub enum ErrorClass {
    /// The request was at fault; the caller must change it.
    ClientError,
    /// The store itself failed; retrying the same request may succeed.
    ServerError,
}

/// Chooses the naming mode for an upload. The submitted name must carry an
/// extension in either mode; without one the request is rejected before any
/// filesystem work. With `keep_name` the name is used verbatim, otherwise a
/// random identifier of `length` characters keeps only the extension.
pub fn plan_upload(original_name: &str, keep_name: bool, length: usize) -> (r: Result<
    Naming,
    StoreError,
>)
    ensures
        !has_extension(original_name@) ==> (r matches Err(e)
            && e == StoreError::MissingExtension),
        has_extension(original_name@) && keep_name ==> (r matches Ok(n)
            && n matches Naming::KeepName { name } && name@ == original_name@),
        has_extension(original_name@) && !keep_name ==> (r matches Ok(n)
            && n matches Naming::Random { length: l, extension: e } && l == length
            && e@ == extension_of(original_name@) && (forall|i: int|
            0 <= i < e@.len() ==> #[trigger] e@[i] != '.')),
{
    match extract_extension(original_name) {
        Err(e) => Err(e),
        Ok(extension) => {
            if keep_name {
                Ok(Naming::KeepName { name: original_name.to_owned() })
            } else {
                Ok(Naming::Random { length, extension })
            }
        },
    }
}

/// Charges each store error to a side: a missing extension and a keep-name
/// collision are the caller's fault; an I/O failure and an exhausted retry
/// budget are the server's.
pub fn error_status(error: &StoreError) -> (r: ErrorClass)
    ensures
        error is MissingExtension || error is NameCollision ==> r == ErrorClass::ClientError,
        error is IoError || error is RetryBudgetExceeded ==> r == ErrorClass::ServerError,
{
    match error {
        StoreError::MissingExtension => ErrorClass::ClientError,
        StoreError::NameCollision => ErrorClass::ClientError,
        StoreError::RetryBudgetExceeded => ErrorClass::ServerError,
        StoreError::IoError { .. } => ErrorClass::ServerError,
    }
}

} // verus!
