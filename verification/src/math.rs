use crate::errors::SettlerError;
use vstd::prelude::*;

verus! {

/// Checked addition over storage sizes; overflow becomes `MathError`.
pub fn add(a: usize, b: usize) -> (r: Result<usize, SettlerError>)
    ensures
        r is Ok <==> a + b <= usize::MAX,
        r matches Ok(v) ==> v == a + b,
        r matches Err(e) ==> e == SettlerError::MathError,
{
    match a.checked_add(b) {
        Some(v) => Ok(v),
        None => Err(SettlerError::MathError),
    }
}

/// Checked subtraction over storage sizes; underflow becomes `MathError`.
pub fn sub(a: usize, b: usize) -> (r: Result<usize, SettlerError>)
    ensures
        r is Ok <==> b <= a,
        r matches Ok(v) ==> v == a - b,
        r matches Err(e) ==> e == SettlerError::MathError,
{
    match a.checked_sub(b) {
        Some(v) => Ok(v),
        None => Err(SettlerError::MathError),
    }
}

/// Checked multiplication over storage sizes; overflow becomes `MathError`.
pub fn mul(a: usize, b: usize) -> (r: Result<usize, SettlerError>)
    ensures
        r is Ok <==> a * b <= usize::MAX,
        r matches Ok(v) ==> v == a * b,
        r matches Err(e) ==> e == SettlerError::MathError,
{
    match a.checked_mul(b) {
        Some(v) => Ok(v),
        None => Err(SettlerError::MathError),
    }
}

} // verus!
