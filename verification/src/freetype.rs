//! Lifecycle decisions of the rasterization side: when the engine and a face
//! count as opened, and how each failure is reported.

use crate::encoding::{is_representable, representable};
use vstd::prelude::*;

verus! {

/// Why no engine or no face could be had.
#[derive(Debug, Clone, Copy, PartialEq, Eq, Structural)]
pub enum FontError {
    /// The engine did not initialize. Nothing can be opened without it.
    InitError,
    /// The engine refused the font: missing, unreadable, corrupt, or without a
    /// face of the index asked for.
    OpenError,
    /// The path holds a zero byte and cannot be handed to the engine.
    EncodingError,
}

/// `freetype::succeeded`: whether a status of the engine is its code for
/// success, which is 0.
#[verifier::external_body]
fn ft_succeeded(status: i32) -> (r: bool)
    ensures
        r == (status == 0),
{
    ::freetype::succeeded(status)
}

/// Reads the status with which the engine answered its initialization.
pub fn init_result(status: i32) -> (r: Result<(), FontError>)
    ensures
        r == if status == 0 {
            Ok::<(), FontError>(())
        } else {
            Err::<(), FontError>(FontError::InitError)
        },
{
    if ft_succeeded(status) {
        Ok(())
    } else {
        Err(FontError::InitError)
    }
}

/// Decides whether a path may be handed to the engine at all.
pub fn path_result(path: &[u8]) -> (r: Result<(), FontError>)
    ensures
        r == if representable(path@) {
            Ok::<(), FontError>(())
        } else {
            Err::<(), FontError>(FontError::EncodingError)
        },
{
    if is_representable(path) {
        Ok(())
    } else {
        Err(FontError::EncodingError)
    }
}

/// Reads the status with which the engine answered the opening of a face.
pub fn open_result(status: i32) -> (r: Result<(), FontError>)
    ensures
        r == if status == 0 {
            Ok::<(), FontError>(())
        } else {
            Err::<(), FontError>(FontError::OpenError)
        },
{
    if ft_succeeded(status) {
        Ok(())
    } else {
        Err(FontError::OpenError)
    }
}

} // verus!
