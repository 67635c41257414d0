//! Reading persisted state: what a read of a store file came to, and what
//! the application makes of it.

use vstd::prelude::*;

verus! {

/// Outcome of reading one store file and decoding what it holds.
pub enum StoreRead<T> {
    /// There is no such file.
    Missing,
    /// The file exists and could not be read; the platform's words.
    Unreadable(String),
    /// The file was read and does not hold a value; the decoder's words.
    Malformed(String),
    /// The value that the file holds.
    Loaded(T),
}

/// Why persisted state could not be had.
#[derive(Debug)]
pub enum StoreError {
    /// Reading the file failed.
    ReadFailed(String),
    /// The content of the file is not what the store holds.
    ParseFailed(String),
}

/// The value to work with after a read: the stored one, `fallback` where
/// the file is missing, and an error where the file is there and useless.
pub fn loaded_or<T>(read: StoreRead<T>, fallback: T) -> (r: Result<T, StoreError>)
    ensures
        r == match read {
            StoreRead::Missing => Ok::<T, StoreError>(fallback),
            StoreRead::Unreadable(why) => Err::<T, StoreError>(StoreError::ReadFailed(why)),
            StoreRead::Malformed(why) => Err::<T, StoreError>(StoreError::ParseFailed(why)),
            StoreRead::Loaded(value) => Ok::<T, StoreError>(value),
        },
{
    match read {
        StoreRead::Missing => Ok(fallback),
        StoreRead::Unreadable(why) => Err(StoreError::ReadFailed(why)),
        StoreRead::Malformed(why) => Err(StoreError::ParseFailed(why)),
        StoreRead::Loaded(value) => Ok(value),
    }
}

} // verus!
