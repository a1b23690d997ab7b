use vstd::prelude::*;
use crate::error::PantryError;
use crate::json::Json;
use crate::pantry::{decode_pantry, decodes_pantry, pantry_decodable, GetPantryResponse};

verus! {

/// A status in 200..=299: the service did what was asked.
pub open spec fn is_success(status: u16) -> bool {
    200 <= status <= 299
}

/// Whether `status` reports success.
pub fn succeeded(status: u16) -> (r: bool)
    ensures
        r == is_success(status),
{
    200 <= status && status <= 299
}

/// What a reply whose body is taken as text yields: the body on success, and
/// the status with the body as a rejection otherwise.
pub open spec fn text_outcome(status: u16, text: String) -> Result<String, PantryError> {
    if is_success(status) {
        Ok(text)
    } else {
        Err(PantryError::Rejected(status, text))
    }
}

/// What a reply whose body is taken as a JSON document yields. `parsed` is the
/// body read as JSON, or why it could not be.
pub open spec fn json_outcome(status: u16, text: String, parsed: Result<Json, String>) -> Result<
    Json,
    PantryError,
> {
    if !is_success(status) {
        Err(PantryError::Rejected(status, text))
    } else {
        match parsed {
            Ok(j) => Ok(j),
            Err(why) => Err(PantryError::Decode(why)),
        }
    }
}

/// The result of an operation whose reply body is plain text: the body itself
/// when `status` is a success, else [`PantryError::Rejected`].
pub fn read_text(status: u16, text: String) -> (r: Result<String, PantryError>)
    ensures
        r == text_outcome(status, text),
{
    if succeeded(status) {
        Ok(text)
    } else {
        Err(PantryError::Rejected(status, text))
    }
}

/// The result of an operation whose reply body is an arbitrary JSON document.
///
/// A status outside 200..=299 is a rejection whatever the body holds; a
/// success whose body is not JSON is a decoding failure.
pub fn read_json(status: u16, text: String, parsed: Result<Json, String>) -> (r: Result<
    Json,
    PantryError,
>)
    ensures
        r == json_outcome(status, text, parsed),
{
    if !succeeded(status) {
        return Err(PantryError::Rejected(status, text));
    }
    match parsed {
        Ok(j) => Ok(j),
        Err(why) => Err(PantryError::Decode(why)),
    }
}

/// The result of an operation whose reply body holds a pantry's details.
///
/// A status outside 200..=299 is a rejection; a success whose body is not
/// JSON, or not of the shape of a pantry, is a decoding failure.
pub fn read_pantry(status: u16, text: String, parsed: Result<Json, String>) -> (r: Result<
    GetPantryResponse,
    PantryError,
>)
    ensures
        !is_success(status) ==> r == Err::<GetPantryResponse, PantryError>(
            PantryError::Rejected(status, text),
        ),
        is_success(status) ==> match parsed {
            Err(why) => r == Err::<GetPantryResponse, PantryError>(PantryError::Decode(why)),
            Ok(j) => {
                &&& r is Ok <==> pantry_decodable(j)
                &&& match r {
                    Ok(p) => decodes_pantry(j, p),
                    Err(e) => e is Decode,
                }
            },
        },
{
    if !succeeded(status) {
        return Err(PantryError::Rejected(status, text));
    }
    match parsed {
        Ok(j) => decode_pantry(&j),
        Err(why) => Err(PantryError::Decode(why)),
    }
}

} // verus!
