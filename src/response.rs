use vstd::prelude::*;

verus! {

/// Integer type of the API's numeric fields.
pub type Integer = i64;

/// Contains information about why a request was unsuccessful.
#[derive(Debug, Clone, PartialEq, Eq, PartialOrd, Structural)]
pub struct ResponseParameters {
    /// The group has been migrated to a supergroup with the specified identifier.
    pub migrate_to_chat_id: Option<Integer>,
    /// In case of exceeding flood control, the number of seconds left to wait
    /// before the request can be repeated.
    pub retry_after: Option<Integer>,
}

/// Directly mapped API response: every field but `ok` is independently optional,
/// and nothing ties them together.
#[derive(Debug, Clone, PartialEq, PartialOrd)]
pub struct RawResponse<T> {
    /// If `ok` equals true, the request was successful.
    pub ok: bool,
    /// Human-readable description of the result.
    pub description: Option<String>,
    /// Result of the query.
    pub result: Option<T>,
    /// Information about why a request was unsuccessful.
    pub parameters: Option<ResponseParameters>,
}

/// All API responses are of this type.
#[derive(Debug, Clone, PartialEq, PartialOrd)]
pub enum Response<T> {
    /// Request was successful.
    Success {
        /// Response result.
        result: T,
    },
    /// Request was unsuccessful.
    Error {
        /// Human-readable description of the result.
        description: String,
        /// Contains information about why a request was unsuccessful.
        parameters: Option<ResponseParameters>,
    },
}

/// The envelope's `ok`, `description` and `result` fields fit neither the
/// success shape nor the error shape.
#[derive(Debug, Clone, Copy, PartialEq, Eq, Structural)]
pub struct AmbiguousResponse;

impl AmbiguousResponse {
    /// Text that describes the rejection.
    pub fn message(&self) -> (m: &'static str)
        ensures
            m@ == "ambiguous response"@,
    {
        "ambiguous response"
    }
}

/// An envelope in the success shape: `ok` set, a result and no description.
pub open spec fn is_success_shape<T>(raw: RawResponse<T>) -> bool {
    &&& raw.ok
    &&& raw.description is None
    &&& raw.result is Some
}

/// An envelope in the error shape: `ok` clear, a description and no result.
pub open spec fn is_error_shape<T>(raw: RawResponse<T>) -> bool {
    &&& !raw.ok
    &&& raw.description is Some
    &&& raw.result is None
}

/// What an envelope decodes to.
pub open spec fn decoded<T>(raw: RawResponse<T>) -> Result<Response<T>, AmbiguousResponse> {
    if is_success_shape(raw) {
        Ok(Response::Success { result: raw.result->0 })
    } else if is_error_shape(raw) {
        Ok(Response::Error { description: raw.description->0, parameters: raw.parameters })
    } else {
        Err(AmbiguousResponse)
    }
}

/// The envelope that a response is sent as.
pub open spec fn encoded<T>(r: Response<T>) -> RawResponse<T> {
    match r {
        Response::Success { result } => RawResponse {
            ok: true,
            description: None,
            result: Some(result),
            parameters: None,
        },
        Response::Error { description, parameters } => RawResponse {
            ok: false,
            description: Some(description),
            result: None,
            parameters,
        },
    }
}

impl<T> Response<T> {
    /// Classifies an envelope as a success or an error, or rejects it as
    /// ambiguous. The parameters of an error envelope move into the error;
    /// those of a success envelope are dropped.
    pub fn from_raw(raw: RawResponse<T>) -> (r: Result<Response<T>, AmbiguousResponse>)
        ensures
            r == decoded(raw),
            r is Ok <==> (is_success_shape(raw) || is_error_shape(raw)),
            !is_success_shape(raw) && !is_error_shape(raw)
                ==> r == Err::<Response<T>, AmbiguousResponse>(AmbiguousResponse),
            raw.ok && raw.description is None && raw.result is Some
                ==> r == Ok::<Response<T>, AmbiguousResponse>(Response::Success { result: raw.result->0 }),
            !raw.ok && raw.description is Some && raw.result is None
                ==> r == Ok::<Response<T>, AmbiguousResponse>(Response::Error {
                    description: raw.description->0,
                    parameters: raw.parameters,
                }),
    {
        match (raw.ok, raw.description, raw.result) {
            (false, Some(description), None) => Ok(
                Response::Error { description, parameters: raw.parameters },
            ),
            (true, None, Some(result)) => Ok(Response::Success { result }),
            _ => Err(AmbiguousResponse),
        }
    }

    /// The envelope in which this response travels: a success carries `ok`
    /// and its result, an error its description and parameters.
    pub fn into_raw(self) -> (raw: RawResponse<T>)
        ensures
            raw == encoded(self),
    {
        match self {
            Response::Success { result } => RawResponse {
                ok: true,
                description: None,
                result: Some(result),
                parameters: None,
            },
            Response::Error { description, parameters } => RawResponse {
                ok: false,
                description: Some(description),
                result: None,
                parameters,
            },
        }
    }
}

/// Encoding a response as an envelope and decoding that envelope gives back
/// the same response.
pub proof fn lemma_decode_encoded<T>(r: Response<T>)
    ensures
        decoded(encoded(r)) == Ok::<Response<T>, AmbiguousResponse>(r),
{
}

} // verus!
