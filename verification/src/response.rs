//! Reading what came back: the one decision on the status, and what each
//! decoded body becomes.

use vstd::prelude::*;
use crate::client::AsyncClient;
use crate::error::{ClientError, ErrorWrapper};
use crate::request::{is_success, status_is_success, Response};

verus! {

/// What a decoded success body becomes: the payload, or a decoding failure.
pub open spec fn payload_outcome<T, A>(decoded: Result<T, serde_json::Error>) -> Result<
    T,
    ClientError<A>,
> {
    match decoded {
        Ok(payload) => Ok(payload),
        Err(e) => Err(ClientError::Deserialization(e)),
    }
}

/// What a decoded failure body becomes: the structured error that the
/// envelope holds, or a decoding failure. Never a payload.
pub open spec fn envelope_outcome<T, A>(
    decoded: Result<ErrorWrapper<A>, serde_json::Error>,
) -> Result<T, ClientError<A>> {
    match decoded {
        Ok(envelope) => Err(ClientError::Api(envelope.error)),
        Err(e) => Err(ClientError::Deserialization(e)),
    }
}

/// Whether the decoder that the status of `response` calls for may run on
/// its body.
pub open spec fn decoder_ready<T, A, F, G>(response: Response, decode: F, decode_envelope: G) -> bool
    where
        F: FnOnce(&Vec<u8>) -> Result<T, serde_json::Error>,
        G: FnOnce(&Vec<u8>) -> Result<ErrorWrapper<A>, serde_json::Error>,
{
    if status_is_success(response.status) {
        decode.requires((&response.body,))
    } else {
        decode_envelope.requires((&response.body,))
    }
}

/// Whether `r` is what `response` comes to: in the success range, what
/// `payload_outcome` makes of something that `decode` returns for the body;
/// outside it, what `envelope_outcome` makes of something that
/// `decode_envelope` returns for the body.
pub open spec fn classified<T, A, F, G>(
    response: Response,
    decode: F,
    decode_envelope: G,
    r: Result<T, ClientError<A>>,
) -> bool where
    F: FnOnce(&Vec<u8>) -> Result<T, serde_json::Error>,
    G: FnOnce(&Vec<u8>) -> Result<ErrorWrapper<A>, serde_json::Error>,
 {
    if status_is_success(response.status) {
        exists|d: Result<T, serde_json::Error>| #[trigger]
            decode.ensures((&response.body,), d) && r == payload_outcome::<T, A>(d)
    } else {
        exists|d: Result<ErrorWrapper<A>, serde_json::Error>| #[trigger]
            decode_envelope.ensures((&response.body,), d) && r == envelope_outcome::<T, A>(d)
    }
}

impl AsyncClient {
    /// Reads the outcome of decoding a success body.
    pub fn read_payload<T, A>(decoded: Result<T, serde_json::Error>) -> (r: Result<
        T,
        ClientError<A>,
    >)
        ensures
            r == payload_outcome::<T, A>(decoded),
    {
        match decoded {
            Ok(payload) => Ok(payload),
            Err(e) => Err(ClientError::Deserialization(e)),
        }
    }

    /// Reads the outcome of decoding a failure body as the error envelope.
    pub fn read_envelope<T, A>(decoded: Result<ErrorWrapper<A>, serde_json::Error>) -> (r: Result<
        T,
        ClientError<A>,
    >)
        ensures
            r == envelope_outcome::<T, A>(decoded),
    {
        match decoded {
            Ok(envelope) => Err(ClientError::Api(envelope.error)),
            Err(e) => Err(ClientError::Deserialization(e)),
        }
    }

    /// Classifies a response by its status alone. In the success range the
    /// body is decoded as the payload; outside it, as the error envelope. The
    /// decoder that the status calls for runs once, on the whole body; the
    /// other does not run.
    pub fn handle_response<T, A, F, G>(response: Response, decode: F, decode_envelope: G) -> (r:
        Result<T, ClientError<A>>) where
        F: FnOnce(&Vec<u8>) -> Result<T, serde_json::Error>,
        G: FnOnce(&Vec<u8>) -> Result<ErrorWrapper<A>, serde_json::Error>,

        requires
            decoder_ready(response, decode, decode_envelope),
        ensures
            classified(response, decode, decode_envelope, r),
    {
        if is_success(response.status) {
            Self::read_payload(decode(&response.body))
        } else {
            Self::read_envelope(decode_envelope(&response.body))
        }
    }

    /// Reads what the transport came back with: a transport failure is
    /// reported as `Transport`, a response is classified by `handle_response`.
    pub fn complete<T, A, F, G>(
        outcome: Result<Response, reqwest::Error>,
        decode: F,
        decode_envelope: G,
    ) -> (r: Result<T, ClientError<A>>) where
        F: FnOnce(&Vec<u8>) -> Result<T, serde_json::Error>,
        G: FnOnce(&Vec<u8>) -> Result<ErrorWrapper<A>, serde_json::Error>,

        requires
            match outcome {
                Ok(response) => decoder_ready(response, decode, decode_envelope),
                Err(_) => true,
            },
        ensures
            match outcome {
                Ok(response) => classified(response, decode, decode_envelope, r),
                Err(e) => r == Err::<T, ClientError<A>>(ClientError::Transport(e)),
            },
    {
        match outcome {
            Ok(response) => Self::handle_response(response, decode, decode_envelope),
            Err(e) => Err(ClientError::Transport(e)),
        }
    }
}

/// A response in the success range yields the payload that the decoder
/// returned, or the decoder's own failure as `Deserialization`. Its body is
/// never read as an envelope, so it yields no API error.
pub proof fn lemma_success_status_outcome<T, A, F, G>(
    response: Response,
    decode: F,
    decode_envelope: G,
    r: Result<T, ClientError<A>>,
) where
    F: FnOnce(&Vec<u8>) -> Result<T, serde_json::Error>,
    G: FnOnce(&Vec<u8>) -> Result<ErrorWrapper<A>, serde_json::Error>,

    requires
        status_is_success(response.status),
        classified(response, decode, decode_envelope, r),
    ensures
        match r {
            Ok(payload) => decode.ensures((&response.body,), Ok(payload)),
            Err(ClientError::Deserialization(e)) => decode.ensures((&response.body,), Err(e)),
            Err(_) => false,
        },
{
}

/// A response outside the success range never yields a payload. It yields an
/// API error only where the body decoded as the envelope, with the error that
/// the envelope holds; where the body did not decode, it yields the decoder's
/// own failure as `Deserialization`.
pub proof fn lemma_failure_status_outcome<T, A, F, G>(
    response: Response,
    decode: F,
    decode_envelope: G,
    r: Result<T, ClientError<A>>,
) where
    F: FnOnce(&Vec<u8>) -> Result<T, serde_json::Error>,
    G: FnOnce(&Vec<u8>) -> Result<ErrorWrapper<A>, serde_json::Error>,

    requires
        !status_is_success(response.status),
        classified(response, decode, decode_envelope, r),
    ensures
        match r {
            Ok(_) => false,
            Err(ClientError::Api(error)) => decode_envelope.ensures(
                (&response.body,),
                Ok((ErrorWrapper { error: error })),
            ),
            Err(ClientError::Deserialization(e)) => decode_envelope.ensures(
                (&response.body,),
                Err(e),
            ),
            Err(_) => false,
        },
{
}

} // verus!
