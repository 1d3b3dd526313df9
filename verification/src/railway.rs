//! The platform API boundary: the response envelope and the rule that
//! decides what a query call returns.
//!
//! The transport itself (HTTP, authentication) lives outside the library;
//! what is modelled here is the envelope every operation shares: a body
//! that may carry an error list, and data that may be absent.

pub mod deployment;
pub mod project;
pub mod service;
pub mod template;
pub mod workflow;

use vstd::prelude::*;

use crate::error::Error;

verus! {

/// One error message reported inside an API response body.
#[derive(Debug, Clone)]
pub struct RailwayError {
    pub message: String,
}

/// The envelope of every API response: optional data and a list of
/// body-level errors.
#[derive(Debug)]
pub struct RailwayResponse<T> {
    pub data: Option<T>,
    pub errors: Vec<RailwayError>,
}

/// The messages of an error list, in order.
pub open spec fn error_messages(errors: Seq<RailwayError>) -> Seq<String> {
    errors.map_values(|e: RailwayError| e.message)
}

/// The API boundary itself; its transport runs outside the library, and
/// these functions decide what a finished call amounts to.
pub struct Railway;

impl Railway {
    /// The envelope rule: body-level errors take precedence over any data,
    /// present data is the result, and a response with neither is itself
    /// an error.
    pub fn resolve<T>(response: RailwayResponse<T>) -> (r: Result<T, Error>)
        ensures
            response.errors@.len() > 0 ==> (r matches Err(e) && e matches Error::Railway(msgs)
                && msgs@ == error_messages(response.errors@)),
            response.errors@.len() == 0 && response.data is Some ==> r == Ok::<T, Error>(
                response.data.unwrap(),
            ),
            response.errors@.len() == 0 && response.data is None ==> r == Err::<T, Error>(
                Error::RailwayDataMissing,
            ),
    {
        if response.errors.len() > 0 {
            let mut rest = response.errors;
            let ghost all: Seq<RailwayError> = rest@;
            let mut msgs: Vec<String> = Vec::new();
            while rest.len() > 0
                invariant
                    msgs@.len() + rest@.len() == all.len(),
                    rest@ == all.skip(msgs@.len() as int),
                    msgs@ == error_messages(all.take(msgs@.len() as int)),
                decreases rest.len(),
            {
                let ghost k: int = msgs@.len() as int;
                let e = rest.remove(0);
                proof {
                    assert(all.skip(k)[0] == all[k]);
                    assert(all.skip(k).remove(0) =~= all.skip(k + 1));
                    assert(all.take(k + 1).drop_last() =~= all.take(k));
                }
                msgs.push(e.message);
                proof {
                    assert(msgs@ =~= error_messages(all.take(k + 1)));
                }
            }
            proof {
                assert(all.take(msgs@.len() as int) =~= all);
            }
            Err(Error::Railway(msgs))
        } else {
            match response.data {
                Some(data) => Ok(data),
                None => Err(Error::RailwayDataMissing),
            }
        }
    }

    /// The transport-status rule: a non-success status code turns into a
    /// status error carrying the code and the response body.
    pub fn classify_status(status: u16, body: String) -> (r: Result<(), Error>)
        ensures
            status == 200 ==> r is Ok,
            status != 200 ==> r == Err::<(), Error>(Error::RailwayStatusFailure(status, body)),
    {
        if status == 200 {
            Ok(())
        } else {
            Err(Error::RailwayStatusFailure(status, body))
        }
    }
}

} // verus!
