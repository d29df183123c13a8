//! Reaching a database host: the connection attempt and what it is given.

pub mod address;
pub mod conntest;
pub mod options;
pub mod runs;
pub mod timeout;

use vstd::prelude::*;
use vstd::string::StringExecFns;
use crate::pool::address::{dotted_quad, numeric, parse_dotted_quad, AddressError, TCP_TEST_PORT};
use crate::pool::conntest::{Action, ConnectionAttempt, ConnectionError, TargetAddress};
use crate::pool::timeout::Timeout;

verus! {

/// What the user is told when the host could not be reached, whatever the error.
pub open spec fn pool_failure_text() -> Seq<char> {
    "TCP Pool Connection Invalid. Review credentials."@
}

/// Begins the attempt that is made before a pool is built: a connection to
/// `hostname` on [`TCP_TEST_PORT`] within `connection_timeout` seconds.
///
/// Every piece of `hostname` between two dots must be a decimal number from
/// 0 to 255 (`is_numeric` finds out whether that is so); no name is looked
/// up. Nothing is begun, and the count is reported as wrong, where there
/// are not four such pieces.
pub fn begin_tcp_test(hostname: &str, connection_timeout: u64) -> (r: Result<
    (ConnectionAttempt, Action),
    AddressError,
>)
    requires
        numeric(hostname@),
    ensures
        r.is_err() ==> r == Err::<(ConnectionAttempt, Action), AddressError>(
            AddressError::WrongComponentCount,
        ),
        match r {
            Ok((attempt, action)) => {
                &&& dotted_quad(hostname@) == Ok::<Seq<u8>, AddressError>(attempt.target.octets@)
                &&& attempt.target.port == TCP_TEST_PORT
                &&& attempt == ConnectionAttempt::initial(
                    attempt.target,
                    Timeout { secs: connection_timeout, nanos: 0 },
                )
                &&& action == Action::OpenSocket
            },
            Err(error) => dotted_quad(hostname@) == Err::<Seq<u8>, AddressError>(error),
        },
{
    match parse_dotted_quad(hostname) {
        Ok(octets) => Ok(
            ConnectionAttempt::start(
                TargetAddress { octets, port: TCP_TEST_PORT },
                Timeout::from_secs(connection_timeout),
            ),
        ),
        Err(error) => Err(error),
    }
}

/// What the user is told when the attempt has failed: one text for every
/// kind of error.
pub fn pool_failure_message(error: &ConnectionError) -> (r: String)
    ensures
        r@ == pool_failure_text(),
{
    String::from_str("TCP Pool Connection Invalid. Review credentials.")
}

} // verus!
