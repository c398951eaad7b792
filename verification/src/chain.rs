//! The boundary to the chain runtime: the identifier types of `gstd` and the
//! syscall-backed operations the library dispatches through. Every function
//! here hands its arguments to the runtime as they are; what the runtime
//! answers depends on the execution environment, so the contracts state only
//! what holds of every outcome.

use vstd::prelude::*;
use gstd::ActorId;
use gstd::MessageId;
use gstd::ReservationId;
use gstd::errors::Error;

verus! {

#[verifier::external_type_specification]
#[verifier::external_body]
pub struct ExActorId(ActorId);

#[verifier::external_type_specification]
#[verifier::external_body]
pub struct ExMessageId(MessageId);

#[verifier::external_type_specification]
#[verifier::external_body]
pub struct ExReservationId(ReservationId);

#[verifier::external_type_specification]
#[verifier::external_body]
pub struct ExError(Error);

/// Relies on gstd::exec::block_height: reads the current block height from
/// the execution environment. The value depends on the chain's state, so
/// nothing is stated of it.
#[verifier::external_body]
pub(crate) fn block_height() -> u32 {
    gstd::exec::block_height()
}

/// Relies on gstd::exec::block_timestamp: reads the current block's timestamp
/// in milliseconds since the Unix epoch. The value depends on the chain's
/// state, so nothing is stated of it.
#[verifier::external_body]
pub(crate) fn block_timestamp() -> u64 {
    gstd::exec::block_timestamp()
}

/// Relies on gstd::msg::send_bytes: queues `payload` for `program` with
/// `value` attached, delivered as soon as possible. The runtime decides
/// whether the send is accepted, so nothing is stated of the result.
#[verifier::external_body]
pub(crate) fn send_bytes(program: ActorId, payload: Vec<u8>, value: u128) -> Result<
    MessageId,
    Error,
> {
    gstd::msg::send_bytes(program, payload, value).map_err(Error::Core)
}

/// Relies on gstd::msg::send_bytes_delayed: queues `payload` for `program`
/// with `value` attached, delivered after `delay` blocks. The runtime decides
/// whether the send is accepted, so nothing is stated of the result.
#[verifier::external_body]
pub(crate) fn send_bytes_delayed(
    program: ActorId,
    payload: Vec<u8>,
    value: u128,
    delay: u32,
) -> Result<MessageId, Error> {
    gstd::msg::send_bytes_delayed(program, payload, value, delay).map_err(Error::Core)
}

/// Relies on gstd::msg::send_bytes_delayed_from_reservation: like the delayed
/// send, but funded from the gas reservation `id` instead of the live gas
/// budget. The runtime decides whether the send is accepted, so nothing is
/// stated of the result.
#[verifier::external_body]
pub(crate) fn send_bytes_delayed_from_reservation(
    id: ReservationId,
    program: ActorId,
    payload: Vec<u8>,
    value: u128,
    delay: u32,
) -> Result<MessageId, Error> {
    gstd::msg::send_bytes_delayed_from_reservation(id, program, payload, value, delay).map_err(
        Error::Core,
    )
}

} // verus!
