//! A fluent builder for actor-to-actor messages.
//!
//! The builder accumulates a destination, an optional service/method routing
//! pair, pre-encoded arguments, a value transfer and a delay, frames them as
//! one canonical payload, and dispatches the result through the chain runtime:
//! immediately, after a number of blocks, or funded from a gas reservation.
//!
//! The framed payload is `encode(service) ++ encode(method) ++ arguments`
//! when the routing pair is set, and just the arguments otherwise; when no
//! argument was appended, the argument part is the encoding of the unit value.

use vstd::prelude::*;
use gstd::ActorId;
use gstd::MessageId;
use gstd::ReservationId;
use gstd::errors::Error;
use crate::chain;
use crate::codec;
use crate::codec::scale_str;
use crate::codec::scale_unit;
use crate::codec::str_encodable;
use vstd::string::StrSliceExecFns;

verus! {

/// The mathematical state of a builder: what each configuration step has set
/// so far. `payload` is `None` until the first argument is appended, then the
/// accumulated encodings of all appended arguments, in call order.
#[verifier::ext_equal]
pub struct BuilderView {
    pub to: Option<ActorId>,
    pub service: Option<Seq<char>>,
    pub method: Option<Seq<char>>,
    pub payload: Option<Seq<u8>>,
    pub delay: u32,
    pub value: u128,
}

/// The state of a builder on which no configuration step has run yet.
pub open spec fn empty_view() -> BuilderView {
    BuilderView { to: None, service: None, method: None, payload: None, delay: 0, value: 0 }
}

/// One configuration step, as a value: the argument of `apply_op`.
pub enum ConfigOp {
    SetDestination(ActorId),
    SetDelay(u32),
    SetService(Seq<char>),
    SetMethod(Seq<char>),
    AddArg(Seq<u8>),
    SetValue(u128),
}

/// The accumulated argument bytes: empty until an argument is appended.
pub open spec fn stored_payload(p: Option<Seq<u8>>) -> Seq<u8> {
    match p {
        Option::Some(bytes) => bytes,
        Option::None => Seq::empty(),
    }
}

/// What one configuration step does to the builder state. Setting steps
/// overwrite; appending an argument extends the accumulated payload.
pub open spec fn apply_op(s: BuilderView, op: ConfigOp) -> BuilderView {
    match op {
        ConfigOp::SetDestination(to) => BuilderView { to: Some(to), ..s },
        ConfigOp::SetDelay(blocks) => BuilderView { delay: blocks, ..s },
        ConfigOp::SetService(name) => BuilderView { service: Some(name), ..s },
        ConfigOp::SetMethod(name) => BuilderView { method: Some(name), ..s },
        ConfigOp::AddArg(arg) => BuilderView {
            payload: Some(stored_payload(s.payload) + arg),
            ..s
        },
        ConfigOp::SetValue(value) => BuilderView { value: value, ..s },
    }
}

/// A sequence of configuration steps, applied in order.
pub open spec fn apply_ops(s: BuilderView, ops: Seq<ConfigOp>) -> BuilderView
    decreases ops.len(),
{
    if ops.len() == 0 {
        s
    } else {
        apply_ops(apply_op(s, ops[0]), ops.drop_first())
    }
}

/// Whether both halves of the routing pair are set.
pub open spec fn routing_set(s: BuilderView) -> bool {
    s.service is Some && s.method is Some
}

/// A builder may dispatch only with a destination and an all-or-nothing
/// routing pair; on the chain, dispatching in any other state halts the
/// calling task outright.
pub open spec fn dispatchable(s: BuilderView) -> bool {
    &&& s.to is Some
    &&& (s.service is Some <==> s.method is Some)
}

/// Whether the routing names, if both are set, are short enough for the
/// SCALE encoder (a machine limit; nothing of the protocol): framing encodes
/// them only in that case.
pub open spec fn names_encodable(s: BuilderView) -> bool {
    routing_set(s) ==> str_encodable(s.service.unwrap()) && str_encodable(s.method.unwrap())
}

/// The argument part of the wire payload: the accumulated argument encodings,
/// or the encoding of the unit value when no argument was appended.
pub open spec fn spec_args_payload(s: BuilderView) -> Seq<u8> {
    match s.payload {
        Option::Some(bytes) => bytes,
        Option::None => scale_unit(),
    }
}

/// The framed wire payload: encoded service name, then encoded method name,
/// then the argument part, concatenated without separators; without the
/// routing pair, the argument part alone.
pub open spec fn spec_request(s: BuilderView) -> Seq<u8> {
    if routing_set(s) {
        scale_str(s.service.unwrap()) + scale_str(s.method.unwrap()) + spec_args_payload(s)
    } else {
        spec_args_payload(s)
    }
}

/// The fault that makes a dispatch halt: reported by `check_data` so that an
/// unverified caller can halt the task as the chain convention demands.
#[derive(Debug, Clone, Copy, PartialEq, Eq, Structural)]
pub enum DispatchFault {
    /// No destination was set before dispatching.
    MissingDestination,
    /// Exactly one of the service and method names was set.
    PartialRouting,
}

/// A single-use builder for one outgoing message: configured by value-passing
/// steps and consumed by one dispatch call.
pub struct MessageBuilder {
    to: Option<ActorId>,
    service_name: Option<&'static str>,
    method_name: Option<&'static str>,
    payload: Option<Vec<u8>>,
    delayed_duration: u32,
    value: u128,
}

impl View for MessageBuilder {
    type V = BuilderView;

    closed spec fn view(&self) -> BuilderView {
        BuilderView {
            to: self.to,
            service: match self.service_name {
                Option::Some(name) => Some(name@),
                Option::None => None,
            },
            method: match self.method_name {
                Option::Some(name) => Some(name@),
                Option::None => None,
            },
            payload: match self.payload {
                Option::Some(bytes) => Some(bytes@),
                Option::None => None,
            },
            delay: self.delayed_duration,
            value: self.value,
        }
    }
}

impl MessageBuilder {
    /// Creates a builder with nothing configured.
    pub fn new() -> (r: Self)
        ensures
            r@ == empty_view(),
    {
        Self {
            to: None,
            service_name: None,
            method_name: None,
            payload: None,
            delayed_duration: 0,
            value: 0,
        }
    }

    /// Sets the address to send the message to, overwriting any previous one.
    pub fn send_to(self, to: ActorId) -> (r: Self)
        ensures
            r@ == apply_op(self@, ConfigOp::SetDestination(to)),
    {
        Self { to: Some(to), ..self }
    }

    /// Sets the delay, in blocks, after which the message is delivered;
    /// zero means immediate delivery.
    pub fn blocks_to_send_delayed_message(self, blocks: u32) -> (r: Self)
        ensures
            r@ == apply_op(self@, ConfigOp::SetDelay(blocks)),
    {
        Self { delayed_duration: blocks, ..self }
    }

    /// Sets the service name to call. Whoever sets it must set the method
    /// name too: the routing pair is all-or-nothing.
    pub fn service_name(self, service_name: &'static str) -> (r: Self)
        ensures
            r@ == apply_op(self@, ConfigOp::SetService(service_name@)),
    {
        Self { service_name: Some(service_name), ..self }
    }

    /// Sets the method name to call. Whoever sets it must set the service
    /// name too: the routing pair is all-or-nothing.
    pub fn method_name(self, method_name: &'static str) -> (r: Self)
        ensures
            r@ == apply_op(self@, ConfigOp::SetMethod(method_name@)),
    {
        Self { method_name: Some(method_name), ..self }
    }

    /// Appends one pre-encoded argument to the payload. Arguments go on the
    /// wire in the order they were appended, with no separators.
    pub fn add_arg(self, arg: Vec<u8>) -> (r: Self)
        ensures
            r@ == apply_op(self@, ConfigOp::AddArg(arg@)),
    {
        let mut payload_vec = match self.payload {
            Option::Some(bytes) => bytes,
            Option::None => Vec::new(),
        };
        let mut arg = arg;
        payload_vec.append(&mut arg);
        Self { payload: Some(payload_vec), ..self }
    }

    /// Sets the value to transfer with the message; zero by default.
    pub fn with_value(self, value: u128) -> (r: Self)
        ensures
            r@ == apply_op(self@, ConfigOp::SetValue(value)),
    {
        Self { value, ..self }
    }

    /// Reports the fault that would halt a dispatch of this builder, if any:
    /// a missing destination is reported first, then a partial routing pair.
    pub fn check_data(&self) -> (r: Result<(), DispatchFault>)
        ensures
            r is Ok <==> dispatchable(self@),
            self@.to is None ==> r == Result::<(), DispatchFault>::Err(
                DispatchFault::MissingDestination,
            ),
            self@.to is Some && !(self@.service is Some <==> self@.method is Some) ==> r
                == Result::<(), DispatchFault>::Err(DispatchFault::PartialRouting),
    {
        if self.to.is_none() {
            return Err(DispatchFault::MissingDestination);
        }

        let sails_check_1 = self.service_name.is_some() && self.method_name.is_none();
        let sails_check_2 = self.service_name.is_none() && self.method_name.is_some();

        if sails_check_1 || sails_check_2 {
            return Err(DispatchFault::PartialRouting);
        }

        Ok(())
    }

    /// Whether the routing names are short enough for the SCALE encoder: the
    /// runtime test of `names_encodable`, for callers that cannot prove it.
    pub fn names_fit(&self) -> (r: bool)
        ensures
            r == names_encodable(self@),
    {
        let routing = self.service_name.is_some() && self.method_name.is_some();

        if routing {
            let service_len = self.service_name.unwrap().unicode_len();
            let method_len = self.method_name.unwrap().unicode_len();
            service_len < 0x4000_0000 && method_len < 0x4000_0000
        } else {
            true
        }
    }

    /// Frames the wire payload of this builder: encoded service and method
    /// names followed by the argument part when routing is set, the argument
    /// part alone otherwise.
    pub fn get_request(&self) -> (r: Vec<u8>)
        requires
            names_encodable(self@),
        ensures
            r@ == spec_request(self@),
    {
        let payload: Vec<u8> = match &self.payload {
            Option::Some(bytes) => {
                let copied = bytes.clone();
                proof {
                    assert forall|i: int| 0 <= i < bytes@.len() implies copied@[i] == bytes@[i] by {
                        assert(vstd::pervasive::cloned::<u8>(bytes@[i], copied@[i]));
                    }
                    assert(copied@ =~= bytes@);
                }
                copied
            },
            Option::None => codec::encode_unit(),
        };

        let contract_payload = self.service_name.is_some() && self.method_name.is_some();

        if contract_payload {
            let mut request = codec::encode_str(self.service_name.unwrap());
            let mut method_bytes = codec::encode_str(self.method_name.unwrap());
            let mut args_bytes = payload;
            request.append(&mut method_bytes);
            request.append(&mut args_bytes);
            request
        } else {
            payload
        }
    }

    /// Takes the builder apart for dispatching: the destination, the framed
    /// wire payload, and the value to attach.
    pub fn request_parts(self) -> (r: (ActorId, Vec<u8>, u128))
        requires
            dispatchable(self@),
            names_encodable(self@),
        ensures
            r.0 == self@.to.unwrap(),
            r.1@ == spec_request(self@),
            r.2 == self@.value,
    {
        let request = self.get_request();
        let to = self.to.unwrap();
        (to, request, self.value)
    }

    /// Dispatches the message immediately, consuming the builder; the framed
    /// payload, destination and value are handed to the chain runtime, which
    /// decides whether the send is accepted.
    pub fn send(self) -> (r: Result<MessageId, Error>)
        requires
            dispatchable(self@),
            names_encodable(self@),
    {
        let (to, request, value) = self.request_parts();

        chain::send_bytes(to, request, value)
    }

    /// Dispatches the message after the configured number of blocks,
    /// consuming the builder; funded from the live gas budget.
    pub fn send_delayed(self) -> (r: Result<MessageId, Error>)
        requires
            dispatchable(self@),
            names_encodable(self@),
    {
        let delay = self.delayed_duration;
        let (to, request, value) = self.request_parts();

        chain::send_bytes_delayed(to, request, value, delay)
    }

    /// Dispatches the message after the configured number of blocks, funded
    /// from the gas reservation `reservation_id` rather than the live budget;
    /// a zero delay still goes through the reservation-funded path.
    pub fn send_delayed_with_reservation(self, reservation_id: ReservationId) -> (r: Result<
        MessageId,
        Error,
    >)
        requires
            dispatchable(self@),
            names_encodable(self@),
    {
        let delay = self.delayed_duration;
        let (to, request, value) = self.request_parts();

        chain::send_bytes_delayed_from_reservation(reservation_id, to, request, value, delay)
    }
}

/// Law: a configuration sequence that never sets a destination leaves the
/// destination unset, so every dispatch operation refuses the builder.
pub proof fn lemma_no_destination_refused(ops: Seq<ConfigOp>)
    requires
        forall|i: int| 0 <= i < ops.len() ==> !(#[trigger] ops[i] is SetDestination),
    ensures
        apply_ops(empty_view(), ops).to is None,
        !dispatchable(apply_ops(empty_view(), ops)),
{
    lemma_ops_keep_missing_destination(empty_view(), ops);
}

proof fn lemma_ops_keep_missing_destination(s: BuilderView, ops: Seq<ConfigOp>)
    requires
        s.to is None,
        forall|i: int| 0 <= i < ops.len() ==> !(#[trigger] ops[i] is SetDestination),
    ensures
        apply_ops(s, ops).to is None,
    decreases ops.len(),
{
    if ops.len() > 0 {
        let s1 = apply_op(s, ops[0]);
        assert(s1.to is None);
        assert forall|i: int| 0 <= i < ops.drop_first().len() implies !(#[trigger] (
        ops.drop_first()[i]) is SetDestination) by {
            assert(ops.drop_first()[i] == ops[i + 1]);
        }
        lemma_ops_keep_missing_destination(s1, ops.drop_first());
    }
}

/// Law: a builder with exactly one of the service and method names set is
/// refused by every dispatch operation.
pub proof fn lemma_partial_routing_refused(s: BuilderView)
    requires
        (s.service is Some) != (s.method is Some),
    ensures
        !dispatchable(s),
{
}

/// The configuration sequence that appends each of `args`, in order.
pub open spec fn add_arg_ops(args: Seq<Seq<u8>>) -> Seq<ConfigOp> {
    args.map_values(|arg: Seq<u8>| ConfigOp::AddArg(arg))
}

/// The concatenation of `args` in order, with no separators.
pub open spec fn concat_args(args: Seq<Seq<u8>>) -> Seq<u8>
    decreases args.len(),
{
    if args.len() == 0 {
        Seq::empty()
    } else {
        args[0] + concat_args(args.drop_first())
    }
}

/// Law: with routing unset, appending the already-encoded arguments
/// `a1, ..., an` in order frames the payload as the unit encoding when
/// `n == 0`, and as `a1 ++ a2 ++ ... ++ an` otherwise.
pub proof fn lemma_arguments_framed_in_order(args: Seq<Seq<u8>>)
    ensures
        args.len() == 0 ==> spec_request(apply_ops(empty_view(), add_arg_ops(args)))
            == scale_unit(),
        args.len() > 0 ==> spec_request(apply_ops(empty_view(), add_arg_ops(args))) == concat_args(
            args,
        ),
{
    lemma_add_args_accumulate(empty_view(), args);
    if args.len() > 0 {
        assert(Seq::<u8>::empty() + concat_args(args) =~= concat_args(args));
    }
}

proof fn lemma_add_args_accumulate(s: BuilderView, args: Seq<Seq<u8>>)
    ensures
        args.len() == 0 ==> apply_ops(s, add_arg_ops(args)) == s,
        args.len() > 0 ==> apply_ops(s, add_arg_ops(args)) =~= (BuilderView {
            payload: Some(stored_payload(s.payload) + concat_args(args)),
            ..s
        }),
    decreases args.len(),
{
    let ops = add_arg_ops(args);
    if args.len() == 0 {
        assert(ops.len() == 0);
    } else {
        assert(ops[0] == ConfigOp::AddArg(args[0]));
        let s1 = apply_op(s, ops[0]);
        assert(ops.drop_first() =~= add_arg_ops(args.drop_first()));
        lemma_add_args_accumulate(s1, args.drop_first());
        if args.drop_first().len() > 0 {
            assert(stored_payload(s.payload) + args[0] + concat_args(args.drop_first())
                =~= stored_payload(s.payload) + (args[0] + concat_args(args.drop_first())));
        } else {
            assert(args[0] + concat_args(args.drop_first()) =~= args[0]);
        }
    }
}

/// Law: with the routing pair set to a service `S` and a method `M`, the
/// framed payload is `encode(S) ++ encode(M) ++ argument part`, concatenated
/// without separators.
pub proof fn lemma_routing_framed_first(s: BuilderView)
    requires
        s.service is Some,
        s.method is Some,
    ensures
        spec_request(s) == scale_str(s.service.unwrap()) + scale_str(s.method.unwrap())
            + spec_args_payload(s),
{
}

/// Law: two builders configured by identical operations in the same order
/// frame byte-identical payloads.
pub proof fn lemma_same_operations_same_request(ops: Seq<ConfigOp>, a: BuilderView, b: BuilderView)
    requires
        a == apply_ops(empty_view(), ops),
        b == apply_ops(empty_view(), ops),
    ensures
        spec_request(a) == spec_request(b),
{
}

/// The caller-visible part of a reply: replies arrive as the echoed service
/// and method names followed by the response value, and only the response
/// value is handed back.
pub fn reply_value<R>(reply: (String, String, R)) -> (r: R)
    ensures
        r == reply.2,
{
    reply.2
}

} // verus!
