//! Calling a zome function on the agent's cell.

use crate::context::AgentContext;
use crate::keys::CellId;
use crate::progress::Progress;
use vstd::prelude::*;

verus! {

/// What calling a zome function asks for. `C` is a connected app client.
#[derive(Debug, PartialEq, Eq)]
pub enum ZomeRequest<'a, C> {
    /// Encode the payload.
    EncodePayload,
    /// Call the function on a cell through a client, with an encoded payload.
    CallZome {
        app_client: &'a C,
        cell_id: CellId,
        zome_name: String,
        fn_name: String,
        payload: Vec<u8>,
    },
    /// Decode the response.
    DecodeResponse { response: Vec<u8> },
}

/// What comes back: `O` is a decoded response, `E` what a failed request came back with.
#[derive(Debug, PartialEq, Eq)]
pub enum ZomeReply<O, E> {
    PayloadEncoded(Result<Vec<u8>, E>),
    ZomeCalled(Result<Vec<u8>, E>),
    ResponseDecoded(Result<O, E>),
}

/// Why a call failed.
#[derive(Debug, PartialEq, Eq)]
pub enum ZomeError<E> {
    /// Encoding the payload failed.
    EncodePayload(E),
    /// The call failed.
    CallZome(E),
    /// Decoding the response failed.
    DecodeResponse(E),
}

/// How far a call has come.
#[derive(Debug, Clone, Copy, PartialEq, Eq)]
pub enum ZomeStep {
    Encoding,
    Calling,
    Decoding,
    Finished,
}

/// A call that is being made.
#[derive(Debug, PartialEq, Eq)]
pub struct ZomeFlow<'a, C> {
    pub app_client: &'a C,
    pub cell_id: CellId,
    pub zome_name: String,
    pub fn_name: String,
    pub step: ZomeStep,
}

/// What a call flow answers.
pub type ZomeProgress<'a, C, O, E> = Progress<ZomeRequest<'a, C>, O, ZomeError<E>>;

impl<'a, C> ZomeFlow<'a, C> {
    pub open spec fn at(self, step: ZomeStep) -> Self {
        ZomeFlow { step, ..self }
    }

    /// The call with which an agent begins, on the cell and through the client that it remembers.
    pub open spec fn first(ctx: &'a AgentContext<C>, zome_name: String, fn_name: String) -> Self {
        ZomeFlow {
            app_client: &ctx.app_client->0,
            cell_id: ctx.cell_id->0,
            zome_name,
            fn_name,
            step: ZomeStep::Encoding,
        }
    }

    /// The request for the call itself.
    pub open spec fn call(self, payload: Vec<u8>) -> ZomeRequest<'a, C> {
        ZomeRequest::CallZome {
            app_client: self.app_client,
            cell_id: self.cell_id,
            zome_name: self.zome_name,
            fn_name: self.fn_name,
            payload,
        }
    }

    /// What follows a reply.
    pub open spec fn next<O, E>(self, reply: ZomeReply<O, E>) -> (
        Self,
        Option<ZomeProgress<'a, C, O, E>>,
    ) {
        match (self.step, reply) {
            (ZomeStep::Encoding, ZomeReply::PayloadEncoded(Ok(payload))) => (
                self.at(ZomeStep::Calling),
                Some(Progress::Ask(self.call(payload))),
            ),
            (ZomeStep::Encoding, ZomeReply::PayloadEncoded(Err(error))) => (
                self.at(ZomeStep::Finished),
                Some(Progress::Finish(Err(ZomeError::EncodePayload(error)))),
            ),
            (ZomeStep::Calling, ZomeReply::ZomeCalled(Ok(response))) => (
                self.at(ZomeStep::Decoding),
                Some(Progress::Ask(ZomeRequest::DecodeResponse { response })),
            ),
            (ZomeStep::Calling, ZomeReply::ZomeCalled(Err(error))) => (
                self.at(ZomeStep::Finished),
                Some(Progress::Finish(Err(ZomeError::CallZome(error)))),
            ),
            (ZomeStep::Decoding, ZomeReply::ResponseDecoded(Ok(output))) => (
                self.at(ZomeStep::Finished),
                Some(Progress::Finish(Ok(output))),
            ),
            (ZomeStep::Decoding, ZomeReply::ResponseDecoded(Err(error))) => (
                self.at(ZomeStep::Finished),
                Some(Progress::Finish(Err(ZomeError::DecodeResponse(error)))),
            ),
            _ => (self, None),
        }
    }

    /// Begins to call a zome function, on the cell and through the client that the agent remembers.
    pub fn begin(ctx: &'a AgentContext<C>, zome_name: String, fn_name: String) -> (res: (
        ZomeFlow<'a, C>,
        ZomeRequest<'a, C>,
    ))
        requires
            ctx.cell_id is Some,
            ctx.app_client is Some,
        ensures
            res.0 == ZomeFlow::first(ctx, zome_name, fn_name),
            res.1 == ZomeRequest::<'a, C>::EncodePayload,
    {
        let app_client = ctx.app_client.as_ref().unwrap();
        let cell_id = ctx.cell_id.unwrap();
        (
            ZomeFlow { app_client, cell_id, zome_name, fn_name, step: ZomeStep::Encoding },
            ZomeRequest::EncodePayload,
        )
    }
}

/// Takes a call one reply further.
pub fn call_zome<'a, C, O, E>(flow: ZomeFlow<'a, C>, reply: ZomeReply<O, E>) -> (res: (
    ZomeFlow<'a, C>,
    Option<ZomeProgress<'a, C, O, E>>,
))
    ensures
        res == flow.next(reply),
{
    let ZomeFlow { app_client, cell_id, zome_name, fn_name, step } = flow;
    let (step, progress) = match (step, reply) {
        (ZomeStep::Encoding, ZomeReply::PayloadEncoded(Ok(payload))) => (
            ZomeStep::Calling,
            Some(
                Progress::Ask(
                    ZomeRequest::CallZome {
                        app_client,
                        cell_id,
                        zome_name: zome_name.clone(),
                        fn_name: fn_name.clone(),
                        payload,
                    },
                ),
            ),
        ),
        (ZomeStep::Encoding, ZomeReply::PayloadEncoded(Err(error))) => (
            ZomeStep::Finished,
            Some(Progress::Finish(Err(ZomeError::EncodePayload(error)))),
        ),
        (ZomeStep::Calling, ZomeReply::ZomeCalled(Ok(response))) => (
            ZomeStep::Decoding,
            Some(Progress::Ask(ZomeRequest::DecodeResponse { response })),
        ),
        (ZomeStep::Calling, ZomeReply::ZomeCalled(Err(error))) => (
            ZomeStep::Finished,
            Some(Progress::Finish(Err(ZomeError::CallZome(error)))),
        ),
        (ZomeStep::Decoding, ZomeReply::ResponseDecoded(Ok(output))) => (
            ZomeStep::Finished,
            Some(Progress::Finish(Ok(output))),
        ),
        (ZomeStep::Decoding, ZomeReply::ResponseDecoded(Err(error))) => (
            ZomeStep::Finished,
            Some(Progress::Finish(Err(ZomeError::DecodeResponse(error)))),
        ),
        (step, _) => (step, None),
    };
    (ZomeFlow { app_client, cell_id, zome_name, fn_name, step }, progress)
}

impl<'a, C> ZomeFlow<'a, C> {
    /// How many replies the flow still waits for at most.
    pub open spec fn steps_left(self) -> nat {
        match self.step {
            ZomeStep::Encoding => 3,
            ZomeStep::Calling => 2,
            ZomeStep::Decoding => 1,
            ZomeStep::Finished => 0,
        }
    }
}

/// A call comes to an end: every reply that is answered brings the end closer, and the end is
/// reached with the answer that says so.
pub proof fn law_calling_ends<'a, C, O, E>(flow: ZomeFlow<'a, C>, reply: ZomeReply<O, E>)
    ensures
        flow.next(reply).1 is Some ==> flow.next(reply).0.steps_left() < flow.steps_left(),
        flow.next(reply).1 matches Some(progress) ==> (progress is Finish <==> flow.next(
            reply,
        ).0.steps_left() == 0),
        flow.steps_left() == 0 ==> flow.next(reply).1 is None,
{
}

/// Where nothing fails, the payload reaches the function as it was encoded, and the response comes
/// back as it was decoded.
pub proof fn law_response_comes_back<'a, C, O, E>(
    flow: ZomeFlow<'a, C>,
    payload: Vec<u8>,
    response: Vec<u8>,
    output: O,
)
    requires
        flow.step is Encoding,
    ensures
        ({
            let (calling, first) = flow.next::<O, E>(ZomeReply::PayloadEncoded(Ok(payload)));
            let (decoding, second) = calling.next::<O, E>(ZomeReply::ZomeCalled(Ok(response)));
            let (_, third) = decoding.next::<O, E>(ZomeReply::ResponseDecoded(Ok(output)));
            &&& first == Some(ZomeProgress::<C, O, E>::Ask(flow.call(payload)))
            &&& second == Some(
                ZomeProgress::<C, O, E>::Ask(ZomeRequest::DecodeResponse { response }),
            )
            &&& third == Some(ZomeProgress::<C, O, E>::Finish(Ok(output)))
        }),
{
}

} // verus!
