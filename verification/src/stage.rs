//! The RDP protocol stage of a running session: what it hands out, and the clipboard channel
//! inside it.
use crate::clipboard::unicode_text_format_id;
use ironrdp_cliprdr::pdu::{ClipboardFormat, ClipboardFormatId, FormatDataResponse};
use ironrdp_cliprdr::CliprdrClient;
use ironrdp_core::IntoOwned as _;
use ironrdp_session::fast_path::ProcessorBuilder;
use ironrdp_session::{ActiveStage, ActiveStageOutput, GracefulDisconnectReason};
use ironrdp_svc::{SvcMessage, SvcProcessorMessages};
use vstd::prelude::*;

verus! {

use crate::clipboard::unicode_text_format;

/// `ironrdp_session::ActiveStage`, which is opaque here.
#[verifier::external_type_specification]
#[verifier::external_body]
pub struct ExActiveStage(ActiveStage);

/// `ironrdp_session::ActiveStageOutput`, which is opaque here.
#[verifier::external_type_specification]
#[verifier::external_body]
pub struct ExActiveStageOutput(ActiveStageOutput);

/// `ironrdp_svc::SvcMessage`, which is opaque here.
#[verifier::external_type_specification]
#[verifier::external_body]
pub struct ExSvcMessage(SvcMessage);

/// A rectangle of the desktop; the right and bottom edges belong to it.
#[derive(Debug, Clone, Copy, PartialEq, Eq, Structural)]
pub struct Region {
    pub left: u16,
    pub top: u16,
    pub right: u16,
    pub bottom: u16,
}

/// How the server or the user ended a session.
#[derive(Debug, PartialEq, Eq)]
pub enum Termination {
    /// The user asked for it.
    UserInitiated,
    /// Anything else, in words.
    Other(String),
}

/// One thing that the stage wants done.
#[derive(Debug, PartialEq, Eq)]
pub enum StageOutput {
    /// Send these bytes to the server.
    ResponseFrame(Vec<u8>),
    /// This part of the desktop image changed.
    GraphicsUpdate(Region),
    PointerDefault,
    PointerHidden,
    PointerPosition,
    PointerBitmap,
    /// The server starts a deactivation-reactivation sequence.
    DeactivateAll,
    MultitransportRequest,
    AutoDetect,
    /// The session is over.
    Terminate(Termination),
}

/// The contents of a [`Termination`].
pub enum TerminationView {
    UserInitiated,
    Other(Seq<char>),
}

/// The contents of a [`StageOutput`].
pub enum StageOutputView {
    ResponseFrame(Seq<u8>),
    GraphicsUpdate(Region),
    PointerDefault,
    PointerHidden,
    PointerPosition,
    PointerBitmap,
    DeactivateAll,
    MultitransportRequest,
    AutoDetect,
    Terminate(TerminationView),
}

impl View for Termination {
    type V = TerminationView;

    open spec fn view(&self) -> TerminationView {
        match self {
            Termination::UserInitiated => TerminationView::UserInitiated,
            Termination::Other(description) => TerminationView::Other(description@),
        }
    }
}

impl View for StageOutput {
    type V = StageOutputView;

    open spec fn view(&self) -> StageOutputView {
        match self {
            StageOutput::ResponseFrame(frame) => StageOutputView::ResponseFrame(frame@),
            StageOutput::GraphicsUpdate(region) => StageOutputView::GraphicsUpdate(*region),
            StageOutput::PointerDefault => StageOutputView::PointerDefault,
            StageOutput::PointerHidden => StageOutputView::PointerHidden,
            StageOutput::PointerPosition => StageOutputView::PointerPosition,
            StageOutput::PointerBitmap => StageOutputView::PointerBitmap,
            StageOutput::DeactivateAll => StageOutputView::DeactivateAll,
            StageOutput::MultitransportRequest => StageOutputView::MultitransportRequest,
            StageOutput::AutoDetect => StageOutputView::AutoDetect,
            StageOutput::Terminate(termination) => StageOutputView::Terminate(termination@),
        }
    }
}

/// The contents of a sequence of outputs.
pub open spec fn outputs_view(outputs: Seq<StageOutput>) -> Seq<StageOutputView> {
    outputs.map_values(|output: StageOutput| output@)
}

/// What an `ActiveStageOutput` holds, as far as a session looks at it.
pub uninterp spec fn output_contents(output: ActiveStageOutput) -> StageOutputView;

/// Takes an `ActiveStageOutput` apart, one variant at a time. The description of a termination
/// is the outside type's own `to_string`.
#[verifier::external_body]
fn stage_output(output: ActiveStageOutput) -> (r: StageOutput)
    ensures
        r@ == output_contents(output),
{
    match output {
        ActiveStageOutput::ResponseFrame(frame) => StageOutput::ResponseFrame(frame),
        ActiveStageOutput::GraphicsUpdate(r) => StageOutput::GraphicsUpdate(
            Region { left: r.left, top: r.top, right: r.right, bottom: r.bottom },
        ),
        ActiveStageOutput::PointerDefault => StageOutput::PointerDefault,
        ActiveStageOutput::PointerHidden => StageOutput::PointerHidden,
        ActiveStageOutput::PointerPosition { .. } => StageOutput::PointerPosition,
        ActiveStageOutput::PointerBitmap(_) => StageOutput::PointerBitmap,
        ActiveStageOutput::DeactivateAll => StageOutput::DeactivateAll,
        ActiveStageOutput::MultitransportRequest(_) => StageOutput::MultitransportRequest,
        ActiveStageOutput::AutoDetect(_) => StageOutput::AutoDetect,
        ActiveStageOutput::Terminate(GracefulDisconnectReason::UserInitiated) => StageOutput::Terminate(Termination::UserInitiated),
        ActiveStageOutput::Terminate(other) => StageOutput::Terminate(Termination::Other(other.to_string())),
    }
}

/// Takes the outputs of the stage apart, in the order in which they have to be handled.
pub fn stage_outputs(outputs: Vec<ActiveStageOutput>) -> (r: Vec<StageOutput>)
    ensures
        outputs_view(r@) == outputs@.map_values(|output: ActiveStageOutput| output_contents(output)),
{
    let mut taken: Vec<StageOutput> = Vec::new();
    let ghost all = outputs@;
    for output in iter: outputs
        invariant
            iter.seq() == all,
            taken@.len() == iter.index(),
            forall|j: int|
                0 <= j < iter.index() ==> (#[trigger] taken@[j])@ == output_contents(all[j]),
    {
        taken.push(stage_output(output));
    }
    assert(outputs_view(taken@) =~= all.map_values(
        |output: ActiveStageOutput| output_contents(output),
    ));
    taken
}

/// What is asked of the clipboard channel.
#[derive(Debug, PartialEq, Eq)]
pub enum CliprdrRequest {
    /// Advertise the local text to the remote.
    AdvertiseText,
    /// Fetch the text of the remote clipboard.
    FetchText,
    /// Answer the remote's request with these bytes.
    SubmitText(Vec<u8>),
    /// Let the channel drop what has timed out.
    DriveTimeouts,
}

/// How far a request to the clipboard channel came.
#[derive(Debug, PartialEq, Eq)]
pub enum CliprdrReply {
    /// The channel was not negotiated.
    NoChannel,
    /// The channel could not make its messages.
    NotGenerated(String),
    /// The messages could not be encoded.
    NotProcessed(String),
    /// The encoded messages.
    Encoded(Vec<u8>),
}

/// What comes of a request to the clipboard channel.
#[derive(Debug, PartialEq, Eq)]
pub enum CliprdrOutcome {
    /// Send these bytes to the server.
    Respond(Vec<u8>),
    /// There is nothing to send.
    Nothing,
    /// The clipboard does not work, for this reason.
    Failed(String),
}

/// The contents of a [`CliprdrReply`].
pub enum CliprdrReplyView {
    NoChannel,
    NotGenerated(Seq<char>),
    NotProcessed(Seq<char>),
    Encoded(Seq<u8>),
}

/// The contents of a [`CliprdrOutcome`].
pub enum CliprdrOutcomeView {
    Respond(Seq<u8>),
    Nothing,
    Failed(Seq<char>),
}

impl View for CliprdrReply {
    type V = CliprdrReplyView;

    open spec fn view(&self) -> CliprdrReplyView {
        match self {
            CliprdrReply::NoChannel => CliprdrReplyView::NoChannel,
            CliprdrReply::NotGenerated(error) => CliprdrReplyView::NotGenerated(error@),
            CliprdrReply::NotProcessed(error) => CliprdrReplyView::NotProcessed(error@),
            CliprdrReply::Encoded(frame) => CliprdrReplyView::Encoded(frame@),
        }
    }
}

impl View for CliprdrOutcome {
    type V = CliprdrOutcomeView;

    open spec fn view(&self) -> CliprdrOutcomeView {
        match self {
            CliprdrOutcome::Respond(frame) => CliprdrOutcomeView::Respond(frame@),
            CliprdrOutcome::Nothing => CliprdrOutcomeView::Nothing,
            CliprdrOutcome::Failed(detail) => CliprdrOutcomeView::Failed(detail@),
        }
    }
}

/// What comes of a reply: a failure is reported, never fatal, and an empty frame is not sent.
pub open spec fn outcome_of(reply: CliprdrReplyView) -> CliprdrOutcomeView {
    match reply {
        CliprdrReplyView::NoChannel => CliprdrOutcomeView::Failed(
            "canal CLIPRDR não foi negociado"@,
        ),
        CliprdrReplyView::NotGenerated(error) => CliprdrOutcomeView::Failed(
            "falha ao gerar mensagem: "@ + error,
        ),
        CliprdrReplyView::NotProcessed(error) => CliprdrOutcomeView::Failed(
            "falha ao processar mensagem: "@ + error,
        ),
        CliprdrReplyView::Encoded(frame) => if frame.len() > 0 {
            CliprdrOutcomeView::Respond(frame)
        } else {
            CliprdrOutcomeView::Nothing
        },
    }
}

/// Decides what to do with a reply of the clipboard channel.
pub fn cliprdr_outcome(reply: CliprdrReply) -> (r: CliprdrOutcome)
    ensures
        r@ == outcome_of(reply@),
{
    match reply {
        CliprdrReply::NoChannel => CliprdrOutcome::Failed(
            "canal CLIPRDR não foi negociado".to_owned(),
        ),
        CliprdrReply::NotGenerated(error) => CliprdrOutcome::Failed(
            "falha ao gerar mensagem: ".to_owned().concat(error.as_str()),
        ),
        CliprdrReply::NotProcessed(error) => CliprdrOutcome::Failed(
            "falha ao processar mensagem: ".to_owned().concat(error.as_str()),
        ),
        CliprdrReply::Encoded(frame) => {
            if frame.len() > 0 {
                CliprdrOutcome::Respond(frame)
            } else {
                CliprdrOutcome::Nothing
            }
        },
    }
}

/// The contents of what a call into the clipboard channel returns: nothing where there is no
/// channel, else its messages or its error in words.
pub open spec fn generated_view(r: Option<Result<Vec<SvcMessage>, String>>) -> Option<
    Result<Seq<SvcMessage>, Seq<char>>,
> {
    match r {
        None => None,
        Some(Ok(messages)) => Some(Ok(messages@)),
        Some(Err(error)) => Some(Err(error@)),
    }
}

/// Whether a stage has a client clipboard channel, for `ActiveStage::get_svc_processor_mut` to
/// find.
pub uninterp spec fn clipboard_channel(stage: ActiveStage) -> bool;

/// The stage after, and the result of, `Cliprdr::initiate_copy` with one format on the clipboard
/// channel of a stage.
pub uninterp spec fn initiate_copy_call(stage: ActiveStage, format: u32) -> (
    ActiveStage,
    Option<Result<Seq<SvcMessage>, Seq<char>>>,
);

/// The stage after, and the result of, `Cliprdr::initiate_paste` on the clipboard channel of
/// a stage.
pub uninterp spec fn initiate_paste_call(stage: ActiveStage, format: u32) -> (
    ActiveStage,
    Option<Result<Seq<SvcMessage>, Seq<char>>>,
);

/// Whether `Cliprdr::drive_timeouts` on the clipboard channel of the stage `before` may, at some
/// time, make these messages and leave the stage `after`.
pub uninterp spec fn timeouts_may_give(
    before: ActiveStage,
    after: ActiveStage,
    messages: Seq<SvcMessage>,
) -> bool;

/// The result of `Cliprdr::submit_format_data` on the clipboard channel of a stage.
pub uninterp spec fn submit_format_data_call(stage: ActiveStage, data: Seq<u8>) -> Option<
    Result<Seq<SvcMessage>, Seq<char>>,
>;

/// The result of `ActiveStage::process_svc_processor_messages` for the clipboard channel.
pub uninterp spec fn process_messages_call(stage: ActiveStage, messages: Seq<SvcMessage>) -> Result<
    Seq<u8>,
    Seq<char>,
>;

/// Wraps `Cliprdr::initiate_copy`, called with the one format given on the client channel that
/// `ActiveStage::get_svc_processor_mut` finds. Claims that what comes back depends on the stage
/// and the format alone, that nothing comes back just where there is no channel, which leaves the
/// stage as it is, that a channel stays, and that on success there is a message to send. The
/// channel's backend, which names the temporary directory in the first message, is taken as
/// a part of the stage.
#[verifier::external_body]
fn initiate_copy(stage: &mut ActiveStage, format: u32) -> (r: Option<
    Result<Vec<SvcMessage>, String>,
>)
    ensures
        (*final(stage), generated_view(r)) == initiate_copy_call(*old(stage), format),
        r is None <==> !clipboard_channel(*old(stage)),
        r is None ==> *final(stage) == *old(stage),
        clipboard_channel(*final(stage)) == clipboard_channel(*old(stage)),
        r matches Some(Ok(messages)) ==> messages@.len() > 0,
{
    match stage.get_svc_processor_mut::<CliprdrClient>() {
        None => None,
        Some(channel) => match channel.initiate_copy(&[ClipboardFormat::new(ClipboardFormatId::new(format))]) {
            Ok(messages) => Some(Ok(messages.into())),
            Err(error) => Some(Err(error.to_string())),
        },
    }
}

/// Wraps `Cliprdr::initiate_paste`, called on the client channel that
/// `ActiveStage::get_svc_processor_mut` finds. Claims that what comes back depends on the stage
/// and the format alone, that nothing comes back just where there is no channel, which leaves the
/// stage as it is, that a channel stays, and that on success there is one message to send.
#[verifier::external_body]
fn initiate_paste(stage: &mut ActiveStage, format: u32) -> (r: Option<
    Result<Vec<SvcMessage>, String>,
>)
    ensures
        (*final(stage), generated_view(r)) == initiate_paste_call(*old(stage), format),
        r is None <==> !clipboard_channel(*old(stage)),
        r is None ==> *final(stage) == *old(stage),
        clipboard_channel(*final(stage)) == clipboard_channel(*old(stage)),
        r matches Some(Ok(messages)) ==> messages@.len() == 1,
{
    match stage.get_svc_processor_mut::<CliprdrClient>() {
        None => None,
        Some(channel) => match channel.initiate_paste(ClipboardFormatId::new(format)) {
            Ok(messages) => Some(Ok(messages.into())),
            Err(error) => Some(Err(error.to_string())),
        },
    }
}

/// Wraps `Cliprdr::submit_format_data`, called with a response that holds these bytes on the
/// client channel that `ActiveStage::get_svc_processor_mut` finds. Claims that the stage stays
/// as it is, that what comes back depends on the stage and the bytes alone, that nothing comes
/// back just where there is no channel, and that on success there is one message to send.
#[verifier::external_body]
fn submit_format_data(stage: &mut ActiveStage, data: Vec<u8>) -> (r: Option<
    Result<Vec<SvcMessage>, String>,
>)
    ensures
        *final(stage) == *old(stage),
        generated_view(r) == submit_format_data_call(*old(stage), data@),
        r is None <==> !clipboard_channel(*old(stage)),
        r matches Some(Ok(messages)) ==> messages@.len() == 1,
{
    match stage.get_svc_processor_mut::<CliprdrClient>() {
        None => None,
        Some(channel) => match channel.submit_format_data(FormatDataResponse::new_data(data).into_owned()) {
            Ok(messages) => Some(Ok(messages.into())),
            Err(error) => Some(Err(error.to_string())),
        },
    }
}

/// Wraps `Cliprdr::drive_timeouts`, called on the client channel that
/// `ActiveStage::get_svc_processor_mut` finds. Claims that nothing comes back just where there is
/// no channel, which leaves the stage as it is, that a channel stays, and that it never fails.
/// Which messages it makes, and in what order, depends on the time and on the walk of a hash map,
/// so of them and of the stage after it is only claimed that the call may give them.
#[verifier::external_body]
fn drive_timeouts(stage: &mut ActiveStage) -> (r: Option<Result<Vec<SvcMessage>, String>>)
    ensures
        r is None <==> !clipboard_channel(*old(stage)),
        r is None ==> *final(stage) == *old(stage),
        clipboard_channel(*final(stage)) == clipboard_channel(*old(stage)),
        r matches Some(generated) ==> generated is Ok,
        r matches Some(Ok(messages)) ==> timeouts_may_give(*old(stage), *final(stage), messages@),
{
    match stage.get_svc_processor_mut::<CliprdrClient>() {
        None => None,
        Some(channel) => match channel.drive_timeouts() {
            Ok(messages) => Some(Ok(messages.into())),
            Err(error) => Some(Err(error.to_string())),
        },
    }
}

/// The contents of encoded messages, or of the error in words.
pub open spec fn encoded_view(r: Result<Vec<u8>, String>) -> Result<Seq<u8>, Seq<char>> {
    match r {
        Ok(frame) => Ok(frame@),
        Err(error) => Err(error@),
    }
}

/// Wraps `ActiveStage::process_svc_processor_messages` for messages of the client clipboard
/// channel. Claims that what comes back depends on the stage and the messages alone, and that
/// the encoded bytes are empty just where there is no message.
#[verifier::external_body]
fn process_messages(stage: &ActiveStage, messages: Vec<SvcMessage>) -> (r: Result<Vec<u8>, String>)
    ensures
        encoded_view(r) == process_messages_call(*stage, messages@),
        r matches Ok(frame) ==> (frame@.len() == 0 <==> messages@.len() == 0),
{
    match stage.process_svc_processor_messages(SvcProcessorMessages::<CliprdrClient>::new(messages)) {
        Ok(frame) => Ok(frame),
        Err(error) => Err(error.report().to_string()),
    }
}

/// How far a request comes whose messages are these, or were not made.
pub open spec fn reply_to(
    stage: ActiveStage,
    generated: Option<Result<Seq<SvcMessage>, Seq<char>>>,
) -> CliprdrReplyView {
    match generated {
        None => CliprdrReplyView::NoChannel,
        Some(Err(error)) => CliprdrReplyView::NotGenerated(error),
        Some(Ok(messages)) => match process_messages_call(stage, messages) {
            Ok(frame) => CliprdrReplyView::Encoded(frame),
            Err(error) => CliprdrReplyView::NotProcessed(error),
        },
    }
}

/// Finishes a request to the clipboard channel from what the channel made of it: its messages are
/// encoded, and anything that went wrong becomes a failure to report.
pub fn finish_request(
    stage: &ActiveStage,
    generated: Option<Result<Vec<SvcMessage>, String>>,
) -> (r: CliprdrOutcome)
    ensures
        r@ == outcome_of(reply_to(*stage, generated_view(generated))),
        r is Nothing ==> (generated matches Some(Ok(messages)) && messages@.len() == 0),
{
    let reply = match generated {
        None => CliprdrReply::NoChannel,
        Some(Err(error)) => CliprdrReply::NotGenerated(error),
        Some(Ok(messages)) => match process_messages(stage, messages) {
            Ok(frame) => CliprdrReply::Encoded(frame),
            Err(error) => CliprdrReply::NotProcessed(error),
        },
    };
    cliprdr_outcome(reply)
}

/// Sends a request to the clipboard channel of the stage. A missing channel is reported, whatever
/// the request, and nothing that goes wrong ends the session. What the channel drops after
/// a timeout depends on the time, so of that request it is only said that the messages are such
/// as the channel may then make, and are encoded as for the others.
pub fn with_cliprdr(stage: &mut ActiveStage, request: CliprdrRequest) -> (r: CliprdrOutcome)
    ensures
        !clipboard_channel(*old(stage)) ==> *final(stage) == *old(stage) && r@ == outcome_of(
            CliprdrReplyView::NoChannel,
        ),
        request is AdvertiseText ==> ({
            let (after, generated) = initiate_copy_call(*old(stage), unicode_text_format());
            *final(stage) == after && r@ == outcome_of(reply_to(after, generated))
        }),
        request is FetchText ==> ({
            let (after, generated) = initiate_paste_call(*old(stage), unicode_text_format());
            *final(stage) == after && r@ == outcome_of(reply_to(after, generated))
        }),
        request matches CliprdrRequest::SubmitText(data) ==> *final(stage) == *old(stage) && r@
            == outcome_of(
            reply_to(*old(stage), submit_format_data_call(*old(stage), data@)),
        ),
        request is DriveTimeouts && clipboard_channel(*old(stage)) ==> exists|
            messages: Seq<SvcMessage>,
        |
            #[trigger] timeouts_may_give(*old(stage), *final(stage), messages) && r@ == outcome_of(
                reply_to(*final(stage), Some(Ok(messages))),
            ),
        request !is DriveTimeouts ==> r !is Nothing,
        clipboard_channel(*final(stage)) == clipboard_channel(*old(stage)),
{
    let generated = match request {
        CliprdrRequest::AdvertiseText => initiate_copy(stage, unicode_text_format_id()),
        CliprdrRequest::FetchText => initiate_paste(stage, unicode_text_format_id()),
        CliprdrRequest::SubmitText(data) => submit_format_data(stage, data),
        CliprdrRequest::DriveTimeouts => drive_timeouts(stage),
    };
    finish_request(stage, generated)
}

/// The result of `ActiveStage::graceful_shutdown`.
pub uninterp spec fn graceful_shutdown_call(stage: ActiveStage) -> Result<
    Seq<ActiveStageOutput>,
    Seq<char>,
>;

/// The outputs that a call into the stage returns, or its error in words.
pub open spec fn raw_outputs_view(r: Result<Vec<ActiveStageOutput>, String>) -> Result<
    Seq<ActiveStageOutput>,
    Seq<char>,
> {
    match r {
        Ok(outputs) => Ok(outputs@),
        Err(error) => Err(error@),
    }
}

/// Wraps `ActiveStage::graceful_shutdown`. Claims that what comes back depends on the stage
/// alone, and that on success it is one frame to send.
#[verifier::external_body]
fn graceful_shutdown(stage: &ActiveStage) -> (r: Result<Vec<ActiveStageOutput>, String>)
    ensures
        raw_outputs_view(r) == graceful_shutdown_call(*stage),
        r matches Ok(outputs) ==> outputs@.len() == 1 && output_contents(
            outputs@[0],
        ) is ResponseFrame,
{
    match stage.graceful_shutdown() {
        Ok(outputs) => Ok(outputs),
        Err(error) => Err(error.report().to_string()),
    }
}

/// Encodes the request to close the session.
pub fn begin_shutdown(stage: &ActiveStage) -> (r: Result<Vec<StageOutput>, String>)
    ensures
        r matches Ok(outputs) ==> graceful_shutdown_call(*stage) matches Ok(raw) && outputs_view(
            outputs@,
        ) == raw.map_values(|output: ActiveStageOutput| output_contents(output)),
        r matches Err(error) ==> graceful_shutdown_call(*stage) == Err::<
            Seq<ActiveStageOutput>,
            Seq<char>,
        >(error@),
        r matches Ok(outputs) ==> outputs@.len() == 1 && outputs@[0] is ResponseFrame,
{
    match graceful_shutdown(stage) {
        Ok(outputs) => {
            let taken = stage_outputs(outputs);
            assert(outputs_view(taken@).len() == 1);
            assert(outputs_view(taken@)[0] == taken@[0]@);
            Ok(taken)
        },
        Err(error) => Err(error),
    }
}

/// What a finished reactivation negotiated for the stage.
#[derive(Debug, Clone, Copy, PartialEq, Eq, Structural)]
pub struct Negotiated {
    pub io_channel_id: u16,
    pub user_channel_id: u16,
    pub share_id: u32,
    pub enable_server_pointer: bool,
    pub pointer_software_rendering: bool,
}

/// A stage after `ActiveStage::set_fastpath_processor` with a processor that
/// `fast_path::ProcessorBuilder::build` made of these values, without bulk decompression.
pub uninterp spec fn set_fastpath_processor_call(
    stage: ActiveStage,
    io_channel_id: u16,
    user_channel_id: u16,
    share_id: u32,
    enable_server_pointer: bool,
    pointer_software_rendering: bool,
) -> ActiveStage;

/// A stage after `ActiveStage::set_share_id`.
pub uninterp spec fn set_share_id_call(stage: ActiveStage, share_id: u32) -> ActiveStage;

/// A stage after `ActiveStage::set_enable_server_pointer`.
pub uninterp spec fn set_server_pointer_call(stage: ActiveStage, enable: bool) -> ActiveStage;

/// Wraps `ActiveStage::set_fastpath_processor`, called with a new processor that
/// `fast_path::ProcessorBuilder::build` makes of these values and no bulk decompressor. Claims
/// that the stage then depends on the stage before and the values alone, and that it has
/// a clipboard channel just where it had one.
#[verifier::external_body]
fn set_fastpath_processor(
    stage: &mut ActiveStage,
    io_channel_id: u16,
    user_channel_id: u16,
    share_id: u32,
    enable_server_pointer: bool,
    pointer_software_rendering: bool,
)
    ensures
        *final(stage) == set_fastpath_processor_call(
            *old(stage),
            io_channel_id,
            user_channel_id,
            share_id,
            enable_server_pointer,
            pointer_software_rendering,
        ),
        clipboard_channel(*final(stage)) == clipboard_channel(*old(stage)),
{
    let builder = ProcessorBuilder {
        io_channel_id,
        user_channel_id,
        share_id,
        enable_server_pointer,
        pointer_software_rendering,
        bulk_decompressor: None,
    };
    stage.set_fastpath_processor(builder.build())
}

/// Wraps `ActiveStage::set_share_id`. Claims that the stage then depends on the stage before and
/// the share id alone, and that it has a clipboard channel just where it had one.
#[verifier::external_body]
fn set_share_id(stage: &mut ActiveStage, share_id: u32)
    ensures
        *final(stage) == set_share_id_call(*old(stage), share_id),
        clipboard_channel(*final(stage)) == clipboard_channel(*old(stage)),
{
    stage.set_share_id(share_id)
}

/// Wraps `ActiveStage::set_enable_server_pointer`. Claims that the stage then depends on the stage
/// before and the flag alone, and that it has a clipboard channel just where it had one.
#[verifier::external_body]
fn set_enable_server_pointer(stage: &mut ActiveStage, enable: bool)
    ensures
        *final(stage) == set_server_pointer_call(*old(stage), enable),
        clipboard_channel(*final(stage)) == clipboard_channel(*old(stage)),
{
    stage.set_enable_server_pointer(enable)
}

/// Hands the stage what a finished reactivation negotiated: a new decoder of fast-path frames,
/// the share id, and whether the server draws the pointer. The clipboard channel stays.
pub fn reactivate(stage: &mut ActiveStage, n: Negotiated)
    ensures
        *final(stage) == set_server_pointer_call(
            set_share_id_call(
                set_fastpath_processor_call(
                    *old(stage),
                    n.io_channel_id,
                    n.user_channel_id,
                    n.share_id,
                    n.enable_server_pointer,
                    n.pointer_software_rendering,
                ),
                n.share_id,
            ),
            n.enable_server_pointer,
        ),
        clipboard_channel(*final(stage)) == clipboard_channel(*old(stage)),
{
    set_fastpath_processor(
        stage,
        n.io_channel_id,
        n.user_channel_id,
        n.share_id,
        n.enable_server_pointer,
        n.pointer_software_rendering,
    );
    set_share_id(stage, n.share_id);
    set_enable_server_pointer(stage, n.enable_server_pointer);
}

/// Law: the contents of outputs are those of each output, in order.
pub proof fn law_outputs_hold_their_contents(
    outputs: Seq<StageOutput>,
    frame: Vec<u8>,
    region: Region,
    termination: Termination,
    description: String,
)
    ensures
        outputs_view(outputs).len() == outputs.len(),
        forall|i: int|
            0 <= i < outputs.len() ==> #[trigger] outputs_view(outputs)[i] == outputs[i]@,
        StageOutput::ResponseFrame(frame)@ == StageOutputView::ResponseFrame(frame@),
        StageOutput::GraphicsUpdate(region)@ == StageOutputView::GraphicsUpdate(region),
        StageOutput::PointerDefault@ == StageOutputView::PointerDefault,
        StageOutput::PointerHidden@ == StageOutputView::PointerHidden,
        StageOutput::PointerPosition@ == StageOutputView::PointerPosition,
        StageOutput::PointerBitmap@ == StageOutputView::PointerBitmap,
        StageOutput::DeactivateAll@ == StageOutputView::DeactivateAll,
        StageOutput::MultitransportRequest@ == StageOutputView::MultitransportRequest,
        StageOutput::AutoDetect@ == StageOutputView::AutoDetect,
        StageOutput::Terminate(termination)@ == StageOutputView::Terminate(termination@),
        Termination::UserInitiated@ == TerminationView::UserInitiated,
        Termination::Other(description)@ == TerminationView::Other(description@),
{
}

/// Law: the contents of replies and outcomes are what they hold, and so are those of what the
/// channel and the stage hand back.
pub proof fn law_replies_hold_their_contents(
    text: String,
    frame: Vec<u8>,
    messages: Vec<SvcMessage>,
    outputs: Vec<ActiveStageOutput>,
)
    ensures
        CliprdrReply::NoChannel@ == CliprdrReplyView::NoChannel,
        CliprdrReply::NotGenerated(text)@ == CliprdrReplyView::NotGenerated(text@),
        CliprdrReply::NotProcessed(text)@ == CliprdrReplyView::NotProcessed(text@),
        CliprdrReply::Encoded(frame)@ == CliprdrReplyView::Encoded(frame@),
        CliprdrOutcome::Respond(frame)@ == CliprdrOutcomeView::Respond(frame@),
        CliprdrOutcome::Nothing@ == CliprdrOutcomeView::Nothing,
        CliprdrOutcome::Failed(text)@ == CliprdrOutcomeView::Failed(text@),
        generated_view(None) is None,
        generated_view(Some(Ok(messages))) matches Some(Ok(made)) && made == messages@,
        generated_view(Some(Err(text))) matches Some(Err(error)) && error == text@,
        encoded_view(Ok(frame)) matches Ok(bytes) && bytes == frame@,
        encoded_view(Err(text)) matches Err(error) && error == text@,
        raw_outputs_view(Ok(outputs)) matches Ok(raw) && raw == outputs@,
        raw_outputs_view(Err(text)) matches Err(error) && error == text@,
{
}

/// Law: messages of the channel are sent as they are encoded, unless that gives no bytes. What
/// goes wrong is told apart by how it begins, and goes on with the outside error word for word.
pub proof fn law_channel_answers_are_sent_or_reported(
    stage: ActiveStage,
    messages: Seq<SvcMessage>,
    error: Seq<char>,
)
    ensures
        outcome_of(reply_to(stage, None)) == CliprdrOutcomeView::Failed(
            "canal CLIPRDR não foi negociado"@,
        ),
        outcome_of(reply_to(stage, Some(Err(error)))) == CliprdrOutcomeView::Failed(
            "falha ao gerar mensagem: "@ + error,
        ),
        process_messages_call(stage, messages) matches Err(e) ==> outcome_of(
            reply_to(stage, Some(Ok(messages))),
        ) == CliprdrOutcomeView::Failed("falha ao processar mensagem: "@ + e),
        process_messages_call(stage, messages) matches Ok(frame) ==> (frame.len() > 0
            ==> outcome_of(reply_to(stage, Some(Ok(messages)))) == CliprdrOutcomeView::Respond(
            frame,
        )),
        process_messages_call(stage, messages) matches Ok(frame) ==> (frame.len() == 0
            ==> outcome_of(reply_to(stage, Some(Ok(messages)))) == CliprdrOutcomeView::Nothing),
{
}

/// Law: a reply with bytes is sent as it is, one without is not, and a failure is reported with
/// its error word for word.
pub proof fn law_replies_are_sent_or_reported(frame: Seq<u8>, error: Seq<char>)
    ensures
        frame.len() > 0 ==> outcome_of(CliprdrReplyView::Encoded(frame))
            == CliprdrOutcomeView::Respond(frame),
        frame.len() == 0 ==> outcome_of(CliprdrReplyView::Encoded(frame))
            == CliprdrOutcomeView::Nothing,
        outcome_of(CliprdrReplyView::NotGenerated(error)) == CliprdrOutcomeView::Failed(
            "falha ao gerar mensagem: "@ + error,
        ),
        outcome_of(CliprdrReplyView::NotProcessed(error)) == CliprdrOutcomeView::Failed(
            "falha ao processar mensagem: "@ + error,
        ),
        outcome_of(CliprdrReplyView::NoChannel) == CliprdrOutcomeView::Failed(
            "canal CLIPRDR não foi negociado"@,
        ),
{
}

} // verus!
