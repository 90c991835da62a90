use std::any::{Any, TypeId};

use beam::clipboard::text_to_cf_unicodetext;
use beam::stage::{
    begin_shutdown, cliprdr_outcome, finish_request, reactivate, stage_outputs, with_cliprdr,
    CliprdrOutcome, CliprdrReply, CliprdrRequest, Negotiated, Region, StageOutput, Termination,
};
use ironrdp_cliprdr::backend::CliprdrBackend;
use ironrdp_cliprdr::pdu::{
    ClipboardFormat, ClipboardGeneralCapabilityFlags, ClipboardPdu, FileContentsRequest,
    FileContentsResponse, FormatDataRequest, FormatDataResponse, FormatListResponse, LockDataId,
};
use ironrdp_cliprdr::CliprdrClient;
use ironrdp_core::AsAny;
use ironrdp_graphics::image_processing::PixelFormat;
use ironrdp_pdu::geometry::InclusiveRectangle;
use ironrdp_pdu::input::fast_path::FastPathInputEvent;
use ironrdp_pdu::input::mouse::PointerFlags;
use ironrdp_pdu::input::MousePdu;
use ironrdp_pdu::Action;
use ironrdp_session::image::DecodedImage;
use ironrdp_session::{
    ActiveStage, ActiveStageBuilder, ActiveStageOutput, GracefulDisconnectReason,
};
use ironrdp_svc::{StaticChannelSet, SvcProcessor};

#[derive(Debug)]
struct SilentBackend;

impl AsAny for SilentBackend {
    fn as_any(&self) -> &dyn Any {
        self
    }

    fn as_any_mut(&mut self) -> &mut dyn Any {
        self
    }
}

impl CliprdrBackend for SilentBackend {
    fn temporary_directory(&self) -> &str {
        ""
    }

    fn client_capabilities(&self) -> ClipboardGeneralCapabilityFlags {
        ClipboardGeneralCapabilityFlags::empty()
    }

    fn on_ready(&mut self) {}

    fn on_request_format_list(&mut self) {}

    fn on_process_negotiated_capabilities(&mut self, _: ClipboardGeneralCapabilityFlags) {}

    fn on_remote_copy(&mut self, _: &[ClipboardFormat]) {}

    fn on_format_data_request(&mut self, _: FormatDataRequest) {}

    fn on_format_data_response(&mut self, _: FormatDataResponse<'_>) {}

    fn on_file_contents_request(&mut self, _: FileContentsRequest) {}

    fn on_file_contents_response(&mut self, _: FileContentsResponse<'_>) {}

    fn on_lock(&mut self, _: LockDataId) {}

    fn on_unlock(&mut self, _: LockDataId) {}
}

fn stage(channels: StaticChannelSet) -> ActiveStage {
    ActiveStageBuilder {
        static_channels: channels,
        user_channel_id: 1007,
        io_channel_id: 1003,
        message_channel_id: None,
        share_id: 66_538,
        compression_type: None,
        enable_server_pointer: false,
        pointer_software_rendering: false,
    }
    .build()
}

fn clipboard_channels(joined: bool) -> StaticChannelSet {
    let mut channels = StaticChannelSet::new();
    channels.insert(CliprdrClient::new(Box::new(SilentBackend)));
    if joined {
        channels.attach_channel_id(TypeId::of::<CliprdrClient>(), 1004);
    }
    channels
}

fn ready_stage() -> ActiveStage {
    let mut stage = stage(clipboard_channels(true));
    let accepted =
        ironrdp_core::encode_vec(&ClipboardPdu::FormatListResponse(FormatListResponse::Ok)).unwrap();
    stage
        .get_svc_processor_mut::<CliprdrClient>()
        .unwrap()
        .process(&accepted)
        .unwrap();
    stage
}

fn holds(frame: &[u8], part: &[u8]) -> bool {
    frame.windows(part.len()).any(|window| window == part)
}

fn failure(outcome: CliprdrOutcome) -> String {
    match outcome {
        CliprdrOutcome::Failed(detail) => detail,
        other => panic!("unexpected outcome: {other:?}"),
    }
}

fn response(outcome: CliprdrOutcome) -> Vec<u8> {
    match outcome {
        CliprdrOutcome::Respond(frame) => frame,
        other => panic!("unexpected outcome: {other:?}"),
    }
}

#[test]
fn missing_channel_is_reported() {
    let mut stage = stage(StaticChannelSet::new());
    for request in [
        CliprdrRequest::AdvertiseText,
        CliprdrRequest::FetchText,
        CliprdrRequest::SubmitText(vec![0, 0]),
        CliprdrRequest::DriveTimeouts,
    ] {
        assert_eq!(
            failure(with_cliprdr(&mut stage, request)),
            "canal CLIPRDR não foi negociado"
        );
    }
}

#[test]
fn channel_that_was_not_joined_is_reported() {
    let mut stage = stage(clipboard_channels(false));
    let detail = failure(with_cliprdr(&mut stage, CliprdrRequest::AdvertiseText));
    assert!(detail.starts_with("falha ao processar mensagem: "));
    assert!(detail.contains("channel not found"));
}

#[test]
fn channel_that_is_not_ready_is_reported() {
    let mut stage = stage(clipboard_channels(true));
    for request in [CliprdrRequest::FetchText, CliprdrRequest::SubmitText(vec![0, 0])] {
        let detail = failure(with_cliprdr(&mut stage, request));
        assert!(detail.starts_with("falha ao gerar mensagem: "));
        assert!(detail.len() > "falha ao gerar mensagem: ".len());
    }
}

#[test]
fn first_advertisement_opens_the_channel() {
    let mut stage = stage(clipboard_channels(true));
    let first = response(with_cliprdr(&mut stage, CliprdrRequest::AdvertiseText));
    let mut ready = ready_stage();
    let later = response(with_cliprdr(&mut ready, CliprdrRequest::AdvertiseText));
    assert!(first.len() > later.len());
    // A long format list: length 6, then the id of Unicode text and an empty name.
    assert!(holds(&first, &[6, 0, 0, 0, 13, 0, 0, 0, 0, 0]));
    assert!(holds(&later, &[6, 0, 0, 0, 13, 0, 0, 0, 0, 0]));
}

#[test]
fn unicode_text_is_fetched() {
    let mut stage = ready_stage();
    let frame = response(with_cliprdr(&mut stage, CliprdrRequest::FetchText));
    // A format data request: type 4, no flags, length 4, then the id of Unicode text.
    assert!(holds(&frame, &[4, 0, 0, 0, 4, 0, 0, 0, 13, 0, 0, 0]));
}

#[test]
fn submitted_text_is_sent_as_it_is() {
    let mut stage = ready_stage();
    let text = text_to_cf_unicodetext("olá\n");
    let frame = response(with_cliprdr(&mut stage, CliprdrRequest::SubmitText(text.clone())));
    assert!(holds(&frame, &text));
    assert!(frame.len() > text.len());
}

#[test]
fn nothing_is_sent_where_nothing_timed_out() {
    let mut stage = ready_stage();
    assert_eq!(
        with_cliprdr(&mut stage, CliprdrRequest::DriveTimeouts),
        CliprdrOutcome::Nothing
    );
}

#[test]
fn replies_are_turned_into_outcomes() {
    assert_eq!(
        cliprdr_outcome(CliprdrReply::NoChannel),
        CliprdrOutcome::Failed("canal CLIPRDR não foi negociado".to_owned())
    );
    assert_eq!(
        cliprdr_outcome(CliprdrReply::NotGenerated("x".to_owned())),
        CliprdrOutcome::Failed("falha ao gerar mensagem: x".to_owned())
    );
    assert_eq!(
        cliprdr_outcome(CliprdrReply::NotProcessed("y".to_owned())),
        CliprdrOutcome::Failed("falha ao processar mensagem: y".to_owned())
    );
    assert_eq!(cliprdr_outcome(CliprdrReply::Encoded(vec![])), CliprdrOutcome::Nothing);
    assert_eq!(
        cliprdr_outcome(CliprdrReply::Encoded(vec![7])),
        CliprdrOutcome::Respond(vec![7])
    );
}

#[test]
fn shutdown_is_one_frame() {
    let stage = stage(StaticChannelSet::new());
    let outputs = begin_shutdown(&stage).unwrap();
    assert_eq!(outputs.len(), 1);
    match &outputs[0] {
        // A TPKT header comes first.
        StageOutput::ResponseFrame(frame) => assert_eq!(frame[0], 3),
        other => panic!("unexpected output: {other:?}"),
    }
}

#[test]
fn outputs_are_taken_apart_in_order() {
    let outputs = vec![
        ActiveStageOutput::ResponseFrame(vec![1, 2, 3]),
        ActiveStageOutput::GraphicsUpdate(InclusiveRectangle {
            left: 1,
            top: 2,
            right: 30,
            bottom: 40,
        }),
        ActiveStageOutput::PointerDefault,
        ActiveStageOutput::PointerHidden,
        ActiveStageOutput::PointerPosition { x: 5, y: 6 },
        ActiveStageOutput::DeactivateAll,
        ActiveStageOutput::Terminate(GracefulDisconnectReason::UserInitiated),
        ActiveStageOutput::Terminate(GracefulDisconnectReason::ServerInitiated),
        ActiveStageOutput::Terminate(GracefulDisconnectReason::Other("fim".to_owned())),
    ];
    assert_eq!(
        stage_outputs(outputs),
        vec![
            StageOutput::ResponseFrame(vec![1, 2, 3]),
            StageOutput::GraphicsUpdate(Region { left: 1, top: 2, right: 30, bottom: 40 }),
            StageOutput::PointerDefault,
            StageOutput::PointerHidden,
            StageOutput::PointerPosition,
            StageOutput::DeactivateAll,
            StageOutput::Terminate(Termination::UserInitiated),
            StageOutput::Terminate(Termination::Other("server initiated disconnect".to_owned())),
            StageOutput::Terminate(Termination::Other("fim".to_owned())),
        ]
    );
}

#[test]
fn what_the_channel_made_is_finished() {
    let stage = ready_stage();
    assert_eq!(
        finish_request(&stage, None),
        CliprdrOutcome::Failed("canal CLIPRDR não foi negociado".to_owned())
    );
    assert_eq!(
        finish_request(&stage, Some(Err("x".to_owned()))),
        CliprdrOutcome::Failed("falha ao gerar mensagem: x".to_owned())
    );
    assert_eq!(finish_request(&stage, Some(Ok(Vec::new()))), CliprdrOutcome::Nothing);
}

fn negotiated(share_id: u32, server_pointer: bool, software: bool) -> Negotiated {
    Negotiated {
        io_channel_id: 1003,
        user_channel_id: 1007,
        share_id,
        enable_server_pointer: server_pointer,
        pointer_software_rendering: software,
    }
}

fn shutdown_frame(stage: &ActiveStage) -> Vec<u8> {
    match begin_shutdown(stage).unwrap().remove(0) {
        StageOutput::ResponseFrame(frame) => frame,
        other => panic!("unexpected output: {other:?}"),
    }
}

#[test]
fn reactivated_stage_uses_the_new_share_id() {
    let mut stage = stage(StaticChannelSet::new());
    assert!(holds(&shutdown_frame(&stage), &66_538_u32.to_le_bytes()));
    reactivate(&mut stage, negotiated(0x0A0B_0C0D, false, false));
    let frame = shutdown_frame(&stage);
    assert!(holds(&frame, &[0x0D, 0x0C, 0x0B, 0x0A]));
    assert!(!holds(&frame, &66_538_u32.to_le_bytes()));
}

#[test]
fn reactivated_stage_decodes_anew() {
    // A fast-path frame of five bytes that hides the pointer.
    let hide = [0x00, 0x05, 0x05, 0x00, 0x00];
    let mut image = DecodedImage::new(PixelFormat::BgrA32, 64, 64);
    let mut stage = stage(StaticChannelSet::new());
    let outputs = stage_outputs(stage.process(&mut image, Action::FastPath, &hide).unwrap());
    assert!(!outputs.contains(&StageOutput::PointerHidden));
    reactivate(&mut stage, negotiated(1, true, false));
    let outputs = stage_outputs(stage.process(&mut image, Action::FastPath, &hide).unwrap());
    assert!(outputs.contains(&StageOutput::PointerHidden));
}

#[test]
fn reactivated_stage_draws_the_server_pointer() {
    // A fast-path frame with a color pointer of two by two pixels, its hotspot at the corner.
    let mut pointer = vec![0x00, 0x00, 0x09, 0x00, 0x00];
    pointer.extend_from_slice(&[0, 0, 0, 0, 0, 0, 2, 0, 2, 0, 4, 0, 12, 0]);
    pointer.extend_from_slice(&[255; 12]);
    pointer.extend_from_slice(&[0; 4]);
    pointer[1] = pointer.len() as u8;
    pointer[3] = (pointer.len() - 5) as u8;
    let moved = [FastPathInputEvent::MouseEvent(MousePdu {
        flags: PointerFlags::MOVE,
        number_of_wheel_rotation_units: 0,
        x_position: 10,
        y_position: 10,
    })];

    let mut image = DecodedImage::new(PixelFormat::RgbA32, 64, 64);
    let mut stage = stage(StaticChannelSet::new());
    reactivate(&mut stage, negotiated(1, true, true));
    stage.process(&mut image, Action::FastPath, &pointer).unwrap();
    let outputs = stage_outputs(stage.process_fastpath_input(&mut image, &moved).unwrap());
    assert_eq!(outputs.len(), 2);
    assert!(matches!(outputs[1], StageOutput::GraphicsUpdate(_)));

    reactivate(&mut stage, negotiated(1, false, true));
    let outputs = stage_outputs(stage.process_fastpath_input(&mut image, &moved).unwrap());
    assert_eq!(outputs.len(), 1);
}

#[test]
fn reactivated_stage_keeps_its_clipboard_channel() {
    let mut stage = ready_stage();
    reactivate(&mut stage, negotiated(1, false, false));
    assert!(!response(with_cliprdr(&mut stage, CliprdrRequest::FetchText)).is_empty());
}
