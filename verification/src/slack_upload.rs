//! The artifact delivery pipeline: an upload request, its builder, and the
//! three-step protocol against the file-sharing platform — request an upload
//! slot, transfer the bytes, finalize the upload.
//!
//! The protocol is a state machine.  The surrounding binary performs one
//! remote call per step and feeds the response back as a [`DeliveryEvent`];
//! [`delivery_step`] decides, for every state and response, the next state
//! and which remote call (if any) may follow.  The pipeline fails fast: the
//! first refused or malformed response settles the machine, and no further
//! call is ever commanded.

use vstd::prelude::*;

use crate::numbers::spec_decimal;
use crate::numbers::u64_to_string;
use crate::paths::extension;
use crate::paths::extension_of;
use crate::paths::file_name;
use crate::paths::file_name_or_default;
use crate::paths::has_extension;
use crate::slack_response::CompleteUploadResponse;
use crate::slack_response::UploadURLResponse;
use crate::slack_response::UploadedFile;

verus! {

/// One delivery: destination channel, bearer credential, artifact path,
/// optional display-name override, announcement message, and whether commit
/// metadata is appended to it.
pub struct Uploader {
    pub message: String,
    pub token: String,
    pub channel: String,
    pub build_path: String,
    pub new_name: Option<String>,
    pub show_commit_message: bool,
}

/// Fluent construction of an [`Uploader`], every field starting empty.
pub struct Builder {
    pub uploader: Uploader,
}

/// Field-wise equality of two upload requests, compared by content.
pub open spec fn uploader_view_eq(a: Uploader, b: Uploader) -> bool {
    &&& a.message@ == b.message@
    &&& a.token@ == b.token@
    &&& a.channel@ == b.channel@
    &&& a.build_path@ == b.build_path@
    &&& match (a.new_name, b.new_name) {
        (Some(x), Some(y)) => x@ == y@,
        (None, None) => true,
        _ => false,
    }
    &&& a.show_commit_message == b.show_commit_message
}

impl Builder {
    pub fn build(&self) -> (u: Uploader)
        ensures
            uploader_view_eq(u, self.uploader),
    {
        Uploader {
            message: self.uploader.message.clone(),
            token: self.uploader.token.clone(),
            channel: self.uploader.channel.clone(),
            build_path: self.uploader.build_path.clone(),
            new_name: match &self.uploader.new_name {
                Some(n) => Some(n.clone()),
                None => None,
            },
            show_commit_message: self.uploader.show_commit_message,
        }
    }

    pub fn message(self, val: String) -> (r: Builder)
        ensures
            r.uploader == (Uploader { message: val, ..self.uploader }),
    {
        Builder { uploader: Uploader { message: val, ..self.uploader } }
    }

    pub fn token(self, val: String) -> (r: Builder)
        ensures
            r.uploader == (Uploader { token: val, ..self.uploader }),
    {
        Builder { uploader: Uploader { token: val, ..self.uploader } }
    }

    pub fn channel(self, val: String) -> (r: Builder)
        ensures
            r.uploader == (Uploader { channel: val, ..self.uploader }),
    {
        Builder { uploader: Uploader { channel: val, ..self.uploader } }
    }

    pub fn build_path(self, val: String) -> (r: Builder)
        ensures
            r.uploader == (Uploader { build_path: val, ..self.uploader }),
    {
        Builder { uploader: Uploader { build_path: val, ..self.uploader } }
    }

    pub fn new_name(self, val: String) -> (r: Builder)
        ensures
            r.uploader == (Uploader { new_name: Some(val), ..self.uploader }),
    {
        Builder { uploader: Uploader { new_name: Some(val), ..self.uploader } }
    }

    pub fn show_commit_message(self, val: bool) -> (r: Builder)
        ensures
            r.uploader == (Uploader { show_commit_message: val, ..self.uploader }),
    {
        Builder { uploader: Uploader { show_commit_message: val, ..self.uploader } }
    }
}

impl Uploader {
    /// A builder whose request starts with empty fields, no display-name
    /// override, and commit annotation disabled.
    pub fn builder() -> (b: Builder)
        ensures
            b.uploader.message@ == Seq::<char>::empty(),
            b.uploader.token@ == Seq::<char>::empty(),
            b.uploader.channel@ == Seq::<char>::empty(),
            b.uploader.build_path@ == Seq::<char>::empty(),
            b.uploader.new_name is None,
            !b.uploader.show_commit_message,
    {
        Builder {
            uploader: Uploader {
                message: String::new(),
                build_path: String::new(),
                new_name: None,
                show_commit_message: false,
                channel: String::new(),
                token: String::new(),
            },
        }
    }
}

/// The parameters of the slot request that opens a delivery: the artifact's
/// file name and its length in bytes.
pub struct SlotRequest {
    pub filename: String,
    pub length: u64,
}

/// Where the delivery stands between two remote calls.
pub enum DeliveryState {
    /// The slot request is out; nothing has been granted yet.
    AwaitingSlot,
    /// A slot was granted; the byte transfer to `upload_url` is out.
    AwaitingTransfer { upload_url: String, file_id: String },
    /// The bytes are accepted; the finalize call for `file_id` is out.
    AwaitingFinalize { file_id: String },
    /// The delivery completed; `file` is the reported metadata, if any.
    Done { file: Option<UploadedFile> },
    /// The delivery aborted with `error`; no further call is commanded.
    Failed { error: String },
}

/// A response handed back into the machine, one per remote call.
pub enum DeliveryEvent {
    Slot(UploadURLResponse),
    Transfer(u16),
    Finalize(CompleteUploadResponse),
}

/// What the machine commands next: one remote call, or nothing.
pub enum DeliveryAction {
    Transfer { upload_url: String },
    Finalize { file_id: String, title: String, channel: String, comment: String },
    Stop,
}

/// Mathematical counterpart of [`DeliveryState`].
pub enum DeliveryStateV {
    AwaitingSlot,
    AwaitingTransfer { upload_url: Seq<char>, file_id: Seq<char> },
    AwaitingFinalize { file_id: Seq<char> },
    Done { file: Option<UploadedFile> },
    Failed { error: Seq<char> },
}

/// Mathematical counterpart of [`DeliveryAction`].
pub enum DeliveryActionV {
    Transfer { upload_url: Seq<char> },
    Finalize { file_id: Seq<char>, title: Seq<char>, channel: Seq<char>, comment: Seq<char> },
    Stop,
}

impl View for DeliveryState {
    type V = DeliveryStateV;

    open spec fn view(&self) -> DeliveryStateV {
        match self {
            DeliveryState::AwaitingSlot => DeliveryStateV::AwaitingSlot,
            DeliveryState::AwaitingTransfer { upload_url, file_id } => {
                DeliveryStateV::AwaitingTransfer { upload_url: upload_url@, file_id: file_id@ }
            },
            DeliveryState::AwaitingFinalize { file_id } => {
                DeliveryStateV::AwaitingFinalize { file_id: file_id@ }
            },
            DeliveryState::Done { file } => DeliveryStateV::Done { file: *file },
            DeliveryState::Failed { error } => DeliveryStateV::Failed { error: error@ },
        }
    }
}

impl View for DeliveryAction {
    type V = DeliveryActionV;

    open spec fn view(&self) -> DeliveryActionV {
        match self {
            DeliveryAction::Transfer { upload_url } => {
                DeliveryActionV::Transfer { upload_url: upload_url@ }
            },
            DeliveryAction::Finalize { file_id, title, channel, comment } => {
                DeliveryActionV::Finalize {
                    file_id: file_id@,
                    title: title@,
                    channel: channel@,
                    comment: comment@,
                }
            },
            DeliveryAction::Stop => DeliveryActionV::Stop,
        }
    }
}

/// The remote's error text, or the generic placeholder when it sent none.
pub open spec fn error_text_or_unknown(e: Option<String>) -> Seq<char> {
    match e {
        Some(t) => t@,
        None => "Unknown error"@,
    }
}

/// A slot response that grants the upload: it reports success and carries
/// both the upload URL and the file identifier.
pub open spec fn slot_granted(r: UploadURLResponse) -> bool {
    r.ok && r.upload_url is Some && r.file_id is Some
}

/// A success HTTP status for the byte transfer.
pub open spec fn transfer_ok(status: u16) -> bool {
    200 <= status < 300
}

/// The title the finalize call carries: the display name (the override when
/// set, the artifact's file name otherwise), a dot, and the artifact's
/// original extension.
pub open spec fn spec_title(u: Uploader) -> Seq<char> {
    (match u.new_name {
        Some(n) => n@,
        None => file_name_or_default(u.build_path@),
    }) + "."@ + extension_of(u.build_path@)
}

/// The initial comment: the request's message, a line break, and the commit
/// annotation (empty when disabled).
pub open spec fn spec_comment(message: Seq<char>, annotation: Seq<char>) -> Seq<char> {
    message + "\n"@ + annotation
}

/// The settled state and empty action for a response that does not belong to
/// the current step.
pub open spec fn mismatch_step() -> (DeliveryStateV, DeliveryActionV) {
    (
        DeliveryStateV::Failed { error: "response did not match the current delivery step"@ },
        DeliveryActionV::Stop,
    )
}

/// One step of the delivery protocol: for the state the pipeline is in and
/// the response that came back, the state it moves to and the call (if any)
/// it issues next.
pub open spec fn spec_delivery_step(
    u: Uploader,
    annotation: Seq<char>,
    s: DeliveryStateV,
    e: DeliveryEvent,
) -> (DeliveryStateV, DeliveryActionV) {
    match s {
        DeliveryStateV::AwaitingSlot => match e {
            DeliveryEvent::Slot(r) => {
                if !r.ok {
                    (
                        DeliveryStateV::Failed {
                            error: "Failed to get upload URL: "@ + error_text_or_unknown(r.error),
                        },
                        DeliveryActionV::Stop,
                    )
                } else {
                    match (r.upload_url, r.file_id) {
                        (Some(url), Some(id)) => (
                            DeliveryStateV::AwaitingTransfer {
                                upload_url: url@,
                                file_id: id@,
                            },
                            DeliveryActionV::Transfer { upload_url: url@ },
                        ),
                        (None, _) => (
                            DeliveryStateV::Failed {
                                error: "Missing upload URL in response"@,
                            },
                            DeliveryActionV::Stop,
                        ),
                        (Some(_), None) => (
                            DeliveryStateV::Failed { error: "Missing file ID in response"@ },
                            DeliveryActionV::Stop,
                        ),
                    }
                }
            },
            _ => mismatch_step(),
        },
        DeliveryStateV::AwaitingTransfer { upload_url, file_id } => match e {
            DeliveryEvent::Transfer(status) => {
                if transfer_ok(status) {
                    (
                        DeliveryStateV::AwaitingFinalize { file_id },
                        DeliveryActionV::Finalize {
                            file_id,
                            title: spec_title(u),
                            channel: u.channel@,
                            comment: spec_comment(u.message@, annotation),
                        },
                    )
                } else {
                    (
                        DeliveryStateV::Failed {
                            error: "File upload failed with status: "@ + spec_decimal(
                                status as nat,
                            ),
                        },
                        DeliveryActionV::Stop,
                    )
                }
            },
            _ => mismatch_step(),
        },
        DeliveryStateV::AwaitingFinalize { file_id } => match e {
            DeliveryEvent::Finalize(r) => {
                if r.ok {
                    (DeliveryStateV::Done { file: r.file }, DeliveryActionV::Stop)
                } else {
                    (
                        DeliveryStateV::Failed {
                            error: "Failed to complete upload: "@ + error_text_or_unknown(
                                r.error,
                            ),
                        },
                        DeliveryActionV::Stop,
                    )
                }
            },
            _ => mismatch_step(),
        },
        DeliveryStateV::Done { file } => (DeliveryStateV::Done { file }, DeliveryActionV::Stop),
        DeliveryStateV::Failed { error } => (
            DeliveryStateV::Failed { error },
            DeliveryActionV::Stop,
        ),
    }
}

/// The title of the finalize call, composed from the request.
pub fn compose_title(u: &Uploader) -> (t: String)
    requires
        has_extension(u.build_path@),
    ensures
        t@ == spec_title(*u),
{
    let mut t: String = match &u.new_name {
        Some(n) => n.clone(),
        None => file_name(u.build_path.as_str()),
    };
    t.append(".");
    match extension(u.build_path.as_str()) {
        Ok(e) => {
            t.append(e.as_str());
        },
        Err(_) => unreached(),
    }
    t
}

/// The initial comment of the finalize call: message, line break, annotation.
pub fn compose_comment(message: &String, annotation: &String) -> (c: String)
    ensures
        c@ == spec_comment(message@, annotation@),
{
    let mut c = message.clone();
    c.append("\n");
    c.append(annotation.as_str());
    c
}

/// Opens a delivery: the state the machine starts in, and the parameters of
/// the slot request the caller issues first.
pub fn start_delivery(u: &Uploader, file_size: u64) -> (r: (DeliveryState, SlotRequest))
    ensures
        r.0@ is AwaitingSlot,
        r.1.filename@ == file_name_or_default(u.build_path@),
        r.1.length == file_size,
{
    (
        DeliveryState::AwaitingSlot,
        SlotRequest { filename: file_name(u.build_path.as_str()), length: file_size },
    )
}

/// One executable step of the delivery protocol; it computes exactly what
/// [`spec_delivery_step`] states.
pub fn delivery_step(
    u: &Uploader,
    annotation: &String,
    s: DeliveryState,
    e: DeliveryEvent,
) -> (r: (DeliveryState, DeliveryAction))
    requires
        has_extension(u.build_path@),
    ensures
        r.0@ == spec_delivery_step(*u, annotation@, s@, e).0,
        r.1@ == spec_delivery_step(*u, annotation@, s@, e).1,
{
    match s {
        DeliveryState::AwaitingSlot => match e {
            DeliveryEvent::Slot(r) => {
                if !r.ok {
                    let mut msg = "Failed to get upload URL: ".to_owned();
                    match r.error {
                        Some(t) => msg.append(t.as_str()),
                        None => msg.append("Unknown error"),
                    }
                    (DeliveryState::Failed { error: msg }, DeliveryAction::Stop)
                } else {
                    match (r.upload_url, r.file_id) {
                        (Some(url), Some(id)) => {
                            let action = DeliveryAction::Transfer { upload_url: url.clone() };
                            (
                                DeliveryState::AwaitingTransfer { upload_url: url, file_id: id },
                                action,
                            )
                        },
                        (None, _) => (
                            DeliveryState::Failed {
                                error: "Missing upload URL in response".to_owned(),
                            },
                            DeliveryAction::Stop,
                        ),
                        (Some(_), None) => (
                            DeliveryState::Failed {
                                error: "Missing file ID in response".to_owned(),
                            },
                            DeliveryAction::Stop,
                        ),
                    }
                }
            },
            _ => mismatch(),
        },
        DeliveryState::AwaitingTransfer { upload_url: _, file_id } => match e {
            DeliveryEvent::Transfer(status) => {
                if 200 <= status && status < 300 {
                    let title = compose_title(u);
                    let comment = compose_comment(&u.message, annotation);
                    let action = DeliveryAction::Finalize {
                        file_id: file_id.clone(),
                        title,
                        channel: u.channel.clone(),
                        comment,
                    };
                    (DeliveryState::AwaitingFinalize { file_id }, action)
                } else {
                    let mut msg = "File upload failed with status: ".to_owned();
                    let num = u64_to_string(status as u64);
                    msg.append(num.as_str());
                    (DeliveryState::Failed { error: msg }, DeliveryAction::Stop)
                }
            },
            _ => mismatch(),
        },
        DeliveryState::AwaitingFinalize { file_id: _ } => match e {
            DeliveryEvent::Finalize(r) => {
                if r.ok {
                    (DeliveryState::Done { file: r.file }, DeliveryAction::Stop)
                } else {
                    let mut msg = "Failed to complete upload: ".to_owned();
                    match r.error {
                        Some(t) => msg.append(t.as_str()),
                        None => msg.append("Unknown error"),
                    }
                    (DeliveryState::Failed { error: msg }, DeliveryAction::Stop)
                }
            },
            _ => mismatch(),
        },
        DeliveryState::Done { file } => (DeliveryState::Done { file }, DeliveryAction::Stop),
        DeliveryState::Failed { error } => (DeliveryState::Failed { error }, DeliveryAction::Stop),
    }
}

/// The settled state for a response that does not belong to the current step.
fn mismatch() -> (r: (DeliveryState, DeliveryAction))
    ensures
        r.0@ == mismatch_step().0,
        r.1@ == mismatch_step().1,
{
    (
        DeliveryState::Failed {
            error: "response did not match the current delivery step".to_owned(),
        },
        DeliveryAction::Stop,
    )
}

/// The run of the protocol over a sequence of responses: the state it ends
/// in and the action commanded after each response, in order.
pub open spec fn spec_delivery_run(
    u: Uploader,
    annotation: Seq<char>,
    s: DeliveryStateV,
    events: Seq<DeliveryEvent>,
) -> (DeliveryStateV, Seq<DeliveryActionV>)
    decreases events.len(),
{
    if events.len() == 0 {
        (s, Seq::empty())
    } else {
        let step = spec_delivery_step(u, annotation, s, events[0]);
        let rest = spec_delivery_run(u, annotation, step.0, events.drop_first());
        (rest.0, seq![step.1] + rest.1)
    }
}

/// The actions of a whole delivery, started in the awaiting-slot state.
pub open spec fn delivery_actions(
    u: Uploader,
    annotation: Seq<char>,
    events: Seq<DeliveryEvent>,
) -> Seq<DeliveryActionV> {
    spec_delivery_run(u, annotation, DeliveryStateV::AwaitingSlot, events).1
}

/// Every action of the run is `Stop`: no remote call is commanded.
pub open spec fn makes_no_calls(actions: Seq<DeliveryActionV>) -> bool {
    forall|i: int| 0 <= i < actions.len() ==> actions[i] is Stop
}

/// Each response is answered by exactly one action.
pub proof fn lemma_delivery_run_length(
    u: Uploader,
    annotation: Seq<char>,
    s: DeliveryStateV,
    events: Seq<DeliveryEvent>,
)
    ensures
        spec_delivery_run(u, annotation, s, events).1.len() == events.len(),
    decreases events.len(),
{
    if events.len() > 0 {
        let step = spec_delivery_step(u, annotation, s, events[0]);
        lemma_delivery_run_length(u, annotation, step.0, events.drop_first());
    }
}

/// A transfer is commanded only in the awaiting-slot state, and only by a
/// slot response that grants the upload.
pub proof fn lemma_transfer_needs_slot_grant(
    u: Uploader,
    annotation: Seq<char>,
    s: DeliveryStateV,
    e: DeliveryEvent,
)
    ensures
        spec_delivery_step(u, annotation, s, e).1 is Transfer ==> s is AwaitingSlot && (
        e matches DeliveryEvent::Slot(r) && slot_granted(r)),
{
}

/// A finalize is commanded only in the awaiting-transfer state, and only by
/// a success status of the byte transfer.
pub proof fn lemma_finalize_needs_transfer_success(
    u: Uploader,
    annotation: Seq<char>,
    s: DeliveryStateV,
    e: DeliveryEvent,
)
    ensures
        spec_delivery_step(u, annotation, s, e).1 is Finalize ==> s is AwaitingTransfer && (
        e matches DeliveryEvent::Transfer(status) && transfer_ok(status)),
{
}

/// Once the machine is past the transfer decision — awaiting the finalize
/// response, done, or failed — it never commands another remote call.
pub proof fn lemma_no_calls_after_transfer_decision(
    u: Uploader,
    annotation: Seq<char>,
    s: DeliveryStateV,
    events: Seq<DeliveryEvent>,
)
    requires
        s is AwaitingFinalize || s is Done || s is Failed,
    ensures
        makes_no_calls(spec_delivery_run(u, annotation, s, events).1),
    decreases events.len(),
{
    if events.len() > 0 {
        let step = spec_delivery_step(u, annotation, s, events[0]);
        assert(step.1 is Stop);
        assert(step.0 is AwaitingFinalize || step.0 is Done || step.0 is Failed);
        lemma_no_calls_after_transfer_decision(u, annotation, step.0, events.drop_first());
        let acts = spec_delivery_run(u, annotation, s, events).1;
        let rest = spec_delivery_run(u, annotation, step.0, events.drop_first()).1;
        assert(acts == seq![step.1] + rest);
        assert forall|i: int| 0 <= i < acts.len() implies acts[i] is Stop by {
            if i == 0 {
                assert(acts[i] == step.1);
            } else {
                assert(acts[i] == rest[i - 1]);
            }
        }
    }
}

/// Once the slot response has been consumed, no byte transfer is ever
/// commanded again.
pub proof fn lemma_no_transfer_once_slot_consumed(
    u: Uploader,
    annotation: Seq<char>,
    s: DeliveryStateV,
    events: Seq<DeliveryEvent>,
)
    requires
        !(s is AwaitingSlot),
    ensures
        forall|i: int|
            0 <= i < spec_delivery_run(u, annotation, s, events).1.len() ==> !(spec_delivery_run(
                u,
                annotation,
                s,
                events,
            ).1[i] is Transfer),
    decreases events.len(),
{
    if events.len() > 0 {
        let step = spec_delivery_step(u, annotation, s, events[0]);
        assert(!(step.1 is Transfer));
        assert(!(step.0 is AwaitingSlot));
        lemma_no_transfer_once_slot_consumed(u, annotation, step.0, events.drop_first());
        let acts = spec_delivery_run(u, annotation, s, events).1;
        let rest = spec_delivery_run(u, annotation, step.0, events.drop_first()).1;
        assert(acts == seq![step.1] + rest);
        assert forall|i: int| 0 <= i < acts.len() implies !(acts[i] is Transfer) by {
            if i == 0 {
                assert(acts[i] == step.1);
            } else {
                assert(acts[i] == rest[i - 1]);
            }
        }
    }
}

/// The delivery issues its calls in order: the slot request opens the run,
/// a transfer can only be the reaction to the first response (the slot
/// grant), and a finalize only the reaction to the second (a successful
/// transfer status), with the transfer commanded right before it.
pub proof fn lemma_delivery_call_order(
    u: Uploader,
    annotation: Seq<char>,
    events: Seq<DeliveryEvent>,
)
    ensures
        forall|i: int|
            0 <= i < delivery_actions(u, annotation, events).len() && (#[trigger] delivery_actions(
                u,
                annotation,
                events,
            )[i]) is Transfer ==> i == 0,
        forall|i: int|
            0 <= i < delivery_actions(u, annotation, events).len() && (#[trigger] delivery_actions(
                u,
                annotation,
                events,
            )[i]) is Finalize ==> i == 1 && delivery_actions(u, annotation, events)[0] is Transfer,
{
    let acts = delivery_actions(u, annotation, events);
    if events.len() > 0 {
        let e0 = events[0];
        let step = spec_delivery_step(u, annotation, DeliveryStateV::AwaitingSlot, e0);
        let rest_events = events.drop_first();
        let rest = spec_delivery_run(u, annotation, step.0, rest_events).1;
        assert(acts == seq![step.1] + rest);
        assert(!(step.1 is Finalize));
        if step.0 is AwaitingTransfer {
            lemma_no_transfer_once_slot_consumed(u, annotation, step.0, rest_events);
            if rest_events.len() > 0 {
                let step1 = spec_delivery_step(u, annotation, step.0, rest_events[0]);
                let rest2 = spec_delivery_run(
                    u,
                    annotation,
                    step1.0,
                    rest_events.drop_first(),
                ).1;
                assert(rest == seq![step1.1] + rest2);
                assert(step1.0 is AwaitingFinalize || step1.0 is Failed);
                lemma_no_calls_after_transfer_decision(
                    u,
                    annotation,
                    step1.0,
                    rest_events.drop_first(),
                );
                assert forall|i: int| 0 <= i < acts.len() && (#[trigger] acts[i]) is Finalize implies i == 1
                    && acts[0] is Transfer by {
                    if i >= 1 {
                        assert(acts[i] == rest[i - 1]);
                        if i >= 2 {
                            assert(rest[i - 1] == rest2[i - 2]);
                        }
                    }
                }
            }
        } else {
            assert(step.0 is Failed);
            assert(step.1 is Stop);
            lemma_no_calls_after_transfer_decision(u, annotation, step.0, rest_events);
            assert forall|i: int| 0 <= i < acts.len() implies acts[i] is Stop by {
                if i == 0 {
                    assert(acts[i] == step.1);
                } else {
                    assert(acts[i] == rest[i - 1]);
                }
            }
        }
        assert forall|i: int| 0 <= i < acts.len() && (#[trigger] acts[i]) is Transfer implies i == 0 by {
            if i >= 1 {
                assert(acts[i] == rest[i - 1]);
            }
        }
    }
}

/// A granted slot, a success transfer status and a confirming finalize
/// response drive the delivery through all three calls, in order, to
/// completion with the finalize call's file metadata.
pub proof fn lemma_delivery_happy_path(
    u: Uploader,
    annotation: Seq<char>,
    slot: UploadURLResponse,
    status: u16,
    fin: CompleteUploadResponse,
)
    requires
        slot_granted(slot),
        transfer_ok(status),
        fin.ok,
    ensures
        spec_delivery_run(
            u,
            annotation,
            DeliveryStateV::AwaitingSlot,
            seq![
                DeliveryEvent::Slot(slot),
                DeliveryEvent::Transfer(status),
                DeliveryEvent::Finalize(fin),
            ],
        ).0 == (DeliveryStateV::Done { file: fin.file }),
        delivery_actions(
            u,
            annotation,
            seq![
                DeliveryEvent::Slot(slot),
                DeliveryEvent::Transfer(status),
                DeliveryEvent::Finalize(fin),
            ],
        ) =~= seq![
            DeliveryActionV::Transfer { upload_url: slot.upload_url->0@ },
            DeliveryActionV::Finalize {
                file_id: slot.file_id->0@,
                title: spec_title(u),
                channel: u.channel@,
                comment: spec_comment(u.message@, annotation),
            },
            DeliveryActionV::Stop,
        ],
{
    reveal_with_fuel(spec_delivery_run, 4);
    let events = seq![
        DeliveryEvent::Slot(slot),
        DeliveryEvent::Transfer(status),
        DeliveryEvent::Finalize(fin),
    ];
    let s0 = DeliveryStateV::AwaitingSlot;
    let step0 = spec_delivery_step(u, annotation, s0, events[0]);
    let rest1 = events.drop_first();
    assert(rest1 =~= seq![DeliveryEvent::Transfer(status), DeliveryEvent::Finalize(fin)]);
    let step1 = spec_delivery_step(u, annotation, step0.0, rest1[0]);
    let rest2 = rest1.drop_first();
    assert(rest2 =~= seq![DeliveryEvent::Finalize(fin)]);
    let step2 = spec_delivery_step(u, annotation, step1.0, rest2[0]);
    let rest3 = rest2.drop_first();
    assert(rest3 =~= Seq::<DeliveryEvent>::empty());
    assert(spec_delivery_run(u, annotation, step1.0, rest2).1 =~= seq![step2.1]
        + Seq::<DeliveryActionV>::empty());
    assert(spec_delivery_run(u, annotation, s0, events).1 =~= seq![step0.1] + (seq![step1.1]
        + (seq![step2.1] + Seq::<DeliveryActionV>::empty())));
}

/// A slot-request response that reports failure or omits the upload URL or
/// the file identifier settles the delivery: whatever follows, no transfer
/// and no finalize call is ever made.
pub proof fn lemma_slot_refusal_no_calls(
    u: Uploader,
    annotation: Seq<char>,
    r: UploadURLResponse,
    rest: Seq<DeliveryEvent>,
)
    requires
        !slot_granted(r),
    ensures
        makes_no_calls(
            spec_delivery_run(
                u,
                annotation,
                DeliveryStateV::AwaitingSlot,
                seq![DeliveryEvent::Slot(r)] + rest,
            ).1,
        ),
{
    let events = seq![DeliveryEvent::Slot(r)] + rest;
    assert(events[0] == DeliveryEvent::Slot(r));
    assert(events.drop_first() =~= rest);
    let step = spec_delivery_step(u, annotation, DeliveryStateV::AwaitingSlot, events[0]);
    assert(step.0 is Failed && step.1 is Stop);
    lemma_no_calls_after_transfer_decision(u, annotation, step.0, events.drop_first());
    let acts = spec_delivery_run(u, annotation, DeliveryStateV::AwaitingSlot, events).1;
    let tail = spec_delivery_run(u, annotation, step.0, events.drop_first()).1;
    assert(acts == seq![step.1] + tail);
    assert forall|i: int| 0 <= i < acts.len() implies acts[i] is Stop by {
        if i == 0 {
            assert(acts[i] == step.1);
        } else {
            assert(acts[i] == tail[i - 1]);
        }
    }
}

/// A non-success transfer status settles the delivery: whatever follows,
/// finalize is never called.
pub proof fn lemma_transfer_failure_no_finalize(
    u: Uploader,
    annotation: Seq<char>,
    s: DeliveryStateV,
    status: u16,
    rest: Seq<DeliveryEvent>,
)
    requires
        s is AwaitingTransfer,
        !transfer_ok(status),
    ensures
        makes_no_calls(
            spec_delivery_run(
                u,
                annotation,
                s,
                seq![DeliveryEvent::Transfer(status)] + rest,
            ).1,
        ),
{
    let events = seq![DeliveryEvent::Transfer(status)] + rest;
    assert(events[0] == DeliveryEvent::Transfer(status));
    assert(events.drop_first() =~= rest);
    let step = spec_delivery_step(u, annotation, s, events[0]);
    assert(step.0 is Failed && step.1 is Stop);
    lemma_no_calls_after_transfer_decision(u, annotation, step.0, events.drop_first());
    let acts = spec_delivery_run(u, annotation, s, events).1;
    let tail = spec_delivery_run(u, annotation, step.0, events.drop_first()).1;
    assert(acts == seq![step.1] + tail);
    assert forall|i: int| 0 <= i < acts.len() implies acts[i] is Stop by {
        if i == 0 {
            assert(acts[i] == step.1);
        } else {
            assert(acts[i] == tail[i - 1]);
        }
    }
}

/// Replays a whole delivery over the given responses, starting in the
/// awaiting-slot state: the state it ends in and the action commanded after
/// each response.
pub fn run_delivery(u: &Uploader, annotation: &String, events: Vec<DeliveryEvent>) -> (r: (
    DeliveryState,
    Vec<DeliveryAction>,
))
    requires
        has_extension(u.build_path@),
    ensures
        r.0@ == spec_delivery_run(*u, annotation@, DeliveryStateV::AwaitingSlot, events@).0,
        r.1@.map_values(|a: DeliveryAction| a@) == spec_delivery_run(
            *u,
            annotation@,
            DeliveryStateV::AwaitingSlot,
            events@,
        ).1,
{
    let ghost all_events = events@;
    let mut events = events;
    let mut state = DeliveryState::AwaitingSlot;
    let mut actions: Vec<DeliveryAction> = Vec::new();
    proof {
        assert(actions@.map_values(|a: DeliveryAction| a@) =~= Seq::<DeliveryActionV>::empty());
    }
    while events.len() > 0
        invariant
            has_extension(u.build_path@),
            spec_delivery_run(*u, annotation@, DeliveryStateV::AwaitingSlot, all_events).0
                == spec_delivery_run(*u, annotation@, state@, events@).0,
            spec_delivery_run(*u, annotation@, DeliveryStateV::AwaitingSlot, all_events).1
                =~= actions@.map_values(|a: DeliveryAction| a@) + spec_delivery_run(
                *u,
                annotation@,
                state@,
                events@,
            ).1,
        decreases events.len(),
    {
        let ghost evs = events@;
        let ghost pre_state = state@;
        let ghost pre_actions = actions@;
        let e = events.remove(0);
        proof {
            assert(events@ =~= evs.drop_first());
        }
        let (s2, a) = delivery_step(u, annotation, state, e);
        state = s2;
        actions.push(a);
        proof {
            let step = spec_delivery_step(*u, annotation@, pre_state, evs[0]);
            assert(spec_delivery_run(*u, annotation@, pre_state, evs).1 == seq![step.1]
                + spec_delivery_run(*u, annotation@, state@, events@).1);
            assert(actions@.map_values(|x: DeliveryAction| x@) =~= pre_actions.map_values(
                |x: DeliveryAction| x@,
            ).push(a@));
            assert(pre_actions.map_values(|x: DeliveryAction| x@).push(step.1) + spec_delivery_run(
                *u,
                annotation@,
                state@,
                events@,
            ).1 =~= pre_actions.map_values(|x: DeliveryAction| x@) + (seq![step.1]
                + spec_delivery_run(*u, annotation@, state@, events@).1));
        }
    }
    proof {
        assert(spec_delivery_run(*u, annotation@, state@, events@).1 =~= Seq::<
            DeliveryActionV,
        >::empty());
        assert(actions@.map_values(|a: DeliveryAction| a@) + Seq::<DeliveryActionV>::empty()
            =~= actions@.map_values(|a: DeliveryAction| a@));
    }
    (state, actions)
}

} // verus!
