//! The relay polling pipeline: an artifact is submitted to the distribution
//! relay, which converts it asynchronously; the caller then polls the job's
//! status on a fixed interval until it is ready, failed, or the attempt
//! budget is exhausted.
//!
//! The loop's decisions are verified here: [`poll_step`] classifies one
//! status response, and [`spec_relay_run`] states what a whole run does —
//! at most [`MAX_POLL_ATTEMPTS`] polls, one sleep per pending poll, and an
//! immediate stop on the first non-pending status.  The surrounding binary
//! performs the HTTP calls and the sleeps.

use vstd::prelude::*;

verus! {

/// Ceiling on poll attempts against the relay's status endpoint.
pub const MAX_POLL_ATTEMPTS: u64 = 150;

/// Seconds waited between two polls while the job is pending.
pub const POLL_WAIT_SECS: u64 = 5;

/// Status code the relay reports while the job is still converting.
pub const STATUS_PENDING: u64 = 2001;

/// Status code the relay reports when the job is done.
pub const STATUS_READY: u64 = 2000;

/// A finished relay job: the shareable install link and the QR-code
/// reference.
pub struct UploadResponse {
    pub link: String,
    pub qr_code: String,
}

/// What one poll of the status endpoint reports: a numeric status code and,
/// depending on it, a message, a link, and a QR-code reference.
pub struct StatusResponse {
    pub status: u64,
    pub message: Option<String>,
    pub link: Option<String>,
    pub qrcode: Option<String>,
}

/// How one status response is to be acted on.
pub enum PollVerdict {
    /// The job is still converting: sleep the fixed delay and poll again.
    Pending,
    /// The job is done; the link and QR-code reference are in hand.
    Ready { link: String, qr_code: String },
    /// The relay claimed success but omitted a promised field.
    ContractViolation { error: String },
    /// The relay reported a failure; do not poll again.
    Failed { error: String },
}

/// Mathematical counterpart of [`PollVerdict`].
pub enum PollVerdictV {
    Pending,
    Ready { link: Seq<char>, qr_code: Seq<char> },
    ContractViolation { error: Seq<char> },
    Failed { error: Seq<char> },
}

impl View for PollVerdict {
    type V = PollVerdictV;

    open spec fn view(&self) -> PollVerdictV {
        match self {
            PollVerdict::Pending => PollVerdictV::Pending,
            PollVerdict::Ready { link, qr_code } => {
                PollVerdictV::Ready { link: link@, qr_code: qr_code@ }
            },
            PollVerdict::ContractViolation { error } => {
                PollVerdictV::ContractViolation { error: error@ }
            },
            PollVerdict::Failed { error } => PollVerdictV::Failed { error: error@ },
        }
    }
}

/// How a whole poll run ends.
pub enum RelayOutcome {
    /// The job finished and both promised fields were present.
    Ready { link: String, qr_code: String },
    /// The relay claimed success but omitted the link or the QR-code
    /// reference.
    ContractViolation { error: String },
    /// The relay reported a failure.
    Failed { error: String },
    /// The attempt budget was exhausted while the job was still pending.
    TimedOut { error: String },
    /// The supplied responses ran out while the job was still pending.
    StillPending,
}

/// Mathematical counterpart of [`RelayOutcome`].
pub enum RelayOutcomeV {
    Ready { link: Seq<char>, qr_code: Seq<char> },
    ContractViolation { error: Seq<char> },
    Failed { error: Seq<char> },
    TimedOut { error: Seq<char> },
    StillPending,
}

impl View for RelayOutcome {
    type V = RelayOutcomeV;

    open spec fn view(&self) -> RelayOutcomeV {
        match self {
            RelayOutcome::Ready { link, qr_code } => {
                RelayOutcomeV::Ready { link: link@, qr_code: qr_code@ }
            },
            RelayOutcome::ContractViolation { error } => {
                RelayOutcomeV::ContractViolation { error: error@ }
            },
            RelayOutcome::Failed { error } => RelayOutcomeV::Failed { error: error@ },
            RelayOutcome::TimedOut { error } => RelayOutcomeV::TimedOut { error: error@ },
            RelayOutcome::StillPending => RelayOutcomeV::StillPending,
        }
    }
}

/// The relay's error text, or the generic placeholder when it sent none.
pub open spec fn relay_error_text(m: Option<String>) -> Seq<char> {
    match m {
        Some(t) => t@,
        None => "un-expected error"@,
    }
}

/// How one status response is to be acted on: pending sleeps and retries, a
/// ready status must carry both the link and the QR-code reference, and any
/// other status fails the job at once.
pub open spec fn spec_poll_verdict(r: StatusResponse) -> PollVerdictV {
    if r.status == STATUS_PENDING {
        PollVerdictV::Pending
    } else if r.status == STATUS_READY {
        match (r.link, r.qrcode) {
            (Some(l), Some(q)) => PollVerdictV::Ready { link: l@, qr_code: q@ },
            (None, _) => PollVerdictV::ContractViolation {
                error: "link not received in status response"@,
            },
            (Some(_), None) => PollVerdictV::ContractViolation {
                error: "qr code not received in status response"@,
            },
        }
    } else {
        PollVerdictV::Failed {
            error: "error while uploading to diawi: "@ + relay_error_text(r.message),
        }
    }
}

/// Classifies one status response; it computes exactly what
/// [`spec_poll_verdict`] states.
pub fn poll_step(r: StatusResponse) -> (v: PollVerdict)
    ensures
        v@ == spec_poll_verdict(r),
{
    if r.status == STATUS_PENDING {
        PollVerdict::Pending
    } else if r.status == STATUS_READY {
        match (r.link, r.qrcode) {
            (Some(l), Some(q)) => PollVerdict::Ready { link: l, qr_code: q },
            (None, _) => PollVerdict::ContractViolation {
                error: "link not received in status response".to_owned(),
            },
            (Some(_), None) => PollVerdict::ContractViolation {
                error: "qr code not received in status response".to_owned(),
            },
        }
    } else {
        let mut msg = "error while uploading to diawi: ".to_owned();
        match r.message {
            Some(t) => msg.append(t.as_str()),
            None => msg.append("un-expected error"),
        }
        PollVerdict::Failed { error: msg }
    }
}

/// Checks the submit response: the job identifier must be present; its
/// absence is fatal.
pub fn handle_submit_response(job: Option<String>) -> (r: Result<String, String>)
    ensures
        match job {
            Some(j) => r matches Ok(id) && id@ == j@,
            None => r matches Err(m) && m@ == "missing job identifier in relay response"@,
        },
{
    match job {
        Some(j) => Ok(j),
        None => Err("missing job identifier in relay response".to_owned()),
    }
}

/// Everything a poll run does: how it ends, how many polls it made, and how
/// many times it slept.
pub struct RelayRunV {
    pub outcome: RelayOutcomeV,
    pub polls: nat,
    pub sleeps: nat,
}

/// The run of the poll loop over the statuses the relay would report, with
/// `polls_made` attempts already spent: a pending status costs one poll and
/// one sleep and the loop goes on; the first non-pending status ends it; an
/// exhausted budget times it out before any further poll.
pub open spec fn spec_relay_run_from(resps: Seq<StatusResponse>, polls_made: nat) -> RelayRunV
    decreases resps.len(),
{
    if polls_made >= MAX_POLL_ATTEMPTS {
        RelayRunV {
            outcome: RelayOutcomeV::TimedOut { error: "diawi upload timed out"@ },
            polls: 0,
            sleeps: 0,
        }
    } else if resps.len() == 0 {
        RelayRunV { outcome: RelayOutcomeV::StillPending, polls: 0, sleeps: 0 }
    } else {
        match spec_poll_verdict(resps[0]) {
            PollVerdictV::Pending => {
                let rest = spec_relay_run_from(resps.drop_first(), polls_made + 1);
                RelayRunV {
                    outcome: rest.outcome,
                    polls: rest.polls + 1,
                    sleeps: rest.sleeps + 1,
                }
            },
            PollVerdictV::Ready { link, qr_code } => RelayRunV {
                outcome: RelayOutcomeV::Ready { link, qr_code },
                polls: 1,
                sleeps: 0,
            },
            PollVerdictV::ContractViolation { error } => RelayRunV {
                outcome: RelayOutcomeV::ContractViolation { error },
                polls: 1,
                sleeps: 0,
            },
            PollVerdictV::Failed { error } => RelayRunV {
                outcome: RelayOutcomeV::Failed { error },
                polls: 1,
                sleeps: 0,
            },
        }
    }
}

/// A fresh poll run, with the whole attempt budget ahead of it.
pub open spec fn spec_relay_run(resps: Seq<StatusResponse>) -> RelayRunV {
    spec_relay_run_from(resps, 0)
}

/// The outcome that one non-pending verdict settles the run with.
pub open spec fn outcome_of_verdict(v: PollVerdictV) -> RelayOutcomeV {
    match v {
        PollVerdictV::Pending => RelayOutcomeV::StillPending,
        PollVerdictV::Ready { link, qr_code } => RelayOutcomeV::Ready { link, qr_code },
        PollVerdictV::ContractViolation { error } => RelayOutcomeV::ContractViolation { error },
        PollVerdictV::Failed { error } => RelayOutcomeV::Failed { error },
    }
}

/// A ready status that omits the link or the QR-code reference is a
/// contract violation — neither a pending nor a failed result.
pub proof fn lemma_poll_missing_fields(r: StatusResponse)
    requires
        r.status == STATUS_READY,
        r.link is None || r.qrcode is None,
    ensures
        spec_poll_verdict(r) is ContractViolation,
{
}

/// Any status other than ready or pending fails the job at once.
pub proof fn lemma_poll_other_status_fails(r: StatusResponse)
    requires
        r.status != STATUS_READY,
        r.status != STATUS_PENDING,
    ensures
        spec_poll_verdict(r) is Failed,
{
}

/// With `polls_made` attempts already spent, a run spends at most the rest
/// of the budget.
pub proof fn lemma_relay_polls_bounded_from(resps: Seq<StatusResponse>, polls_made: nat)
    requires
        polls_made <= MAX_POLL_ATTEMPTS,
    ensures
        polls_made + spec_relay_run_from(resps, polls_made).polls <= MAX_POLL_ATTEMPTS,
    decreases resps.len(),
{
    if polls_made < MAX_POLL_ATTEMPTS && resps.len() > 0 {
        if spec_poll_verdict(resps[0]) is Pending {
            lemma_relay_polls_bounded_from(resps.drop_first(), polls_made + 1);
        }
    }
}

/// The poll loop never exceeds its attempt budget.
pub proof fn lemma_relay_poll_budget(resps: Seq<StatusResponse>)
    ensures
        spec_relay_run(resps).polls <= MAX_POLL_ATTEMPTS,
{
    lemma_relay_polls_bounded_from(resps, 0);
}

/// The loop sleeps exactly once per pending poll: every poll sleeps except
/// the one that settles the run with a ready, violated or failed status.
pub proof fn lemma_relay_one_sleep_per_pending(resps: Seq<StatusResponse>, polls_made: nat)
    ensures
        spec_relay_run_from(resps, polls_made).polls == spec_relay_run_from(
            resps,
            polls_made,
        ).sleeps + (if spec_relay_run_from(resps, polls_made).outcome is TimedOut
            || spec_relay_run_from(resps, polls_made).outcome is StillPending {
            0int
        } else {
            1int
        }),
    decreases resps.len(),
{
    if polls_made < MAX_POLL_ATTEMPTS && resps.len() > 0 {
        if spec_poll_verdict(resps[0]) is Pending {
            lemma_relay_one_sleep_per_pending(resps.drop_first(), polls_made + 1);
        }
    }
}

/// A run over nothing but pending statuses spends exactly the remaining
/// budget, sleeps after every one of those polls, and times out.
pub proof fn lemma_relay_all_pending_from(resps: Seq<StatusResponse>, polls_made: nat)
    requires
        polls_made <= MAX_POLL_ATTEMPTS,
        polls_made + resps.len() >= MAX_POLL_ATTEMPTS,
        forall|i: int| 0 <= i < resps.len() ==> #[trigger] resps[i].status == STATUS_PENDING,
    ensures
        spec_relay_run_from(resps, polls_made).outcome is TimedOut,
        spec_relay_run_from(resps, polls_made).polls == MAX_POLL_ATTEMPTS - polls_made,
        spec_relay_run_from(resps, polls_made).sleeps == MAX_POLL_ATTEMPTS - polls_made,
    decreases resps.len(),
{
    if polls_made < MAX_POLL_ATTEMPTS {
        assert(resps.len() > 0);
        assert(resps[0].status == STATUS_PENDING);
        assert(forall|i: int|
            0 <= i < resps.drop_first().len() ==> #[trigger] resps.drop_first()[i].status
                == STATUS_PENDING);
        lemma_relay_all_pending_from(resps.drop_first(), polls_made + 1);
    }
}

/// The relay poll loop polls once per attempt, up to but never past its
/// budget of [`MAX_POLL_ATTEMPTS`]; kept pending throughout, it times out
/// after exactly that many polls and sleeps, instead of polling once more.
pub proof fn lemma_relay_all_pending_times_out(resps: Seq<StatusResponse>)
    requires
        resps.len() >= MAX_POLL_ATTEMPTS,
        forall|i: int| 0 <= i < resps.len() ==> #[trigger] resps[i].status == STATUS_PENDING,
    ensures
        spec_relay_run(resps).outcome is TimedOut,
        spec_relay_run(resps).polls == MAX_POLL_ATTEMPTS,
        spec_relay_run(resps).sleeps == MAX_POLL_ATTEMPTS,
{
    lemma_relay_all_pending_from(resps, 0);
}

/// The first non-pending status settles the loop at once, whatever budget
/// is left: with `k` pending statuses before it, it is poll `k + 1` and the
/// last, and the run's outcome is that verdict's.
pub proof fn lemma_relay_first_terminal_from(resps: Seq<StatusResponse>, k: int, polls_made: nat)
    requires
        0 <= k < resps.len(),
        polls_made + k < MAX_POLL_ATTEMPTS,
        forall|j: int| 0 <= j < k ==> #[trigger] spec_poll_verdict(resps[j]) is Pending,
        !(spec_poll_verdict(resps[k]) is Pending),
    ensures
        spec_relay_run_from(resps, polls_made).polls == k + 1,
        spec_relay_run_from(resps, polls_made).sleeps == k,
        spec_relay_run_from(resps, polls_made).outcome == outcome_of_verdict(
            spec_poll_verdict(resps[k]),
        ),
    decreases k,
{
    if k == 0 {
    } else {
        assert(spec_poll_verdict(resps[0]) is Pending);
        let rest = resps.drop_first();
        assert(rest[k - 1] == resps[k]);
        assert(forall|j: int|
            0 <= j < k - 1 ==> #[trigger] spec_poll_verdict(rest[j]) is Pending);
        lemma_relay_first_terminal_from(rest, k - 1, polls_made + 1);
    }
}

/// The first non-pending status — ready, field missing, or failed — ends
/// the loop immediately, regardless of the remaining attempt budget.
pub proof fn lemma_relay_first_terminal(resps: Seq<StatusResponse>, k: int)
    requires
        0 <= k < resps.len(),
        k < MAX_POLL_ATTEMPTS,
        forall|j: int| 0 <= j < k ==> #[trigger] spec_poll_verdict(resps[j]) is Pending,
        !(spec_poll_verdict(resps[k]) is Pending),
    ensures
        spec_relay_run(resps).polls == k + 1,
        spec_relay_run(resps).sleeps == k,
        spec_relay_run(resps).outcome == outcome_of_verdict(spec_poll_verdict(resps[k])),
{
    lemma_relay_first_terminal_from(resps, k, 0);
}

/// What a whole poll run did: how it ended and how many polls and sleeps it
/// took.
pub struct RelayReport {
    pub outcome: RelayOutcome,
    pub polls: u64,
    pub sleeps: u64,
}

/// Replays the poll loop over the given status responses; it computes
/// exactly what [`spec_relay_run`] states.
pub fn run_relay_poll(responses: Vec<StatusResponse>) -> (r: RelayReport)
    ensures
        r.outcome@ == spec_relay_run(responses@).outcome,
        r.polls == spec_relay_run(responses@).polls,
        r.sleeps == spec_relay_run(responses@).sleeps,
{
    let ghost all = responses@;
    let mut responses = responses;
    let mut polls: u64 = 0;
    let mut sleeps: u64 = 0;
    let mut outcome: Option<RelayOutcome> = None;
    while outcome.is_none() && polls < MAX_POLL_ATTEMPTS && responses.len() > 0
        invariant
            sleeps <= polls <= MAX_POLL_ATTEMPTS,
            match outcome {
                None => {
                    &&& sleeps == polls
                    &&& spec_relay_run(all).outcome == spec_relay_run_from(
                        responses@,
                        polls as nat,
                    ).outcome
                    &&& spec_relay_run(all).polls == polls + spec_relay_run_from(
                        responses@,
                        polls as nat,
                    ).polls
                    &&& spec_relay_run(all).sleeps == sleeps + spec_relay_run_from(
                        responses@,
                        polls as nat,
                    ).sleeps
                },
                Some(o) => {
                    &&& o@ == spec_relay_run(all).outcome
                    &&& polls == spec_relay_run(all).polls
                    &&& sleeps == spec_relay_run(all).sleeps
                },
            },
        decreases responses.len(),
    {
        let ghost pre = responses@;
        let r = responses.remove(0);
        proof {
            assert(responses@ =~= pre.drop_first());
        }
        match poll_step(r) {
            PollVerdict::Pending => {
                polls = polls + 1;
                sleeps = sleeps + 1;
            },
            PollVerdict::Ready { link, qr_code } => {
                polls = polls + 1;
                outcome = Some(RelayOutcome::Ready { link, qr_code });
            },
            PollVerdict::ContractViolation { error } => {
                polls = polls + 1;
                outcome = Some(RelayOutcome::ContractViolation { error });
            },
            PollVerdict::Failed { error } => {
                polls = polls + 1;
                outcome = Some(RelayOutcome::Failed { error });
            },
        }
    }
    match outcome {
        Some(o) => RelayReport { outcome: o, polls, sleeps },
        None => {
            if polls >= MAX_POLL_ATTEMPTS {
                RelayReport {
                    outcome: RelayOutcome::TimedOut {
                        error: "diawi upload timed out".to_owned(),
                    },
                    polls,
                    sleeps,
                }
            } else {
                RelayReport { outcome: RelayOutcome::StillPending, polls, sleeps }
            }
        },
    }
}

impl RelayOutcome {
    /// The finished upload when the run ended ready; the run's error
    /// otherwise.
    pub fn into_upload_response(self) -> (r: Result<UploadResponse, String>)
        ensures
            match self@ {
                RelayOutcomeV::Ready { link, qr_code } => r matches Ok(u) && u.link@ == link
                    && u.qr_code@ == qr_code,
                RelayOutcomeV::ContractViolation { error } => r matches Err(m) && m@ == error,
                RelayOutcomeV::Failed { error } => r matches Err(m) && m@ == error,
                RelayOutcomeV::TimedOut { error } => r matches Err(m) && m@ == error,
                RelayOutcomeV::StillPending => r matches Err(m) && m@
                    == "diawi upload still pending"@,
            },
    {
        match self {
            RelayOutcome::Ready { link, qr_code } => Ok(UploadResponse { link, qr_code }),
            RelayOutcome::ContractViolation { error } => Err(error),
            RelayOutcome::Failed { error } => Err(error),
            RelayOutcome::TimedOut { error } => Err(error),
            RelayOutcome::StillPending => Err("diawi upload still pending".to_owned()),
        }
    }
}

} // verus!
