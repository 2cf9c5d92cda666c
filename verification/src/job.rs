//! The making of one sticker: the steps that turn the image at a path into a sticker
//! with its tags.
//!
//! A [`StickerJob`] hands the driver one [`JobAction`] at a time and takes the
//! [`JobEvent`] that came of it, as a [run](crate::orchestrator) does. The image is read
//! and encoded, the sticker is uploaded, and only then is the tagging service asked: when
//! the [rate limiter](crate::limiter) that every job shares has granted the call.

use vstd::prelude::*;
use crate::error::ErrorKind;
use crate::json::json_in_text;
use crate::limiter::{after_poll, may_start, wait_for, RateLimiter, MIN_INTERVAL_MS};
use crate::stickers::{
    encode_sticker, first_tags, sticker_payload, RemoteStickerHandle, Sticker, StickerContent,
    StickerError,
};
use crate::tagger::{
    emoji_tags, encodable, generate_emojis_from_image, reply_text, request_body, tagging_request,
    TaggerError,
};
use crate::text::string_texts;

verus! {

/// How far a job has come: what it waits for.
#[derive(Debug, Clone, Copy, PartialEq, Eq, Structural)]
pub enum JobStage {
    /// The bytes of the image, to encode them.
    Reading,
    /// The platform's handle for the uploaded sticker.
    Uploading,
    /// The time, to ask the rate limiter.
    Throttling,
    /// The end of the sleep that the rate limiter imposed.
    Sleeping,
    /// The bytes of the image, to send them to the tagging service.
    Loading,
    /// The tagging service's reply.
    Asking,
    /// Nothing: the job is over.
    Over,
}

/// Why a job was given up.
#[derive(Debug, Clone, Copy, PartialEq, Eq, Structural)]
pub enum JobError {
    /// The image could not be made into a sticker.
    Sticker(StickerError),
    /// The tagging service's reply could not be read.
    Tagger(TaggerError),
    /// The driver reported a failure of this family.
    Stage(ErrorKind),
    /// The driver answered with something that the job did not wait for.
    OutOfTurn,
}

impl JobError {
    /// The family of the failure.
    pub open spec fn spec_kind(&self) -> ErrorKind {
        match self {
            JobError::Sticker(e) => e.spec_kind(),
            JobError::Tagger(_) => ErrorKind::ExternalService,
            JobError::Stage(kind) => *kind,
            JobError::OutOfTurn => ErrorKind::Validation,
        }
    }

    /// The family of the failure.
    pub fn kind(&self) -> (kind: ErrorKind)
        ensures
            kind == self.spec_kind(),
    {
        match self {
            JobError::Sticker(e) => e.kind(),
            JobError::Tagger(e) => e.kind(),
            JobError::Stage(kind) => *kind,
            JobError::OutOfTurn => ErrorKind::Validation,
        }
    }
}

/// What the driver of a job is to do next.
#[derive(Debug, Clone, PartialEq, Eq)]
pub enum JobAction {
    /// Read the file at `path`; answer with [`JobEvent::Source`].
    Read { path: String },
    /// Upload the encoded sticker; answer with [`JobEvent::Uploaded`].
    Upload { payload: Vec<u8> },
    /// Read the clock; answer with [`JobEvent::Now`].
    Clock,
    /// Sleep for so many milliseconds; answer with [`JobEvent::Done`].
    Sleep { millis: u64 },
    /// Read the file at `path` for the tagging service; answer with [`JobEvent::Source`].
    Load { path: String },
    /// Send the request to the tagging service; answer with [`JobEvent::Reply`].
    Ask { body: String },
    /// The sticker is made. The job is over.
    Deliver(Sticker),
    /// The image cannot be made into a sticker. The job is over.
    GiveUp(JobError),
    /// Nothing: the job was over before.
    Idle,
}

/// What came of an action of a job.
#[derive(Debug, Clone, PartialEq, Eq)]
pub enum JobEvent {
    /// The bytes of the file, or nothing where there is no such file.
    Source(Option<Vec<u8>>),
    /// The file handle in the platform's answer to the upload.
    Uploaded(String),
    /// The reading of the clock, in milliseconds.
    Now(u64),
    /// The action was carried out.
    Done,
    /// The body of the tagging service's reply.
    Reply(String),
    /// The action failed.
    Failed(ErrorKind),
}

/// A [`JobAction`] as plain values.
pub enum JobActionView {
    Read { path: Seq<char> },
    Upload { payload: Seq<u8> },
    Clock,
    Sleep { millis: u64 },
    Load { path: Seq<char> },
    Ask { body: Seq<char> },
    Deliver(StickerContent),
    GiveUp(JobError),
    Idle,
}

/// A [`JobEvent`] as plain values.
pub enum JobEventView {
    Source(Option<Seq<u8>>),
    Uploaded(Seq<char>),
    Now(u64),
    Done,
    Reply(Seq<char>),
    Failed(ErrorKind),
}

impl View for JobAction {
    type V = JobActionView;

    open spec fn view(&self) -> JobActionView {
        match self {
            JobAction::Read { path } => JobActionView::Read { path: path@ },
            JobAction::Upload { payload } => JobActionView::Upload { payload: payload@ },
            JobAction::Clock => JobActionView::Clock,
            JobAction::Sleep { millis } => JobActionView::Sleep { millis: *millis },
            JobAction::Load { path } => JobActionView::Load { path: path@ },
            JobAction::Ask { body } => JobActionView::Ask { body: body@ },
            JobAction::Deliver(sticker) => JobActionView::Deliver(sticker@),
            JobAction::GiveUp(error) => JobActionView::GiveUp(*error),
            JobAction::Idle => JobActionView::Idle,
        }
    }
}

impl View for JobEvent {
    type V = JobEventView;

    open spec fn view(&self) -> JobEventView {
        match self {
            JobEvent::Source(source) => JobEventView::Source(
                match source {
                    Some(bytes) => Some(bytes@),
                    None => None,
                },
            ),
            JobEvent::Uploaded(handle) => JobEventView::Uploaded(handle@),
            JobEvent::Now(millis) => JobEventView::Now(*millis),
            JobEvent::Done => JobEventView::Done,
            JobEvent::Reply(text) => JobEventView::Reply(text@),
            JobEvent::Failed(kind) => JobEventView::Failed(*kind),
        }
    }
}

/// The state of a job as plain values.
pub struct JobState {
    /// The path of the image.
    pub path: Seq<char>,
    /// The most bytes that the encoded sticker may have.
    pub ceiling: nat,
    /// What the job waits for.
    pub stage: JobStage,
    /// The platform's handle for the uploaded sticker, once there is one.
    pub handle: Option<Seq<char>>,
}

impl JobState {
    /// What holds of every state that a job can be in: from the upload on it has a
    /// handle, and the handle is not empty.
    pub open spec fn valid(self) -> bool {
        &&& self.stage is Reading || self.stage is Uploading ==> self.handle is None
        &&& self.stage is Throttling || self.stage is Sleeping || self.stage is Loading
            || self.stage is Asking ==> self.handle is Some
        &&& self.handle matches Some(h) ==> h.len() > 0
    }
}

/// The state in which the job for the image at `path` begins.
pub open spec fn first_job_state(path: Seq<char>, ceiling: nat) -> JobState {
    JobState { path, ceiling, stage: JobStage::Reading, handle: None }
}

/// Giving a job up.
pub open spec fn give_up(limiter: Option<u64>, s: JobState, error: JobError) -> (
    Option<u64>,
    JobState,
    JobActionView,
) {
    (limiter, JobState { stage: JobStage::Over, ..s }, JobActionView::GiveUp(error))
}

/// One step of a job: the rate limiter and the job after the event, and what the driver
/// is to do next.
///
/// The image is encoded when its bytes arrive, and uploaded. An empty handle ends the
/// job. The tagging service is asked only after the rate limiter granted the call at a
/// reading of the clock; until then the job sleeps as long as the limiter says and asks
/// again. The tags of the reply and the handle make the sticker.
pub open spec fn job_next(limiter: Option<u64>, s: JobState, e: JobEventView) -> (
    Option<u64>,
    JobState,
    JobActionView,
) {
    if s.stage is Over {
        (limiter, s, JobActionView::Idle)
    } else {
        match (s.stage, e) {
            (_, JobEventView::Failed(kind)) => give_up(limiter, s, JobError::Stage(kind)),
            (JobStage::Reading, JobEventView::Source(source)) => match sticker_payload(
                s.path,
                source,
                s.ceiling,
            ) {
                Ok(payload) => (
                    limiter,
                    JobState { stage: JobStage::Uploading, ..s },
                    JobActionView::Upload { payload },
                ),
                Err(error) => give_up(limiter, s, JobError::Sticker(error)),
            },
            (JobStage::Uploading, JobEventView::Uploaded(handle)) => if handle.len() == 0 {
                give_up(limiter, s, JobError::Sticker(StickerError::EmptyHandle))
            } else {
                (
                    limiter,
                    JobState { stage: JobStage::Throttling, handle: Some(handle), ..s },
                    JobActionView::Clock,
                )
            },
            (JobStage::Throttling, JobEventView::Now(now)) => if may_start(limiter, now) {
                (
                    after_poll(limiter, now),
                    JobState { stage: JobStage::Loading, ..s },
                    JobActionView::Load { path: s.path },
                )
            } else {
                (
                    limiter,
                    JobState { stage: JobStage::Sleeping, ..s },
                    JobActionView::Sleep { millis: wait_for(limiter, now) },
                )
            },
            (JobStage::Sleeping, JobEventView::Done) => (
                limiter,
                JobState { stage: JobStage::Throttling, ..s },
                JobActionView::Clock,
            ),
            (JobStage::Loading, JobEventView::Source(source)) => match source {
                None => give_up(limiter, s, JobError::Sticker(StickerError::NotFound)),
                Some(bytes) => if !encodable(bytes.len()) {
                    give_up(limiter, s, JobError::Sticker(StickerError::SourceTooLarge))
                } else {
                    (
                        limiter,
                        JobState { stage: JobStage::Asking, ..s },
                        JobActionView::Ask { body: request_body(bytes) },
                    )
                },
            },
            (JobStage::Asking, JobEventView::Reply(reply)) => match json_in_text(reply) {
                None => give_up(limiter, s, JobError::Tagger(TaggerError::MalformedReply)),
                Some(document) => (
                    limiter,
                    JobState { stage: JobStage::Over, handle: None, ..s },
                    JobActionView::Deliver(
                        StickerContent {
                            handle: s.handle->0,
                            emoji_list: emoji_tags(reply_text(document)),
                        },
                    ),
                ),
            },
            _ => give_up(limiter, s, JobError::OutOfTurn),
        }
    }
}

/// Every step keeps a job in a state that it can be in.
pub proof fn lemma_job_next_valid(limiter: Option<u64>, s: JobState, e: JobEventView)
    requires
        s.valid(),
    ensures
        job_next(limiter, s, e).1.valid(),
{
}

/// The tagging service is asked only by a job that loaded the image for it, and the image
/// is loaded only at a reading of the clock at which the rate limiter granted the call
/// and recorded it. No other step changes the limiter.
pub proof fn lemma_tagging_waits_for_grant(limiter: Option<u64>, s: JobState, e: JobEventView)
    ensures
        job_next(limiter, s, e).2 is Ask ==> s.stage is Loading,
        job_next(limiter, s, e).1.stage is Loading ==> s.stage is Throttling && (e matches JobEventView::Now(
            now,
        ) && may_start(limiter, now) && job_next(limiter, s, e).0 == Some(now)),
        !(job_next(limiter, s, e).1.stage is Loading) ==> job_next(limiter, s, e).0 == limiter,
{
}

/// One step of some job: the state that the job was in, and the event that it took.
pub struct JobStep {
    pub job: JobState,
    pub event: JobEventView,
}

/// The rate limiter after the steps of any number of jobs that share it, in the order in
/// which they took it.
pub open spec fn limiter_after(limiter: Option<u64>, steps: Seq<JobStep>) -> Option<u64>
    decreases steps.len(),
{
    if steps.len() == 0 {
        limiter
    } else {
        job_next(limiter_after(limiter, steps.drop_last()), steps.last().job, steps.last().event).0
    }
}

/// The instants at which the jobs that share a rate limiter went on to the tagging
/// service, in order: the readings of the clock at which a step loaded the image.
pub open spec fn tagging_starts(limiter: Option<u64>, steps: Seq<JobStep>) -> Seq<u64>
    decreases steps.len(),
{
    if steps.len() == 0 {
        Seq::empty()
    } else {
        let before = tagging_starts(limiter, steps.drop_last());
        let step = steps.last();
        let taken = job_next(limiter_after(limiter, steps.drop_last()), step.job, step.event);
        if taken.1.stage is Loading && step.event is Now {
            before.push(step.event->Now_0)
        } else {
            before
        }
    }
}

/// The limiter's record is the last instant at which a job went on to the tagging
/// service, as long as any did.
pub proof fn lemma_limiter_records_last_start(limiter: Option<u64>, steps: Seq<JobStep>)
    ensures
        tagging_starts(limiter, steps).len() == 0 ==> limiter_after(limiter, steps) == limiter,
        tagging_starts(limiter, steps).len() > 0 ==> limiter_after(limiter, steps) == Some(
            tagging_starts(limiter, steps).last(),
        ),
    decreases steps.len(),
{
    if steps.len() > 0 {
        let head = steps.drop_last();
        lemma_limiter_records_last_start(limiter, head);
        lemma_tagging_waits_for_grant(
            limiter_after(limiter, head),
            steps.last().job,
            steps.last().event,
        );
    }
}

/// However many jobs share one rate limiter and however their steps interleave, any two
/// of their calls to the tagging service start at least the minimum interval apart, and
/// the first of them that far after the start that the limiter had on record.
pub proof fn lemma_tagging_calls_spaced(limiter: Option<u64>, steps: Seq<JobStep>)
    ensures
        forall|i: int, j: int|
            0 <= i < j < tagging_starts(limiter, steps).len() ==> #[trigger] tagging_starts(
                limiter,
                steps,
            )[j] - #[trigger] tagging_starts(limiter, steps)[i] >= MIN_INTERVAL_MS,
        forall|j: int|
            0 <= j < tagging_starts(limiter, steps).len() && limiter is Some
                ==> #[trigger] tagging_starts(limiter, steps)[j] - limiter->0 >= MIN_INTERVAL_MS,
    decreases steps.len(),
{
    if steps.len() > 0 {
        let head = steps.drop_last();
        lemma_tagging_calls_spaced(limiter, head);
        lemma_limiter_records_last_start(limiter, head);
        lemma_tagging_waits_for_grant(
            limiter_after(limiter, head),
            steps.last().job,
            steps.last().event,
        );
    }
}

/// The making of one sticker.
pub struct StickerJob {
    path: String,
    ceiling: usize,
    stage: JobStage,
    handle: Option<RemoteStickerHandle>,
}

impl View for StickerJob {
    type V = JobState;

    closed spec fn view(&self) -> JobState {
        JobState {
            path: self.path@,
            ceiling: self.ceiling as nat,
            stage: self.stage,
            handle: match self.handle {
                Some(h) => Some(h@),
                None => None,
            },
        }
    }
}

impl StickerJob {
    #[verifier::type_invariant]
    closed spec fn well_formed(&self) -> bool {
        self@.valid()
    }

    /// Gives the job up.
    fn give_up(self, error: JobError) -> (out: (StickerJob, JobAction))
        ensures
            out.0@ == (JobState { stage: JobStage::Over, ..self@ }),
            out.1@ == JobActionView::GiveUp(error),
    {
        proof {
            use_type_invariant(&self);
        }
        let job = StickerJob {
            path: self.path,
            ceiling: self.ceiling,
            stage: JobStage::Over,
            handle: self.handle,
        };
        (job, JobAction::GiveUp(error))
    }

    /// Moves on to another stage.
    fn at(self, stage: JobStage) -> (job: StickerJob)
        requires
            stage is Throttling || stage is Sleeping || stage is Loading || stage is Asking
                ==> self@.handle is Some,
            stage is Reading || stage is Uploading ==> self@.handle is None,
        ensures
            job@ == (JobState { stage, ..self@ }),
    {
        proof {
            use_type_invariant(&self);
        }
        StickerJob { path: self.path, ceiling: self.ceiling, stage, handle: self.handle }
    }

    /// What the job waits for.
    pub fn stage(&self) -> (stage: JobStage)
        ensures
            stage == self@.stage,
    {
        self.stage
    }

    /// Takes one step: [`job_next`] of the rate limiter, the job's state and the event.
    pub fn step(self, limiter: &mut RateLimiter, event: JobEvent) -> (out: (StickerJob, JobAction))
        ensures
            (final(limiter)@, out.0@, out.1@) == job_next(old(limiter)@, self@, event@),
            out.0@.valid(),
    {
        proof {
            use_type_invariant(&self);
            lemma_job_next_valid(limiter@, self@, event@);
        }
        if matches!(self.stage, JobStage::Over) {
            return (self, JobAction::Idle);
        }
        match (self.stage, event) {
            (_, JobEvent::Failed(kind)) => self.give_up(JobError::Stage(kind)),
            (JobStage::Reading, JobEvent::Source(source)) => {
                let encoded = match &source {
                    Some(bytes) => encode_sticker(
                        self.path.as_str(),
                        Some(bytes.as_slice()),
                        self.ceiling,
                    ),
                    None => encode_sticker(self.path.as_str(), None, self.ceiling),
                };
                match encoded {
                    Ok(payload) => (self.at(JobStage::Uploading), JobAction::Upload { payload }),
                    Err(error) => self.give_up(JobError::Sticker(error)),
                }
            },
            (JobStage::Uploading, JobEvent::Uploaded(file_id)) => {
                match RemoteStickerHandle::new(file_id) {
                    Err(error) => self.give_up(JobError::Sticker(error)),
                    Ok(handle) => {
                        let job = StickerJob {
                            path: self.path,
                            ceiling: self.ceiling,
                            stage: JobStage::Throttling,
                            handle: Some(handle),
                        };
                        (job, JobAction::Clock)
                    },
                }
            },
            (JobStage::Throttling, JobEvent::Now(now)) => {
                let wait = limiter.acquire(now);
                if wait == 0 {
                    let path = self.path.clone();
                    (self.at(JobStage::Loading), JobAction::Load { path })
                } else {
                    (self.at(JobStage::Sleeping), JobAction::Sleep { millis: wait })
                }
            },
            (JobStage::Sleeping, JobEvent::Done) => (self.at(JobStage::Throttling), JobAction::Clock),
            (JobStage::Loading, JobEvent::Source(source)) => {
                match source {
                    None => self.give_up(JobError::Sticker(StickerError::NotFound)),
                    Some(bytes) => {
                        let groups = bytes.len() / 3 + if bytes.len() % 3 == 0 {
                            0
                        } else {
                            1
                        };
                        if groups > usize::MAX / 4 {
                            self.give_up(JobError::Sticker(StickerError::SourceTooLarge))
                        } else {
                            let body = tagging_request(bytes.as_slice());
                            (self.at(JobStage::Asking), JobAction::Ask { body })
                        }
                    },
                }
            },
            (JobStage::Asking, JobEvent::Reply(reply)) => {
                match generate_emojis_from_image(reply.as_str()) {
                    Err(error) => self.give_up(JobError::Tagger(error)),
                    Ok(tags) => {
                        let sticker = Sticker::new(self.handle.unwrap(), tags);
                        let job = StickerJob {
                            path: self.path,
                            ceiling: self.ceiling,
                            stage: JobStage::Over,
                            handle: None,
                        };
                        (job, JobAction::Deliver(sticker))
                    },
                }
            },
            _ => self.give_up(JobError::OutOfTurn),
        }
    }
}

/// Begins the making of a sticker out of the image at `path`, whose encoding may have
/// `ceiling` bytes at most: the image is read first.
pub fn create_sticker(path: &str, ceiling: usize) -> (out: (StickerJob, JobAction))
    ensures
        out.0@ == first_job_state(path@, ceiling as nat),
        out.1@ == (JobActionView::Read { path: path@ }),
{
    let job = StickerJob {
        path: path.to_owned(),
        ceiling,
        stage: JobStage::Reading,
        handle: None,
    };
    (job, JobAction::Read { path: path.to_owned() })
}

} // verus!
