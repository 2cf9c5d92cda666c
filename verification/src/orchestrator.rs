//! The batch assembly orchestrator: the state machine that turns a board into a sticker
//! set.
//!
//! A [`Run`] never acts by itself. Each step hands the driver one [`Action`] to perform
//! (ask the fetcher, show progress, make one sticker, call the platform) and takes the
//! [`Event`] that came of it. What a step does is [`next`], a function of the run's state
//! and the event alone, so every property of a run can be read off that function.
//!
//! A run goes through `Validating`, `InitialBatch`, `Created` and `IncrementalBatch` to
//! `Complete`; `Failed` is reached from anywhere before the end.

use vstd::prelude::*;
use crate::error::ErrorKind;
use crate::stickers::{Sticker, StickerContent, SET_ADDRESS};
use crate::text::{decimal, push_decimal, string_texts};

verus! {

/// The most images that a board may report.
pub const MAX_IMAGES: usize = 120;

/// The most stickers that go into the call that creates the set.
pub const FIRST_BATCH: usize = 50;

/// The time that one image is expected to take, in seconds: the tagging service's
/// interval.
pub const SECONDS_PER_IMAGE: u128 = 4;

/// What the requester is told about a board over the ceiling.
pub const REJECT_NOTICE: &'static str = "Too many images! Please limit to 120 or fewer.";

/// What the requester is told while the board is downloaded.
pub const DOWNLOAD_NOTICE: &'static str = "Downloading images...";

/// What the requester is told about a run that failed.
pub const FAILURE_NOTICE: &'static str = "Failed to create sticker set";

/// The states of a run.
#[derive(Debug, Clone, Copy, PartialEq, Eq, Structural)]
pub enum Phase {
    /// The board is looked at, and downloaded if it is small enough.
    Validating,
    /// The first images are made into stickers, for the call that creates the set.
    InitialBatch,
    /// The set exists. A run passes through this state within one step.
    Created,
    /// The remaining images are made into stickers and added one by one.
    IncrementalBatch,
    /// Every image was handled and the set is reported.
    Complete,
    /// The run was given up.
    Failed,
}

/// What a run waits for.
#[derive(Debug, Clone, Copy, PartialEq, Eq, Structural)]
pub enum Pending {
    /// The number of images that the board reports.
    Count,
    /// The end of the download.
    Download,
    /// The staged images and the set's name.
    Listing,
    /// The progress notice to be shown.
    Progress,
    /// The sticker of the current image.
    Sticker,
    /// The platform's answer to the creation of the set.
    Creation,
    /// The platform's answer to the addition of a sticker.
    Addition,
    /// Nothing: the run is over.
    Nothing,
}

/// Why a run failed.
#[derive(Debug, Clone, Copy, PartialEq, Eq, Structural)]
pub enum RunError {
    /// The board reports more images than the ceiling allows.
    TooManyImages,
    /// No image of the first batch could be made into a sticker.
    NoValidStickers,
    /// The driver reported a failure of this family.
    Stage(ErrorKind),
    /// The driver answered with something that the run did not wait for.
    OutOfTurn,
}

impl RunError {
    /// The family of the failure.
    pub open spec fn spec_kind(&self) -> ErrorKind {
        match self {
            RunError::Stage(kind) => *kind,
            _ => ErrorKind::Validation,
        }
    }

    /// The family of the failure: that of the stage that failed, and a validation error
    /// for everything that the run itself refuses.
    pub fn kind(&self) -> (kind: ErrorKind)
        ensures
            kind == self.spec_kind(),
    {
        match self {
            RunError::Stage(kind) => *kind,
            _ => ErrorKind::Validation,
        }
    }
}

/// What the driver is to do next.
#[derive(Debug, Clone, PartialEq, Eq)]
pub enum Action {
    /// Look the board up and count its images; answer with [`Event::Counted`].
    Count,
    /// Tell the requester that the board is too large. The run is over.
    Reject { notice: String },
    /// Show the notice and download the board; answer with [`Event::Done`].
    Download { notice: String },
    /// List the staged images and resolve the set's name; answer with [`Event::Fetched`].
    Prepare,
    /// Show the progress notice; answer with [`Event::Done`].
    Progress { notice: String },
    /// Make the image at `path` into a sticker; answer with [`Event::Sticker`] or
    /// [`Event::ImageFailed`].
    Process { index: usize, path: String },
    /// Create the set with these stickers; answer with [`Event::Done`].
    CreateSet { name: String, title: String, stickers: Vec<Sticker> },
    /// Add the sticker to the set; answer with [`Event::Done`].
    AddSticker { name: String, sticker: Sticker },
    /// Tell the requester where the finished set is. The run is over.
    Report { notice: String, address: String },
    /// Remove the staged images if `cleanup` says so, then pass the error on with the
    /// notice for the requester. The run is over.
    Abort { cleanup: bool, error: RunError, notice: String },
    /// Nothing: the run was over before.
    Idle,
}

/// What came of an action.
#[derive(Debug, Clone, PartialEq, Eq)]
pub enum Event {
    /// The board reports this many images.
    Counted(usize),
    /// The staged images, in the order in which they go into the set, and the set's name.
    Fetched { paths: Vec<String>, set_name: String },
    /// The action was carried out.
    Done,
    /// The image was made into this sticker.
    Sticker(Sticker),
    /// The image could not be made into a sticker.
    ImageFailed(ErrorKind),
    /// The action failed.
    Failed(ErrorKind),
}

// ---------------------------------------------------------------------------------------
// The model
// ---------------------------------------------------------------------------------------
/// An [`Action`] as plain values.
pub enum ActionView {
    Count,
    Reject { notice: Seq<char> },
    Download { notice: Seq<char> },
    Prepare,
    Progress { notice: Seq<char> },
    Process { index: nat, path: Seq<char> },
    CreateSet { name: Seq<char>, title: Seq<char>, stickers: Seq<StickerContent> },
    AddSticker { name: Seq<char>, sticker: StickerContent },
    Report { notice: Seq<char>, address: Seq<char> },
    Abort { cleanup: bool, error: RunError, notice: Seq<char> },
    Idle,
}

/// An [`Event`] as plain values.
pub enum EventView {
    Counted(nat),
    Fetched { paths: Seq<Seq<char>>, set_name: Seq<char> },
    Done,
    Sticker(StickerContent),
    ImageFailed(ErrorKind),
    Failed(ErrorKind),
}

/// What each of a run of stickers says.
pub open spec fn sticker_contents(stickers: Seq<Sticker>) -> Seq<StickerContent> {
    stickers.map_values(|s: Sticker| s@)
}

impl View for Action {
    type V = ActionView;

    open spec fn view(&self) -> ActionView {
        match self {
            Action::Count => ActionView::Count,
            Action::Reject { notice } => ActionView::Reject { notice: notice@ },
            Action::Download { notice } => ActionView::Download { notice: notice@ },
            Action::Prepare => ActionView::Prepare,
            Action::Progress { notice } => ActionView::Progress { notice: notice@ },
            Action::Process { index, path } => ActionView::Process {
                index: *index as nat,
                path: path@,
            },
            Action::CreateSet { name, title, stickers } => ActionView::CreateSet {
                name: name@,
                title: title@,
                stickers: sticker_contents(stickers@),
            },
            Action::AddSticker { name, sticker } => ActionView::AddSticker {
                name: name@,
                sticker: sticker@,
            },
            Action::Report { notice, address } => ActionView::Report {
                notice: notice@,
                address: address@,
            },
            Action::Abort { cleanup, error, notice } => ActionView::Abort {
                cleanup: *cleanup,
                error: *error,
                notice: notice@,
            },
            Action::Idle => ActionView::Idle,
        }
    }
}

impl View for Event {
    type V = EventView;

    open spec fn view(&self) -> EventView {
        match self {
            Event::Counted(count) => EventView::Counted(*count as nat),
            Event::Fetched { paths, set_name } => EventView::Fetched {
                paths: string_texts(paths@),
                set_name: set_name@,
            },
            Event::Done => EventView::Done,
            Event::Sticker(sticker) => EventView::Sticker(sticker@),
            Event::ImageFailed(kind) => EventView::ImageFailed(*kind),
            Event::Failed(kind) => EventView::Failed(*kind),
        }
    }
}

/// The state of a run as plain values.
pub struct RunState {
    /// The state of the machine.
    pub phase: Phase,
    /// What the run waits for.
    pub pending: Pending,
    /// The name of the set; empty until it is resolved.
    pub set_name: Seq<char>,
    /// The images of the board, in order; empty until they are listed.
    pub paths: Seq<Seq<char>>,
    /// How many images were dealt with: the position of the next one.
    pub processed: nat,
    /// The stickers of the first batch that wait for the set to be created.
    pub batch: Seq<StickerContent>,
    /// Whether images were staged on this machine, so that a failure has to remove them.
    pub staged: bool,
    /// Why the run failed, once it has.
    pub error: Option<RunError>,
}

impl RunState {
    /// The number of images of the first batch: all of them, up to [`FIRST_BATCH`].
    pub open spec fn first_batch(self) -> nat {
        if self.paths.len() < FIRST_BATCH {
            self.paths.len()
        } else {
            FIRST_BATCH as nat
        }
    }

    /// What holds of every state that a run can be in.
    pub open spec fn valid(self) -> bool {
        &&& self.processed <= self.paths.len()
        &&& self.batch.len() <= self.processed
        &&& self.batch.len() <= FIRST_BATCH
        &&& match self.phase {
            Phase::Validating => {
                &&& self.pending is Count || self.pending is Download || self.pending is Listing
                &&& self.paths.len() == 0
                &&& self.staged == (self.pending is Listing)
            },
            Phase::InitialBatch => {
                &&& self.staged
                &&& match self.pending {
                    Pending::Progress | Pending::Sticker => self.processed < self.first_batch(),
                    Pending::Creation => self.processed == self.first_batch() && self.batch.len()
                        == 0,
                    _ => false,
                }
            },
            Phase::Created => false,
            Phase::IncrementalBatch => {
                &&& self.staged
                &&& self.batch.len() == 0
                &&& self.processed >= FIRST_BATCH
                &&& match self.pending {
                    Pending::Progress | Pending::Sticker => self.processed < self.paths.len(),
                    Pending::Addition => self.processed > FIRST_BATCH,
                    _ => false,
                }
            },
            Phase::Complete => {
                &&& self.staged
                &&& self.pending is Nothing
                &&& self.processed == self.paths.len()
                &&& self.batch.len() == 0
            },
            Phase::Failed => self.pending is Nothing,
        }
        &&& (self.error is Some <==> self.phase is Failed)
    }

    /// Whether the run is over.
    pub open spec fn ended(self) -> bool {
        self.phase is Complete || self.phase is Failed
    }
}

/// The state in which a whole run begins: nothing known, waiting for the board's count.
pub open spec fn first_state() -> RunState {
    RunState {
        phase: Phase::Validating,
        pending: Pending::Count,
        set_name: Seq::empty(),
        paths: Seq::empty(),
        processed: 0,
        batch: Seq::empty(),
        staged: false,
        error: None,
    }
}

/// The progress notice for the image at position `processed`, counted from one, of
/// `total`: the time left is four seconds for every image after this one.
pub open spec fn progress_notice(processed: nat, total: nat) -> Seq<char> {
    "Processing "@ + decimal(processed) + "/"@ + decimal(total) + " stickers...\n\u{23f3} ~"@
        + decimal(((total - processed) * SECONDS_PER_IMAGE) as nat) + "s remaining"@
}

/// The address at which the platform shows a set.
pub open spec fn set_address(set_name: Seq<char>) -> Seq<char> {
    SET_ADDRESS@ + set_name
}

/// What the requester is told about a finished set.
pub open spec fn completion_notice(set_name: Seq<char>) -> Seq<char> {
    "Sticker set created: "@ + set_address(set_name)
}

/// Giving a run up: the staged images are removed if there are any, and the error is
/// passed on.
pub open spec fn abort(s: RunState, error: RunError) -> (RunState, ActionView) {
    (
        RunState { phase: Phase::Failed, pending: Pending::Nothing, error: Some(error), ..s },
        ActionView::Abort { cleanup: s.staged, error, notice: FAILURE_NOTICE@ },
    )
}

/// Turning to the next image: its progress notice comes first.
pub open spec fn announce(s: RunState) -> (RunState, ActionView) {
    (
        RunState { pending: Pending::Progress, ..s },
        ActionView::Progress { notice: progress_notice(s.processed + 1, s.paths.len()) },
    )
}

/// The end of a run that went well.
pub open spec fn complete(s: RunState) -> (RunState, ActionView) {
    (
        RunState { phase: Phase::Complete, pending: Pending::Nothing, ..s },
        ActionView::Report {
            notice: completion_notice(s.set_name),
            address: set_address(s.set_name),
        },
    )
}

/// Going on in the first batch: the next image if the batch has one; else the creation
/// of the set with the stickers made so far; and the end of the run if there is none.
pub open spec fn continue_initial(s: RunState) -> (RunState, ActionView) {
    if s.processed < s.first_batch() {
        announce(s)
    } else if s.batch.len() == 0 {
        abort(s, RunError::NoValidStickers)
    } else {
        (
            RunState { pending: Pending::Creation, batch: Seq::empty(), ..s },
            ActionView::CreateSet { name: s.set_name, title: s.set_name, stickers: s.batch },
        )
    }
}

/// Leaving `Created`, which a run does at once: on to the remaining images if the board
/// has more than the first batch, and to the end otherwise.
pub open spec fn leave_created(s: RunState) -> (RunState, ActionView) {
    if s.paths.len() > FIRST_BATCH {
        announce(RunState { phase: Phase::IncrementalBatch, ..s })
    } else {
        complete(s)
    }
}

/// Going on after a sticker was added: the next image, or the end.
pub open spec fn continue_incremental(s: RunState) -> (RunState, ActionView) {
    if s.processed < s.paths.len() {
        announce(s)
    } else {
        complete(s)
    }
}

/// One step of a run: the state after the event, and what the driver is to do next.
///
/// A run that is over stays as it is. A failure that the driver reports ends the run,
/// and so does an event that the run did not wait for. A board over the ceiling is
/// refused before anything is downloaded. An image of the first batch that cannot be
/// made into a sticker is passed over; one of the remaining images ends the run.
pub open spec fn next(s: RunState, e: EventView) -> (RunState, ActionView) {
    if s.ended() {
        (s, ActionView::Idle)
    } else {
        match (s.pending, e) {
            (_, EventView::Failed(kind)) => abort(s, RunError::Stage(kind)),
            (Pending::Count, EventView::Counted(count)) => if count > MAX_IMAGES {
                (
                    RunState {
                        phase: Phase::Failed,
                        pending: Pending::Nothing,
                        error: Some(RunError::TooManyImages),
                        ..s
                    },
                    ActionView::Reject { notice: REJECT_NOTICE@ },
                )
            } else {
                (
                    RunState { pending: Pending::Download, ..s },
                    ActionView::Download { notice: DOWNLOAD_NOTICE@ },
                )
            },
            (Pending::Download, EventView::Done) => (
                RunState { pending: Pending::Listing, staged: true, ..s },
                ActionView::Prepare,
            ),
            (Pending::Listing, EventView::Fetched { paths, set_name }) => continue_initial(
                RunState { phase: Phase::InitialBatch, paths, set_name, ..s },
            ),
            (Pending::Progress, EventView::Done) => (
                RunState { pending: Pending::Sticker, ..s },
                ActionView::Process { index: s.processed, path: s.paths[s.processed as int] },
            ),
            (Pending::Sticker, EventView::Sticker(sticker)) => if s.phase is InitialBatch {
                continue_initial(
                    RunState { processed: s.processed + 1, batch: s.batch.push(sticker), ..s },
                )
            } else {
                (
                    RunState { pending: Pending::Addition, processed: s.processed + 1, ..s },
                    ActionView::AddSticker { name: s.set_name, sticker },
                )
            },
            (Pending::Sticker, EventView::ImageFailed(kind)) => if s.phase is InitialBatch {
                continue_initial(RunState { processed: s.processed + 1, ..s })
            } else {
                abort(s, RunError::Stage(kind))
            },
            (Pending::Creation, EventView::Done) => leave_created(
                RunState { phase: Phase::Created, ..s },
            ),
            (Pending::Addition, EventView::Done) => continue_incremental(s),
            _ => abort(s, RunError::OutOfTurn),
        }
    }
}

/// The state in which the assembly of a set begins when the images are staged and the
/// name is resolved, and the first thing to do.
pub open spec fn assembly(set_name: Seq<char>, paths: Seq<Seq<char>>) -> (RunState, ActionView) {
    continue_initial(
        RunState { phase: Phase::InitialBatch, set_name, paths, staged: true, ..first_state() },
    )
}

/// Every step keeps a run in a state that it can be in.
pub proof fn lemma_next_valid(s: RunState, e: EventView)
    requires
        s.valid(),
    ensures
        next(s, e).0.valid(),
{
}

/// The assembly of a set begins in a state that a run can be in.
pub proof fn lemma_assembly_valid(set_name: Seq<char>, paths: Seq<Seq<char>>)
    ensures
        assembly(set_name, paths).0.valid(),
{
}

// ---------------------------------------------------------------------------------------
// The machine
// ---------------------------------------------------------------------------------------
/// One run of the orchestrator.
pub struct Run {
    phase: Phase,
    pending: Pending,
    set_name: String,
    paths: Vec<String>,
    processed: usize,
    batch: Vec<Sticker>,
    staged: bool,
    error: Option<RunError>,
}

impl View for Run {
    type V = RunState;

    closed spec fn view(&self) -> RunState {
        RunState {
            phase: self.phase,
            pending: self.pending,
            set_name: self.set_name@,
            paths: string_texts(self.paths@),
            processed: self.processed as nat,
            batch: sticker_contents(self.batch@),
            staged: self.staged,
            error: self.error,
        }
    }
}

/// The progress notice for the image at position `processed` of `total`.
pub fn progress_text(processed: usize, total: usize) -> (notice: String)
    requires
        processed <= total,
    ensures
        notice@ == progress_notice(processed as nat, total as nat),
{
    let mut notice = "Processing ".to_owned();
    push_decimal(&mut notice, processed as u128);
    notice.append("/");
    push_decimal(&mut notice, total as u128);
    notice.append(" stickers...\n\u{23f3} ~");
    let left: u128 = (total - processed) as u128 * SECONDS_PER_IMAGE;
    push_decimal(&mut notice, left);
    notice.append("s remaining");
    notice
}

/// The address at which the platform shows the set `set_name`.
fn address_text(set_name: &String) -> (address: String)
    ensures
        address@ == set_address(set_name@),
{
    let mut address = SET_ADDRESS.to_owned();
    address.append(set_name.as_str());
    address
}

/// What the requester is told about the finished set `set_name`.
fn completion_text(set_name: &String) -> (notice: String)
    ensures
        notice@ == completion_notice(set_name@),
{
    let mut notice = "Sticker set created: ".to_owned();
    let address = address_text(set_name);
    notice.append(address.as_str());
    notice
}

impl Run {
    #[verifier::type_invariant]
    closed spec fn well_formed(&self) -> bool {
        self@.valid()
    }

    /// Gives the run up.
    fn abort(self, error: RunError) -> (out: (Run, Action))
        requires
            !self@.ended(),
        ensures
            (out.0@, out.1@) == abort(self@, error),
    {
        proof {
            use_type_invariant(&self);
        }
        let cleanup = self.staged;
        let run = Run {
            phase: Phase::Failed,
            pending: Pending::Nothing,
            set_name: self.set_name,
            paths: self.paths,
            processed: self.processed,
            batch: self.batch,
            staged: self.staged,
            error: Some(error),
        };
        (run, Action::Abort { cleanup, error, notice: FAILURE_NOTICE.to_owned() })
    }

    /// Turns to the next image.
    fn announce(
        phase: Phase,
        set_name: String,
        paths: Vec<String>,
        processed: usize,
        batch: Vec<Sticker>,
    ) -> (out: (Run, Action))
        requires
            ({
                let s = RunState {
                    phase,
                    pending: Pending::Progress,
                    set_name: set_name@,
                    paths: string_texts(paths@),
                    processed: processed as nat,
                    batch: sticker_contents(batch@),
                    staged: true,
                    error: None,
                };
                s.valid()
            }),
        ensures
            (out.0@, out.1@) == announce(
                RunState {
                    phase,
                    pending: Pending::Progress,
                    set_name: set_name@,
                    paths: string_texts(paths@),
                    processed: processed as nat,
                    batch: sticker_contents(batch@),
                    staged: true,
                    error: None,
                },
            ),
    {
        assert(processed < paths.len());
        let notice = progress_text(processed + 1, paths.len());
        let run = Run {
            phase,
            pending: Pending::Progress,
            set_name,
            paths,
            processed,
            batch,
            staged: true,
            error: None,
        };
        (run, Action::Progress { notice })
    }

    /// Ends the run well.
    fn complete(set_name: String, paths: Vec<String>, processed: usize) -> (out: (Run, Action))
        requires
            processed == paths.len(),
        ensures
            (out.0@, out.1@) == complete(
                RunState {
                    phase: Phase::Complete,
                    pending: Pending::Nothing,
                    set_name: set_name@,
                    paths: string_texts(paths@),
                    processed: processed as nat,
                    batch: Seq::empty(),
                    staged: true,
                    error: None,
                },
            ),
    {
        let notice = completion_text(&set_name);
        let address = address_text(&set_name);
        let batch: Vec<Sticker> = Vec::new();
        assert(sticker_contents(batch@) =~= Seq::<StickerContent>::empty());
        let run = Run {
            phase: Phase::Complete,
            pending: Pending::Nothing,
            set_name,
            paths,
            processed,
            batch,
            staged: true,
            error: None,
        };
        (run, Action::Report { notice, address })
    }

    /// Goes on in the first batch.
    fn continue_initial(
        set_name: String,
        paths: Vec<String>,
        processed: usize,
        batch: Vec<Sticker>,
    ) -> (out: (Run, Action))
        requires
            processed <= paths.len(),
            processed <= FIRST_BATCH,
            batch.len() <= processed,
        ensures
            (out.0@, out.1@) == continue_initial(
                RunState {
                    phase: Phase::InitialBatch,
                    pending: Pending::Progress,
                    set_name: set_name@,
                    paths: string_texts(paths@),
                    processed: processed as nat,
                    batch: sticker_contents(batch@),
                    staged: true,
                    error: None,
                },
            ),
    {
        let first_batch = if paths.len() < FIRST_BATCH {
            paths.len()
        } else {
            FIRST_BATCH
        };
        if processed < first_batch {
            Run::announce(Phase::InitialBatch, set_name, paths, processed, batch)
        } else if batch.len() == 0 {
            let run = Run {
                phase: Phase::Failed,
                pending: Pending::Nothing,
                set_name,
                paths,
                processed,
                batch,
                staged: true,
                error: Some(RunError::NoValidStickers),
            };
            (
                run,
                Action::Abort {
                    cleanup: true,
                    error: RunError::NoValidStickers,
                    notice: FAILURE_NOTICE.to_owned(),
                },
            )
        } else {
            let name = set_name.clone();
            let title = set_name.clone();
            let none: Vec<Sticker> = Vec::new();
            assert(sticker_contents(none@) =~= Seq::<StickerContent>::empty());
            let run = Run {
                phase: Phase::InitialBatch,
                pending: Pending::Creation,
                set_name,
                paths,
                processed,
                batch: none,
                staged: true,
                error: None,
            };
            (run, Action::CreateSet { name, title, stickers: batch })
        }
    }

    /// The state of the machine.
    pub fn phase(&self) -> (phase: Phase)
        ensures
            phase == self@.phase,
    {
        self.phase
    }

    /// What the run waits for.
    pub fn pending(&self) -> (pending: Pending)
        ensures
            pending == self@.pending,
    {
        self.pending
    }

    /// Why the run failed, once it has.
    pub fn error(&self) -> (error: Option<RunError>)
        ensures
            error == self@.error,
    {
        self.error
    }

    /// How many images were dealt with.
    pub fn processed(&self) -> (processed: usize)
        ensures
            processed == self@.processed,
    {
        self.processed
    }

    /// How many images the board has, once they are listed.
    pub fn total(&self) -> (total: usize)
        ensures
            total == self@.paths.len(),
    {
        self.paths.len()
    }

    /// Takes one step: [`next`] of the run's state and the event.
    pub fn step(self, event: Event) -> (out: (Run, Action))
        ensures
            (out.0@, out.1@) == next(self@, event@),
            out.0@.valid(),
    {
        proof {
            use_type_invariant(&self);
            lemma_next_valid(self@, event@);
        }
        if matches!(self.phase, Phase::Complete | Phase::Failed) {
            return (self, Action::Idle);
        }
        match (self.pending, event) {
            (_, Event::Failed(kind)) => self.abort(RunError::Stage(kind)),
            (Pending::Count, Event::Counted(count)) => {
                if count > MAX_IMAGES {
                    let run = Run {
                        phase: Phase::Failed,
                        pending: Pending::Nothing,
                        set_name: self.set_name,
                        paths: self.paths,
                        processed: self.processed,
                        batch: self.batch,
                        staged: self.staged,
                        error: Some(RunError::TooManyImages),
                    };
                    (run, Action::Reject { notice: REJECT_NOTICE.to_owned() })
                } else {
                    let run = Run {
                        phase: self.phase,
                        pending: Pending::Download,
                        set_name: self.set_name,
                        paths: self.paths,
                        processed: self.processed,
                        batch: self.batch,
                        staged: self.staged,
                        error: self.error,
                    };
                    (run, Action::Download { notice: DOWNLOAD_NOTICE.to_owned() })
                }
            },
            (Pending::Download, Event::Done) => {
                let run = Run {
                    phase: self.phase,
                    pending: Pending::Listing,
                    set_name: self.set_name,
                    paths: self.paths,
                    processed: self.processed,
                    batch: self.batch,
                    staged: true,
                    error: self.error,
                };
                (run, Action::Prepare)
            },
            (Pending::Listing, Event::Fetched { paths, set_name }) => {
                Run::continue_initial(set_name, paths, 0, self.batch)
            },
            (Pending::Progress, Event::Done) => {
                let index = self.processed;
                let path = self.paths[index].clone();
                let run = Run {
                    phase: self.phase,
                    pending: Pending::Sticker,
                    set_name: self.set_name,
                    paths: self.paths,
                    processed: self.processed,
                    batch: self.batch,
                    staged: self.staged,
                    error: self.error,
                };
                (run, Action::Process { index, path })
            },
            (Pending::Sticker, Event::Sticker(sticker)) => {
                if matches!(self.phase, Phase::InitialBatch) {
                    let mut batch = self.batch;
                    let ghost before = sticker_contents(batch@);
                    batch.push(sticker);
                    assert(sticker_contents(batch@) =~= before.push(sticker@));
                    Run::continue_initial(self.set_name, self.paths, self.processed + 1, batch)
                } else {
                    let name = self.set_name.clone();
                    let run = Run {
                        phase: self.phase,
                        pending: Pending::Addition,
                        set_name: self.set_name,
                        paths: self.paths,
                        processed: self.processed + 1,
                        batch: self.batch,
                        staged: self.staged,
                        error: self.error,
                    };
                    (run, Action::AddSticker { name, sticker })
                }
            },
            (Pending::Sticker, Event::ImageFailed(kind)) => {
                if matches!(self.phase, Phase::InitialBatch) {
                    Run::continue_initial(
                        self.set_name,
                        self.paths,
                        self.processed + 1,
                        self.batch,
                    )
                } else {
                    self.abort(RunError::Stage(kind))
                }
            },
            (Pending::Creation, Event::Done) => {
                if self.paths.len() > FIRST_BATCH {
                    Run::announce(
                        Phase::IncrementalBatch,
                        self.set_name,
                        self.paths,
                        self.processed,
                        self.batch,
                    )
                } else {
                    assert(sticker_contents(self.batch@) =~= Seq::<StickerContent>::empty());
                    Run::complete(self.set_name, self.paths, self.processed)
                }
            },
            (Pending::Addition, Event::Done) => {
                if self.processed < self.paths.len() {
                    Run::announce(
                        Phase::IncrementalBatch,
                        self.set_name,
                        self.paths,
                        self.processed,
                        self.batch,
                    )
                } else {
                    assert(sticker_contents(self.batch@) =~= Seq::<StickerContent>::empty());
                    Run::complete(self.set_name, self.paths, self.processed)
                }
            },
            _ => self.abort(RunError::OutOfTurn),
        }
    }
}

/// Begins a whole run for a board: the board is counted first.
pub fn handle_create_set() -> (out: (Run, Action))
    ensures
        out.0@ == first_state(),
        out.1@ == ActionView::Count,
{
    let paths: Vec<String> = Vec::new();
    let batch: Vec<Sticker> = Vec::new();
    assert(string_texts(paths@) =~= Seq::<Seq<char>>::empty());
    assert(sticker_contents(batch@) =~= Seq::<StickerContent>::empty());
    let run = Run {
        phase: Phase::Validating,
        pending: Pending::Count,
        set_name: String::new(),
        paths,
        processed: 0,
        batch,
        staged: false,
        error: None,
    };
    (run, Action::Count)
}

/// Begins the assembly of the set `sticker_set_name` out of images that are staged
/// already, in the order of `image_paths`.
pub fn create_sticker_set(sticker_set_name: &String, image_paths: &Vec<String>) -> (out: (
    Run,
    Action,
))
    ensures
        (out.0@, out.1@) == assembly(sticker_set_name@, string_texts(image_paths@)),
{
    let set_name = sticker_set_name.clone();
    let mut paths: Vec<String> = Vec::new();
    let mut i: usize = 0;
    while i < image_paths.len()
        invariant
            i <= image_paths.len(),
            paths.len() == i,
            forall|j: int| 0 <= j < i ==> paths@[j]@ == image_paths@[j]@,
        decreases image_paths.len() - i,
    {
        paths.push(image_paths[i].clone());
        i += 1;
    }
    assert(string_texts(paths@) =~= string_texts(image_paths@));
    let batch: Vec<Sticker> = Vec::new();
    assert(sticker_contents(batch@) =~= Seq::<StickerContent>::empty());
    Run::continue_initial(set_name, paths, 0, batch)
}

} // verus!
