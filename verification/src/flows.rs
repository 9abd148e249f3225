//! The screen flows: home, review, choice and status.
//!
//! A flow is a small state machine around the bridge. Issuing a request
//! resets the decision state, marks the bridge as waiting and describes the
//! screen for the toolkit, with the callbacks to bind and the kind of wait to
//! run. When the wait has returned, the flow turns its outcome into the
//! flow's own result, or into the next screen. Displaying the screen and
//! running the wait is the caller's part.

use vstd::prelude::*;
use crate::decision::{Callback, Decision, SyncNbgl};
use crate::glyph::{IconDetails, NbglGlyph};
use crate::operation::{StatusType, ToMessage, TransactionType};
use crate::sync::{after_yield, wait_scripted, wait_step, Turn, UxSync, WaitStep};

verus! {

/// One labelled line of a review.
#[derive(Clone, Copy, Debug, PartialEq, Eq)]
pub struct Field<'a> {
    pub name: &'a str,
    pub value: &'a str,
}

/// The header of a command from the host.
#[derive(Clone, Copy, Debug, PartialEq, Eq, Structural)]
pub struct ApduHeader {
    pub cla: u8,
    pub ins: u8,
    pub p1: u8,
    pub p2: u8,
}

/// The home screen.
#[derive(Clone, Copy, Debug, PartialEq, Eq)]
pub struct HomeScreen<'a> {
    pub app_name: &'a str,
    pub version: &'a str,
    pub author: &'a str,
    pub icon: Option<IconDetails<'a>>,
}

/// A review: the operation code, the fields in the order in which they are
/// displayed, and the texts around them.
#[derive(Clone, Copy, Debug, PartialEq, Eq)]
pub struct ReviewScreen<'a> {
    pub operation_type: u32,
    pub fields: &'a [Field<'a>],
    pub icon: Option<IconDetails<'a>>,
    pub title: &'a str,
    pub subtitle: &'a str,
    pub finish_title: &'a str,
}

/// A question with two buttons.
#[derive(Clone, Copy, Debug, PartialEq, Eq)]
pub struct ChoiceScreen<'a> {
    pub icon: Option<IconDetails<'a>>,
    pub message: &'a str,
    pub sub_message: &'a str,
    pub confirm_text: &'a str,
    pub cancel_text: &'a str,
}

/// A status banner.
#[derive(Clone, Copy, Debug, PartialEq, Eq)]
pub struct StatusScreen {
    pub status_type: u8,
}

/// What the toolkit is asked to show.
#[derive(Clone, Copy, Debug, PartialEq, Eq)]
pub enum Screen<'a> {
    Home(HomeScreen<'a>),
    Review(ReviewScreen<'a>),
    Choice(ChoiceScreen<'a>),
    Status(StatusScreen),
}

/// The callbacks bound to a screen.
#[derive(Clone, Copy, Debug, PartialEq, Eq, Structural)]
pub enum Handlers {
    /// The choice callback, on both buttons.
    Choice,
    /// The quit callback.
    Quit,
}

impl Handlers {
    /// Whether `callback` is among the callbacks bound.
    pub open spec fn accepts(self, callback: Callback) -> bool {
        match self {
            Handlers::Choice => callback is Choice,
            Handlers::Quit => callback is Quit,
        }
    }

    /// Whether one of the callbacks bound records `outcome`.
    pub open spec fn records(self, outcome: SyncNbgl) -> bool {
        match self {
            Handlers::Choice => outcome == SyncNbgl::UxSyncRetApproved || outcome
                == SyncNbgl::UxSyncRetRejected,
            Handlers::Quit => outcome == SyncNbgl::UxSyncRetQuitted,
        }
    }
}

/// A display request: the screen, the callbacks to bind to it, and whether an
/// arriving command ends the wait that follows.
#[derive(Clone, Copy, Debug, PartialEq, Eq)]
pub struct DisplayRequest<'a> {
    pub screen: Screen<'a>,
    pub handlers: Handlers,
    pub exit_on_apdu: bool,
}

impl UxSync {
    /// Issues a display request: starts the wait on the bridge and packs
    /// what the toolkit is to show. A request while a flow is waiting is a
    /// programming error.
    pub fn request<'a>(
        &mut self,
        screen: Screen<'a>,
        handlers: Handlers,
        exit_on_apdu: bool,
    ) -> (request: DisplayRequest<'a>)
        requires
            !old(self).awaiting(),
        ensures
            request == (DisplayRequest { screen, handlers, exit_on_apdu }),
            final(self).decision() == Decision::reset(),
            final(self).awaiting(),
            final(self).comm_bound() == old(self).comm_bound(),
    {
        self.ux_sync_init();
        DisplayRequest { screen, handlers, exit_on_apdu }
    }

    /// Issues a display request unless a flow is waiting, in which case the
    /// request is refused and the bridge stays as it is.
    pub fn try_request<'a>(
        &mut self,
        screen: Screen<'a>,
        handlers: Handlers,
        exit_on_apdu: bool,
    ) -> (request: Option<DisplayRequest<'a>>)
        ensures
            request is Some <==> !old(self).awaiting(),
            request matches Some(issued) ==> issued == (DisplayRequest {
                screen,
                handlers,
                exit_on_apdu,
            }) && final(self).decision() == Decision::reset() && final(self).awaiting()
                && final(self).comm_bound() == old(self).comm_bound(),
            request is None ==> *final(self) == *old(self),
    {
        if self.is_awaiting() {
            None
        } else {
            Some(self.request(screen, handlers, exit_on_apdu))
        }
    }
}

/// A question with two buttons. The wait on it is not interruptible.
#[derive(Clone, Copy, Debug, PartialEq, Eq)]
pub struct NbglChoice<'a> {
    pub icon: Option<IconDetails<'a>>,
}

impl<'a> NbglChoice<'a> {
    /// A choice without an icon.
    pub fn new() -> (choice: NbglChoice<'a>)
        ensures
            choice.icon is None,
    {
        NbglChoice { icon: None }
    }

    /// The same choice with `glyph` as its icon.
    pub fn glyph(self, glyph: &NbglGlyph<'a>) -> (choice: NbglChoice<'a>)
        requires
            glyph.valid(),
        ensures
            choice.icon == Some(glyph.icon()),
    {
        NbglChoice { icon: Some(glyph.to_icon_details()) }
    }

    /// The request that `show` issues.
    pub open spec fn request(
        self,
        message: &'a str,
        sub_message: &'a str,
        confirm_text: &'a str,
        cancel_text: &'a str,
    ) -> DisplayRequest<'a> {
        DisplayRequest {
            screen: Screen::Choice(
                ChoiceScreen { icon: self.icon, message, sub_message, confirm_text, cancel_text },
            ),
            handlers: Handlers::Choice,
            exit_on_apdu: false,
        }
    }

    /// Whether the user pressed the confirm button, from the outcome of the
    /// wait.
    pub open spec fn confirmed(outcome: SyncNbgl) -> bool {
        outcome == SyncNbgl::UxSyncRetApproved
    }

    /// Issues the request for the question.
    pub fn show(
        &self,
        ux: &mut UxSync,
        message: &'a str,
        sub_message: &'a str,
        confirm_text: &'a str,
        cancel_text: &'a str,
    ) -> (request: DisplayRequest<'a>)
        requires
            !old(ux).awaiting(),
        ensures
            request == self.request(message, sub_message, confirm_text, cancel_text),
            final(ux).decision() == Decision::reset(),
            final(ux).awaiting(),
            final(ux).comm_bound() == old(ux).comm_bound(),
    {
        ux.request(
            Screen::Choice(
                ChoiceScreen { icon: self.icon, message, sub_message, confirm_text, cancel_text },
            ),
            Handlers::Choice,
            false,
        )
    }

    /// Turns the outcome of the wait into the answer: `true` exactly when
    /// the user pressed the confirm button.
    pub fn answer(outcome: SyncNbgl) -> (confirmed: bool)
        ensures
            confirmed == Self::confirmed(outcome),
    {
        outcome == SyncNbgl::UxSyncRetApproved
    }
}

/// The screens that a review goes through.
#[derive(Clone, Copy, Debug, PartialEq, Eq, Structural)]
pub enum ReviewStage {
    /// First warning of a blind review: go back to safety, or review the
    /// risk.
    BackToSafety,
    /// Second warning of a blind review: accept the risk, or reject.
    AcceptRisk,
    /// The review itself.
    Review,
}

/// What a review does next.
#[derive(Clone, Copy, Debug, PartialEq, Eq)]
pub enum ReviewStep<'a> {
    /// Show this screen, wait, and come back with the outcome.
    Show(ReviewStage, DisplayRequest<'a>),
    /// The review is over, approved or not.
    Done(bool),
}

/// What follows a stage of the blind warning, given the outcome of the wait
/// on it: the next stage, or the result of the warning.
///
/// At the first stage the confirm button goes back to safety and ends the
/// warning with `false`; anything else moves on to the second stage. At the
/// second stage the confirm button accepts the risk and ends the warning with
/// `true`; anything else ends it with `false`.
pub open spec fn blind_warning_next(stage: ReviewStage, outcome: SyncNbgl) -> Result<
    ReviewStage,
    bool,
> {
    if stage == ReviewStage::BackToSafety && !NbglChoice::confirmed(outcome) {
        Ok(ReviewStage::AcceptRisk)
    } else if stage == ReviewStage::BackToSafety {
        Err(false)
    } else {
        Err(NbglChoice::confirmed(outcome))
    }
}

/// The question asked at a stage of the blind warning. The first stage
/// carries the warning icon.
pub open spec fn blind_warning_request<'a>(
    stage: ReviewStage,
    warning: Option<IconDetails<'a>>,
) -> DisplayRequest<'a> {
    if stage == ReviewStage::BackToSafety {
        (NbglChoice { icon: warning }).request(
            "Security risk detected",
            "It may not be safe to sign this transaction. To continue, you'll need to review the risk.",
            "Back to safety",
            "Review risk",
        )
    } else {
        (NbglChoice { icon: None }).request(
            "The transaction cannot be trusted",
            "Your Ledger cannot decode this transaction. If you sign it, you could be authorizing malicious actions that can drain your wallet.\n\nLearn more: ledger.com/e8",
            "I accept the risk",
            "Reject transaction",
        )
    }
}

/// The result of the blind warning when the two questions are answered
/// with `back_to_safety` and `accept_risk`; the second question is asked only
/// if the first was not confirmed.
pub open spec fn blind_warning_result(back_to_safety: bool, accept_risk: bool) -> bool {
    !back_to_safety && accept_risk
}

/// One step of the warning shown before a transaction that the device cannot
/// decode is signed. `answered` is `None` to begin, and otherwise the stage
/// that was shown together with the outcome of the wait on it. The step
/// either issues the request for the next question or ends the warning with
/// its result.
pub fn show_blind_warning<'a>(
    ux: &mut UxSync,
    warning: Option<IconDetails<'a>>,
    answered: Option<(ReviewStage, SyncNbgl)>,
) -> (step: ReviewStep<'a>)
    requires
        !old(ux).awaiting(),
    ensures
        step == match answered {
            None => ReviewStep::Show(
                ReviewStage::BackToSafety,
                blind_warning_request(ReviewStage::BackToSafety, warning),
            ),
            Some(shown) => match blind_warning_next(shown.0, shown.1) {
                Ok(stage) => ReviewStep::Show(stage, blind_warning_request(stage, warning)),
                Err(result) => ReviewStep::Done(result),
            },
        },
        final(ux).comm_bound() == old(ux).comm_bound(),
        step is Show ==> final(ux).decision() == Decision::reset() && final(ux).awaiting(),
        step is Done ==> *final(ux) == *old(ux),
{
    match answered {
        None => {
            let request = (NbglChoice { icon: warning }).show(
                ux,
                "Security risk detected",
                "It may not be safe to sign this transaction. To continue, you'll need to review the risk.",
                "Back to safety",
                "Review risk",
            );
            ReviewStep::Show(ReviewStage::BackToSafety, request)
        },
        Some((ReviewStage::BackToSafety, outcome)) => {
            let back_to_safety = NbglChoice::answer(outcome);
            if !back_to_safety {
                let request = NbglChoice::new().show(
                    ux,
                    "The transaction cannot be trusted",
                    "Your Ledger cannot decode this transaction. If you sign it, you could be authorizing malicious actions that can drain your wallet.\n\nLearn more: ledger.com/e8",
                    "I accept the risk",
                    "Reject transaction",
                );
                ReviewStep::Show(ReviewStage::AcceptRisk, request)
            } else {
                ReviewStep::Done(false)
            }
        },
        Some((_, outcome)) => ReviewStep::Done(NbglChoice::answer(outcome)),
    }
}

/// A review of an operation: its kind, its flags, its texts and its icons. A
/// blind review consists of the blind warning, whose result is the review's;
/// any other review shows the fields and is approved or not. The wait on the
/// fields is interruptible unless the review says otherwise.
#[derive(Clone, Copy, Debug, PartialEq, Eq)]
pub struct NbglReview<'a> {
    pub tx_type: TransactionType,
    pub blind: bool,
    pub skippable: bool,
    pub exit_on_apdu: bool,
    pub icon: Option<IconDetails<'a>>,
    pub warning: Option<IconDetails<'a>>,
    pub title: &'a str,
    pub subtitle: &'a str,
    pub finish_title: &'a str,
}

impl<'a> NbglReview<'a> {
    /// A review of a transaction, neither blind nor skippable, without
    /// icons and with empty texts, that an arriving command interrupts.
    pub fn new() -> (review: NbglReview<'a>)
        ensures
            review == (NbglReview {
                tx_type: TransactionType::Transaction,
                blind: false,
                skippable: false,
                exit_on_apdu: true,
                icon: None,
                warning: None,
                title: "",
                subtitle: "",
                finish_title: "",
            }),
    {
        NbglReview {
            tx_type: TransactionType::Transaction,
            blind: false,
            skippable: false,
            exit_on_apdu: true,
            icon: None,
            warning: None,
            title: "",
            subtitle: "",
            finish_title: "",
        }
    }

    /// The same review with other texts: the title and the subtitle of its
    /// first page, and the title of its last.
    pub fn titles(self, title: &'a str, subtitle: &'a str, finish_title: &'a str) -> (review:
        NbglReview<'a>)
        ensures
            review == (NbglReview { title, subtitle, finish_title, ..self }),
    {
        NbglReview { title, subtitle, finish_title, ..self }
    }

    /// The same review of another kind of operation.
    pub fn tx_type(self, tx_type: TransactionType) -> (review: NbglReview<'a>)
        ensures
            review == (NbglReview { tx_type, ..self }),
    {
        NbglReview { tx_type, ..self }
    }

    /// The same review, blind.
    pub fn blind(self) -> (review: NbglReview<'a>)
        ensures
            review == (NbglReview { blind: true, ..self }),
    {
        NbglReview { blind: true, ..self }
    }

    /// The same review, skippable.
    pub fn skippable(self) -> (review: NbglReview<'a>)
        ensures
            review == (NbglReview { skippable: true, ..self }),
    {
        NbglReview { skippable: true, ..self }
    }

    /// The same review, with a wait that an arriving command interrupts or
    /// not.
    pub fn interruptible(self, exit_on_apdu: bool) -> (review: NbglReview<'a>)
        ensures
            review == (NbglReview { exit_on_apdu, ..self }),
    {
        NbglReview { exit_on_apdu, ..self }
    }

    /// The same review with `glyph` as its icon.
    pub fn glyph(self, glyph: &NbglGlyph<'a>) -> (review: NbglReview<'a>)
        requires
            glyph.valid(),
        ensures
            review == (NbglReview { icon: Some(glyph.icon()), ..self }),
    {
        NbglReview { icon: Some(glyph.to_icon_details()), ..self }
    }

    /// The same review with `glyph` as the icon of its blind warning.
    pub fn warning_glyph(self, glyph: &NbglGlyph<'a>) -> (review: NbglReview<'a>)
        requires
            glyph.valid(),
        ensures
            review == (NbglReview { warning: Some(glyph.icon()), ..self }),
    {
        NbglReview { warning: Some(glyph.to_icon_details()), ..self }
    }

    /// The stage with which the review begins.
    pub open spec fn first_stage(self) -> ReviewStage {
        if self.blind {
            ReviewStage::BackToSafety
        } else {
            ReviewStage::Review
        }
    }

    /// The request issued at `stage`.
    pub open spec fn request(self, stage: ReviewStage, fields: &'a [Field<'a>]) -> DisplayRequest<
        'a,
    > {
        if stage == ReviewStage::Review {
            DisplayRequest {
                screen: Screen::Review(
                    ReviewScreen {
                        operation_type: self.tx_type.operation_code(self.blind, self.skippable),
                        fields,
                        icon: self.icon,
                        title: self.title,
                        subtitle: self.subtitle,
                        finish_title: self.finish_title,
                    },
                ),
                handlers: Handlers::Choice,
                exit_on_apdu: self.exit_on_apdu,
            }
        } else {
            blind_warning_request(stage, self.warning)
        }
    }

    /// What follows `stage`, given the outcome of the wait on it: the next
    /// stage, or the result of the review. The review itself is approved
    /// exactly when the user confirmed.
    pub open spec fn next(stage: ReviewStage, outcome: SyncNbgl) -> Result<ReviewStage, bool> {
        if stage == ReviewStage::Review {
            Err(outcome == SyncNbgl::UxSyncRetApproved)
        } else {
            blind_warning_next(stage, outcome)
        }
    }

    /// Begins the review of `fields`: issues the request of the first stage.
    pub fn review_transaction(&self, ux: &mut UxSync, fields: &'a [Field<'a>]) -> (step: ReviewStep<
        'a,
    >)
        requires
            !old(ux).awaiting(),
        ensures
            step == ReviewStep::Show(self.first_stage(), self.request(self.first_stage(), fields)),
            final(ux).decision() == Decision::reset(),
            final(ux).awaiting(),
            final(ux).comm_bound() == old(ux).comm_bound(),
    {
        if self.blind {
            show_blind_warning(ux, self.warning, None)
        } else {
            let operation_type = self.tx_type.to_c_type(self.blind, self.skippable);
            let request = ux.request(
                Screen::Review(
                    ReviewScreen {
                        operation_type,
                        fields,
                        icon: self.icon,
                        title: self.title,
                        subtitle: self.subtitle,
                        finish_title: self.finish_title,
                    },
                ),
                Handlers::Choice,
                self.exit_on_apdu,
            );
            ReviewStep::Show(ReviewStage::Review, request)
        }
    }

    /// Goes on with the review after the wait on `stage` returned `outcome`:
    /// issues the request of the next stage, or ends the review with its
    /// result and leaves the bridge as it is.
    pub fn resume(
        &self,
        ux: &mut UxSync,
        stage: ReviewStage,
        outcome: SyncNbgl,
        fields: &'a [Field<'a>],
    ) -> (step: ReviewStep<'a>)
        requires
            !old(ux).awaiting(),
        ensures
            step == match Self::next(stage, outcome) {
                Ok(stage) => ReviewStep::Show(stage, self.request(stage, fields)),
                Err(result) => ReviewStep::Done(result),
            },
            final(ux).comm_bound() == old(ux).comm_bound(),
            step is Show ==> final(ux).decision() == Decision::reset() && final(ux).awaiting(),
            step is Done ==> *final(ux) == *old(ux),
    {
        match stage {
            ReviewStage::Review => ReviewStep::Done(outcome == SyncNbgl::UxSyncRetApproved),
            _ => show_blind_warning(ux, self.warning, Some((stage, outcome))),
        }
    }
}

/// What the home screen reports when its wait is over.
#[derive(Clone, Copy, Debug, PartialEq, Eq)]
pub enum Event<T, E> {
    /// A command arrived and was decoded.
    Command(T),
    /// A command arrived and the decoder refused it, with this status.
    DecodeError(E),
    /// No command arrived: the wait ended on the screen itself, with this
    /// outcome.
    Navigation(SyncNbgl),
}

/// The home screen: the name of the application, its version and author, and
/// its icon. It is the idle screen: what it waits for is a command from the
/// host, so an arriving command ends its wait; so does leaving the screen.
#[derive(Clone, Copy, Debug, PartialEq, Eq)]
pub struct NbglHome<'a> {
    pub app_name: &'a str,
    pub version: &'a str,
    pub author: &'a str,
    pub icon: Option<IconDetails<'a>>,
}

impl<'a> NbglHome<'a> {
    /// A home screen with empty texts and no icon.
    pub fn new() -> (home: NbglHome<'a>)
        ensures
            home == (NbglHome { app_name: "", version: "", author: "", icon: None }),
    {
        NbglHome { app_name: "", version: "", author: "", icon: None }
    }

    /// The same home screen under another name.
    pub fn app_name(self, app_name: &'a str) -> (home: NbglHome<'a>)
        ensures
            home == (NbglHome { app_name, ..self }),
    {
        NbglHome { app_name, ..self }
    }

    /// The same home screen with other information texts.
    pub fn info_contents(self, version: &'a str, author: &'a str) -> (home: NbglHome<'a>)
        ensures
            home == (NbglHome { version, author, ..self }),
    {
        NbglHome { version, author, ..self }
    }

    /// The same home screen with `glyph` as its icon.
    pub fn glyph(self, glyph: &NbglGlyph<'a>) -> (home: NbglHome<'a>)
        requires
            glyph.valid(),
        ensures
            home == (NbglHome { icon: Some(glyph.icon()), ..self }),
    {
        NbglHome { icon: Some(glyph.to_icon_details()), ..self }
    }

    /// The request that `show_home` issues.
    pub open spec fn request(self) -> DisplayRequest<'a> {
        DisplayRequest {
            screen: Screen::Home(
                HomeScreen {
                    app_name: self.app_name,
                    version: self.version,
                    author: self.author,
                    icon: self.icon,
                },
            ),
            handlers: Handlers::Quit,
            exit_on_apdu: true,
        }
    }

    /// Issues the request for the home screen.
    pub fn show_home(&self, ux: &mut UxSync) -> (request: DisplayRequest<'a>)
        requires
            !old(ux).awaiting(),
        ensures
            request == self.request(),
            final(ux).decision() == Decision::reset(),
            final(ux).awaiting(),
            final(ux).comm_bound() == old(ux).comm_bound(),
    {
        ux.request(
            Screen::Home(
                HomeScreen {
                    app_name: self.app_name,
                    version: self.version,
                    author: self.author,
                    icon: self.icon,
                },
            ),
            Handlers::Quit,
            true,
        )
    }

    /// Turns the outcome of the wait into the event that the home screen
    /// reports. `header` is the header of the command at the head of the
    /// channel; it is handed to `decode` exactly when the wait ended on an
    /// arrived command, and what `decode` makes of it is reported as it is: a
    /// command, or the decoder's refusal. Any other outcome is reported as
    /// navigation, and `decode` is not called.
    pub fn event<T, E, F: FnOnce(ApduHeader) -> Result<T, E>>(
        outcome: SyncNbgl,
        header: ApduHeader,
        decode: F,
    ) -> (event: Event<T, E>)
        requires
            outcome == SyncNbgl::UxSyncRetApduReceived ==> decode.requires((header,)),
        ensures
            match event {
                Event::Command(command) => outcome == SyncNbgl::UxSyncRetApduReceived
                    && decode.ensures((header,), Ok(command)),
                Event::DecodeError(status) => outcome == SyncNbgl::UxSyncRetApduReceived
                    && decode.ensures((header,), Err(status)),
                Event::Navigation(signal) => outcome != SyncNbgl::UxSyncRetApduReceived && signal
                    == outcome,
            },
    {
        if outcome == SyncNbgl::UxSyncRetApduReceived {
            match decode(header) {
                Ok(command) => Event::Command(command),
                Err(status) => Event::DecodeError(status),
            }
        } else {
            Event::Navigation(outcome)
        }
    }
}

/// The banner that closes a review or an address check. It asks nothing: the
/// flow is over when the wait on it returns, whatever the outcome. The wait
/// is not interruptible.
#[derive(Clone, Copy, Debug, PartialEq, Eq)]
pub struct NbglReviewStatus {
    pub status_type: StatusType,
}

impl NbglReviewStatus {
    /// A banner on a transaction.
    pub fn new() -> (status: NbglReviewStatus)
        ensures
            status.status_type == StatusType::Transaction,
    {
        NbglReviewStatus { status_type: StatusType::Transaction }
    }

    /// A banner on another subject.
    pub fn status_type(self, status_type: StatusType) -> (status: NbglReviewStatus)
        ensures
            status.status_type == status_type,
    {
        NbglReviewStatus { status_type }
    }

    /// The request that `show` issues.
    pub open spec fn request(self, success: bool) -> DisplayRequest<'static> {
        DisplayRequest {
            screen: Screen::Status(
                StatusScreen { status_type: self.status_type.status_code(success) },
            ),
            handlers: Handlers::Quit,
            exit_on_apdu: false,
        }
    }

    /// Issues the request for the banner: signed or verified when `success`
    /// holds, rejected otherwise.
    pub fn show(&self, ux: &mut UxSync, success: bool) -> (request: DisplayRequest<'static>)
        requires
            !old(ux).awaiting(),
        ensures
            request == self.request(success),
            final(ux).decision() == Decision::reset(),
            final(ux).awaiting(),
            final(ux).comm_bound() == old(ux).comm_bound(),
    {
        let status_type = self.status_type.to_message(success);
        ux.request(Screen::Status(StatusScreen { status_type }), Handlers::Quit, false)
    }
}

/// Whether the toolkit, in `turns`, invokes only callbacks that are bound.
pub open spec fn invokes_only(handlers: Handlers, turns: Seq<Turn>) -> bool {
    forall|j: int|
        0 <= j < turns.len() ==> ((#[trigger] turns[j]).callback matches Some(callback)
            ==> handlers.accepts(callback))
}

proof fn lemma_wait_outcome_from(
    decision: Decision,
    handlers: Handlers,
    exit_on_apdu: bool,
    turns: Seq<Turn>,
)
    requires
        invokes_only(handlers, turns),
        decision.pending() matches Some(outcome) ==> handlers.records(outcome),
    ensures
        wait_scripted(decision, exit_on_apdu, turns).0 matches Some(outcome) ==> (exit_on_apdu
            && outcome == SyncNbgl::UxSyncRetApduReceived) || handlers.records(outcome),
    decreases turns.len(),
{
    if turns.len() > 0 && wait_step(decision, exit_on_apdu, turns[0].apdu_received)
        == WaitStep::Yield {
        let rest = turns.skip(1);
        assert forall|j: int| 0 <= j < rest.len() implies ((#[trigger] rest[j]).callback matches Some(
            callback,
        ) ==> handlers.accepts(callback)) by {
            assert(rest[j] == turns[j + 1]);
        }
        lemma_wait_outcome_from(after_yield(decision, turns[0]), handlers, exit_on_apdu, rest);
    }
}

/// The wait that follows a request returns only what the request allows: the
/// outcome of a callback that was bound, or an arrived command if the wait
/// is interruptible, as long as the toolkit invokes no other callback.
pub proof fn lemma_wait_outcome_bound(request: DisplayRequest, turns: Seq<Turn>)
    requires
        invokes_only(request.handlers, turns),
    ensures
        wait_scripted(Decision::reset(), request.exit_on_apdu, turns).0 matches Some(outcome) ==> (
        request.exit_on_apdu && outcome == SyncNbgl::UxSyncRetApduReceived)
            || request.handlers.records(outcome),
{
    lemma_wait_outcome_from(Decision::reset(), request.handlers, request.exit_on_apdu, turns);
}

/// The blind warning asks at most two questions and never leads to the
/// review of the fields. Going back to safety at the first question ends it
/// with `false` without the second being asked; otherwise its result is
/// whether the risk was accepted at the second.
pub proof fn lemma_blind_warning(first: SyncNbgl, second: SyncNbgl)
    ensures
        NbglChoice::confirmed(first) ==> blind_warning_next(ReviewStage::BackToSafety, first)
            == Err::<ReviewStage, bool>(false),
        !NbglChoice::confirmed(first) ==> blind_warning_next(ReviewStage::BackToSafety, first)
            == Ok::<ReviewStage, bool>(ReviewStage::AcceptRisk),
        blind_warning_next(ReviewStage::AcceptRisk, second) == Err::<ReviewStage, bool>(
            blind_warning_result(false, NbglChoice::confirmed(second)),
        ),
        blind_warning_result(true, NbglChoice::confirmed(second)) == false,
{
}

} // verus!
