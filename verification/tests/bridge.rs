use ledger_device_sdk::decision::{Callback, DecisionState, SyncNbgl};
use ledger_device_sdk::flows::{
    ApduHeader, DisplayRequest, Event, Field, Handlers, NbglChoice, NbglHome, NbglReview,
    NbglReviewStatus, ReviewStage, ReviewStep, Screen,
};
use ledger_device_sdk::glyph::NbglGlyph;
use ledger_device_sdk::operation::{StatusType, TransactionType};
use ledger_device_sdk::sync::{init_comm, Turn, UxSync, WaitStep};

const QUIET: Turn = Turn { apdu_received: false, callback: None };

fn pressed(confirm: bool) -> Turn {
    Turn { apdu_received: false, callback: Some(Callback::Choice(confirm)) }
}

fn bound_bridge() -> UxSync {
    let mut ux = UxSync::new();
    init_comm(&mut ux);
    ux
}

/// Stands in for the toolkit: shows the screen of `request` and has the user
/// answer after one quiet cycle.
fn wait_for(ux: &mut UxSync, request: &DisplayRequest, callback: Callback) -> SyncNbgl {
    assert!(ux.is_awaiting());
    let turns = [QUIET, Turn { apdu_received: false, callback: Some(callback) }, QUIET];
    let outcome = ux.ux_sync_wait_scripted(request.exit_on_apdu, &turns);
    assert!(!ux.is_awaiting());
    outcome.unwrap()
}

/// Runs a review to its end, answering its screens with `answers` in turn.
/// Returns the result and the stages that were shown.
fn run_review(
    ux: &mut UxSync,
    review: &NbglReview,
    fields: &[Field],
    answers: &[bool],
) -> (bool, Vec<ReviewStage>) {
    let mut shown = Vec::new();
    let mut next = 0;
    let mut step = review.review_transaction(ux, fields);
    loop {
        match step {
            ReviewStep::Show(stage, request) => {
                shown.push(stage);
                let outcome = wait_for(ux, &request, Callback::Choice(answers[next]));
                next += 1;
                step = review.resume(ux, stage, outcome, fields);
            }
            ReviewStep::Done(result) => return (result, shown),
        }
    }
}

fn three_fields() -> [Field<'static>; 3] {
    [
        Field { name: "Field 1", value: "Value 1" },
        Field { name: "Field 2", value: "Value 2" },
        Field { name: "Field 3", value: "Value 3" },
    ]
}

#[test]
fn decision_state_reset_complete_peek() {
    let mut state = DecisionState::new();
    assert_eq!(state.peek(), None);
    assert!(!state.is_completed());
    state.complete(SyncNbgl::UxSyncRetQuitted);
    assert!(state.is_completed());
    assert_eq!(state.peek(), Some(SyncNbgl::UxSyncRetQuitted));
    assert_eq!(state.peek(), Some(SyncNbgl::UxSyncRetQuitted));
    state.reset();
    assert!(!state.is_completed());
    assert_eq!(state.peek(), None);
    assert_eq!(state, DecisionState::new());
}

#[test]
fn reset_clears_to_the_error_sentinel() {
    let mut state = DecisionState::new();
    state.complete(SyncNbgl::UxSyncRetApproved);
    state.reset();
    let mut fresh = DecisionState::new();
    fresh.complete(SyncNbgl::UxSyncRetError);
    let mut again = state;
    again.complete(SyncNbgl::UxSyncRetError);
    assert_eq!(again, fresh);
    assert_eq!(again.peek(), Some(SyncNbgl::UxSyncRetError));
}

#[test]
fn callbacks_record_their_outcome() {
    let mut state = DecisionState::new();
    state.choice_callback(true);
    assert_eq!(state.peek(), Some(SyncNbgl::UxSyncRetApproved));
    state.reset();
    state.choice_callback(false);
    assert_eq!(state.peek(), Some(SyncNbgl::UxSyncRetRejected));
    state.reset();
    state.quit_callback();
    assert_eq!(state.peek(), Some(SyncNbgl::UxSyncRetQuitted));
    state.reset();
    state.rejected_callback();
    assert_eq!(state.peek(), Some(SyncNbgl::UxSyncRetRejected));
}

#[test]
fn dispatch_runs_the_matching_callback() {
    for (callback, outcome) in [
        (Callback::Choice(true), SyncNbgl::UxSyncRetApproved),
        (Callback::Choice(false), SyncNbgl::UxSyncRetRejected),
        (Callback::Quit, SyncNbgl::UxSyncRetQuitted),
        (Callback::Rejected, SyncNbgl::UxSyncRetRejected),
    ] {
        let mut state = DecisionState::new();
        state.dispatch(callback);
        assert_eq!(state.peek(), Some(outcome));
        let mut ux = bound_bridge();
        ux.ux_sync_init();
        ux.dispatch(callback);
        assert_eq!(ux.peek(), Some(outcome));
        assert!(ux.is_awaiting());
    }
}

#[test]
fn new_bridge_is_idle_and_unbound() {
    let mut ux = UxSync::new();
    assert!(!ux.is_comm_bound());
    assert!(!ux.is_awaiting());
    assert_eq!(ux.peek(), None);
    init_comm(&mut ux);
    assert!(ux.is_comm_bound());
    assert!(!ux.is_awaiting());
    init_comm(&mut ux);
    assert!(ux.is_comm_bound());
}

#[test]
fn wait_step_yields_until_a_callback_fires() {
    let mut ux = bound_bridge();
    ux.ux_sync_init();
    assert_eq!(ux.ux_sync_wait_step(false, false), WaitStep::Yield);
    assert_eq!(ux.ux_sync_wait_step(false, true), WaitStep::Yield);
    assert!(ux.is_awaiting());
    ux.dispatch(Callback::Quit);
    assert_eq!(ux.ux_sync_wait_step(false, true), WaitStep::Return(SyncNbgl::UxSyncRetQuitted));
    assert!(!ux.is_awaiting());
    assert_eq!(ux.peek(), Some(SyncNbgl::UxSyncRetQuitted));
}

#[test]
fn command_wins_over_a_recorded_outcome() {
    let mut ux = bound_bridge();
    ux.ux_sync_init();
    ux.dispatch(Callback::Choice(true));
    assert_eq!(
        ux.ux_sync_wait_step(true, true),
        WaitStep::Return(SyncNbgl::UxSyncRetApduReceived)
    );
    assert_eq!(ux.peek(), Some(SyncNbgl::UxSyncRetApproved));
}

#[test]
fn interrupted_wait_leaves_the_decision_open() {
    let mut ux = bound_bridge();
    let fields = three_fields();
    let review = NbglReview::new().interruptible(true);
    let request = match review.review_transaction(&mut ux, &fields) {
        ReviewStep::Show(ReviewStage::Review, request) => request,
        other => panic!("unexpected step {:?}", other),
    };
    assert!(request.exit_on_apdu);
    let before = ux;
    let arrival = [Turn { apdu_received: true, callback: Some(Callback::Choice(true)) }, QUIET];
    let outcome = ux.ux_sync_wait_scripted(request.exit_on_apdu, &arrival);
    assert_eq!(outcome, Some(SyncNbgl::UxSyncRetApduReceived));
    assert_eq!(ux.peek(), None);
    assert!(!ux.is_awaiting());
    let mut waiting_again = ux;
    waiting_again.ux_sync_resume();
    assert_eq!(waiting_again, before);

    ux.ux_sync_resume();
    assert!(ux.is_awaiting());
    let outcome = ux.ux_sync_wait_scripted(request.exit_on_apdu, &[QUIET, pressed(true), QUIET]);
    assert_eq!(outcome, Some(SyncNbgl::UxSyncRetApproved));
    assert_eq!(review.resume(&mut ux, ReviewStage::Review, outcome.unwrap(), &fields), ReviewStep::Done(true));
}

#[test]
fn uninterruptible_wait_ignores_commands() {
    let mut ux = bound_bridge();
    ux.ux_sync_init();
    let turns = [
        Turn { apdu_received: true, callback: None },
        Turn { apdu_received: true, callback: Some(Callback::Choice(false)) },
        Turn { apdu_received: true, callback: None },
    ];
    assert_eq!(ux.ux_sync_wait_scripted(false, &turns), Some(SyncNbgl::UxSyncRetRejected));
    assert!(!ux.is_awaiting());
}

#[test]
fn scripted_wait_that_runs_out_is_still_waiting() {
    let mut ux = bound_bridge();
    ux.ux_sync_init();
    assert_eq!(ux.ux_sync_wait_scripted(true, &[]), None);
    assert_eq!(ux.ux_sync_wait_scripted(true, &[QUIET, QUIET]), None);
    assert!(ux.is_awaiting());
    assert_eq!(ux.ux_sync_wait_scripted(true, &[pressed(true)]), None);
    assert!(ux.is_awaiting());
    assert_eq!(ux.peek(), Some(SyncNbgl::UxSyncRetApproved));
    assert_eq!(ux.ux_sync_wait_scripted(true, &[QUIET]), Some(SyncNbgl::UxSyncRetApproved));
    assert!(!ux.is_awaiting());
}

#[test]
fn only_the_first_callback_counts() {
    let mut ux = bound_bridge();
    ux.ux_sync_init();
    let turns = [QUIET, pressed(false), pressed(true), QUIET];
    assert_eq!(ux.ux_sync_wait_scripted(false, &turns), Some(SyncNbgl::UxSyncRetRejected));
    assert_eq!(ux.peek(), Some(SyncNbgl::UxSyncRetRejected));
}

#[test]
fn second_display_request_is_detectable() {
    let mut ux = bound_bridge();
    assert!(!ux.is_awaiting());
    let request = NbglChoice::new().show(&mut ux, "Title", "Body", "Yes", "No");
    assert!(ux.is_awaiting());
    assert_eq!(ux.ux_sync_wait_step(request.exit_on_apdu, false), WaitStep::Yield);
    assert!(ux.is_awaiting());
    ux.dispatch(Callback::Choice(true));
    assert!(ux.is_awaiting());
    let before = ux;
    assert_eq!(ux.try_request(request.screen, request.handlers, request.exit_on_apdu), None);
    assert_eq!(ux, before);
    assert_eq!(ux.peek(), Some(SyncNbgl::UxSyncRetApproved));
    assert_eq!(
        ux.ux_sync_wait_step(request.exit_on_apdu, false),
        WaitStep::Return(SyncNbgl::UxSyncRetApproved)
    );
    assert!(!ux.is_awaiting());
    assert_eq!(
        ux.try_request(request.screen, request.handlers, request.exit_on_apdu),
        Some(request)
    );
    assert!(ux.is_awaiting());
    assert_eq!(ux.peek(), None);
}

#[test]
fn request_resets_the_previous_outcome() {
    let mut ux = bound_bridge();
    let status = NbglReviewStatus::new();
    let request = status.show(&mut ux, true);
    assert_eq!(wait_for(&mut ux, &request, Callback::Quit), SyncNbgl::UxSyncRetQuitted);
    assert_eq!(ux.peek(), Some(SyncNbgl::UxSyncRetQuitted));
    status.show(&mut ux, false);
    assert_eq!(ux.peek(), None);
    assert!(ux.is_comm_bound());
}

#[test]
fn review_of_three_fields_approved() {
    let mut ux = bound_bridge();
    let fields = three_fields();
    let (approved, shown) = run_review(&mut ux, &NbglReview::new(), &fields, &[true]);
    assert!(approved);
    assert_eq!(shown, vec![ReviewStage::Review]);
}

#[test]
fn review_of_three_fields_rejected() {
    let mut ux = bound_bridge();
    let fields = three_fields();
    let (approved, shown) = run_review(&mut ux, &NbglReview::new(), &fields, &[false]);
    assert!(!approved);
    assert_eq!(shown, vec![ReviewStage::Review]);
}

#[test]
fn review_request_keeps_fields_in_order() {
    let mut ux = bound_bridge();
    let fields = three_fields();
    let bitmap = [0u8; 8];
    let glyph = NbglGlyph::new(&bitmap, 64, 64, 4, true);
    let review = NbglReview::new()
        .tx_type(TransactionType::Message)
        .skippable()
        .glyph(&glyph)
        .titles("Review message", "From the wallet", "Sign message");
    let request = match review.review_transaction(&mut ux, &fields) {
        ReviewStep::Show(ReviewStage::Review, request) => request,
        other => panic!("unexpected step {:?}", other),
    };
    assert_eq!(request.handlers, Handlers::Choice);
    assert!(request.exit_on_apdu);
    match request.screen {
        Screen::Review(screen) => {
            assert_eq!(screen.operation_type, 0x11);
            assert_eq!(screen.fields.len(), 3);
            assert_eq!(screen.fields[0], Field { name: "Field 1", value: "Value 1" });
            assert_eq!(screen.fields[1], Field { name: "Field 2", value: "Value 2" });
            assert_eq!(screen.fields[2], Field { name: "Field 3", value: "Value 3" });
            assert_eq!(screen.icon, Some(glyph.to_icon_details()));
            assert_eq!(screen.title, "Review message");
            assert_eq!(screen.subtitle, "From the wallet");
            assert_eq!(screen.finish_title, "Sign message");
        }
        other => panic!("unexpected screen {:?}", other),
    }
}

#[test]
fn review_interrupted_by_a_command_is_not_approved() {
    let mut ux = bound_bridge();
    let fields = three_fields();
    let review = NbglReview::new();
    assert_eq!(
        review.resume(&mut ux, ReviewStage::Review, SyncNbgl::UxSyncRetApduReceived, &fields),
        ReviewStep::Done(false)
    );
    assert_eq!(
        review.resume(&mut ux, ReviewStage::Review, SyncNbgl::UxSyncRetError, &fields),
        ReviewStep::Done(false)
    );
    assert!(!ux.is_awaiting());
}

#[test]
fn blind_review_back_to_safety() {
    let mut ux = bound_bridge();
    let fields = three_fields();
    let review = NbglReview::new().blind();
    let (approved, shown) = run_review(&mut ux, &review, &fields, &[true]);
    assert!(!approved);
    assert_eq!(shown, vec![ReviewStage::BackToSafety]);
}

#[test]
fn blind_review_risk_accepted() {
    let mut ux = bound_bridge();
    let fields = three_fields();
    let review = NbglReview::new().blind();
    let (approved, shown) = run_review(&mut ux, &review, &fields, &[false, true]);
    assert!(approved);
    assert_eq!(shown, vec![ReviewStage::BackToSafety, ReviewStage::AcceptRisk]);
}

#[test]
fn blind_review_risk_rejected() {
    let mut ux = bound_bridge();
    let fields = three_fields();
    let review = NbglReview::new().blind();
    let (approved, shown) = run_review(&mut ux, &review, &fields, &[false, false]);
    assert!(!approved);
    assert_eq!(shown, vec![ReviewStage::BackToSafety, ReviewStage::AcceptRisk]);
}

#[test]
fn blind_warning_screens() {
    let mut ux = bound_bridge();
    let fields = three_fields();
    let bitmap = [0u8; 8];
    let warning = NbglGlyph::new(&bitmap, 64, 64, 1, true);
    let review = NbglReview::new().blind().warning_glyph(&warning);
    let (stage, first) = match review.review_transaction(&mut ux, &fields) {
        ReviewStep::Show(stage, request) => (stage, request),
        other => panic!("unexpected step {:?}", other),
    };
    assert_eq!(stage, ReviewStage::BackToSafety);
    assert_eq!(first.handlers, Handlers::Choice);
    assert!(!first.exit_on_apdu);
    match first.screen {
        Screen::Choice(screen) => {
            assert_eq!(screen.icon, Some(warning.to_icon_details()));
            assert_eq!(screen.message, "Security risk detected");
            assert_eq!(
                screen.sub_message,
                "It may not be safe to sign this transaction. To continue, you'll need to review the risk."
            );
            assert_eq!(screen.confirm_text, "Back to safety");
            assert_eq!(screen.cancel_text, "Review risk");
        }
        other => panic!("unexpected screen {:?}", other),
    }
    let outcome = wait_for(&mut ux, &first, Callback::Choice(false));
    let (stage, second) = match review.resume(&mut ux, stage, outcome, &fields) {
        ReviewStep::Show(stage, request) => (stage, request),
        other => panic!("unexpected step {:?}", other),
    };
    assert_eq!(stage, ReviewStage::AcceptRisk);
    assert!(!second.exit_on_apdu);
    match second.screen {
        Screen::Choice(screen) => {
            assert_eq!(screen.icon, None);
            assert_eq!(screen.message, "The transaction cannot be trusted");
            assert_eq!(
                screen.sub_message,
                "Your Ledger cannot decode this transaction. If you sign it, you could be authorizing malicious actions that can drain your wallet.\n\nLearn more: ledger.com/e8"
            );
            assert_eq!(screen.confirm_text, "I accept the risk");
            assert_eq!(screen.cancel_text, "Reject transaction");
        }
        other => panic!("unexpected screen {:?}", other),
    }
}

#[test]
fn choice_answers() {
    let mut ux = bound_bridge();
    let bitmap = [0u8; 2];
    let glyph = NbglGlyph::new(&bitmap, 4, 4, 2, false);
    let choice = NbglChoice::new().glyph(&glyph);
    let request = choice.show(&mut ux, "Delete key?", "This cannot be undone.", "Delete", "Keep");
    assert_eq!(request.handlers, Handlers::Choice);
    assert!(!request.exit_on_apdu);
    match request.screen {
        Screen::Choice(screen) => {
            assert_eq!(screen.icon, Some(glyph.to_icon_details()));
            assert_eq!(screen.message, "Delete key?");
            assert_eq!(screen.sub_message, "This cannot be undone.");
            assert_eq!(screen.confirm_text, "Delete");
            assert_eq!(screen.cancel_text, "Keep");
        }
        other => panic!("unexpected screen {:?}", other),
    }
    let outcome = wait_for(&mut ux, &request, Callback::Choice(true));
    assert!(NbglChoice::answer(outcome));
    assert!(!NbglChoice::answer(SyncNbgl::UxSyncRetRejected));
    assert!(!NbglChoice::answer(SyncNbgl::UxSyncRetQuitted));
    assert!(!NbglChoice::answer(SyncNbgl::UxSyncRetApduReceived));
    assert!(!NbglChoice::answer(SyncNbgl::UxSyncRetError));
}

#[test]
fn status_banner_codes() {
    let mut ux = bound_bridge();
    for (subject, success, code) in [
        (StatusType::Transaction, true, 0u8),
        (StatusType::Transaction, false, 1),
        (StatusType::Message, true, 2),
        (StatusType::Message, false, 3),
        (StatusType::Operation, true, 4),
        (StatusType::Operation, false, 5),
        (StatusType::Address, true, 6),
        (StatusType::Address, false, 7),
    ] {
        let request = NbglReviewStatus::new().status_type(subject).show(&mut ux, success);
        assert_eq!(request.handlers, Handlers::Quit);
        assert!(!request.exit_on_apdu);
        match request.screen {
            Screen::Status(screen) => assert_eq!(screen.status_type, code),
            other => panic!("unexpected screen {:?}", other),
        }
        assert_eq!(wait_for(&mut ux, &request, Callback::Quit), SyncNbgl::UxSyncRetQuitted);
    }
}

#[derive(Debug, PartialEq)]
enum Instruction {
    GetVersion,
    GetAppName,
}

fn decode(header: ApduHeader) -> Result<Instruction, u16> {
    match header.ins {
        3 => Ok(Instruction::GetVersion),
        4 => Ok(Instruction::GetAppName),
        _ => Err(0x6e01),
    }
}

#[test]
fn home_reports_decoded_commands() {
    let mut ux = bound_bridge();
    let bitmap = [0x40u8, 0x00, 0x40, 0x00];
    let icon = NbglGlyph::new(&bitmap, 64, 64, 4, true);
    let home = NbglHome::new().app_name("Stax Sample").info_contents("1.0.0", "Ledger").glyph(&icon);
    let request = home.show_home(&mut ux);
    assert_eq!(request.handlers, Handlers::Quit);
    assert!(request.exit_on_apdu);
    match request.screen {
        Screen::Home(screen) => {
            assert_eq!(screen.app_name, "Stax Sample");
            assert_eq!(screen.version, "1.0.0");
            assert_eq!(screen.author, "Ledger");
            assert_eq!(screen.icon, Some(icon.to_icon_details()));
        }
        other => panic!("unexpected screen {:?}", other),
    }
    let arrival = [QUIET, Turn { apdu_received: true, callback: None }];
    let outcome = ux.ux_sync_wait_scripted(request.exit_on_apdu, &arrival).unwrap();
    assert_eq!(outcome, SyncNbgl::UxSyncRetApduReceived);
    let header = ApduHeader { cla: 0xe0, ins: 3, p1: 0, p2: 0 };
    assert_eq!(NbglHome::event(outcome, header, decode), Event::Command(Instruction::GetVersion));
    let header = ApduHeader { cla: 0xe0, ins: 4, p1: 0, p2: 0 };
    assert_eq!(NbglHome::event(outcome, header, decode), Event::Command(Instruction::GetAppName));
}

#[test]
fn home_reports_undecodable_commands_as_errors() {
    let header = ApduHeader { cla: 0xe0, ins: 9, p1: 0, p2: 0 };
    assert_eq!(
        NbglHome::event(SyncNbgl::UxSyncRetApduReceived, header, decode),
        Event::DecodeError(0x6e01)
    );
}

#[test]
fn home_reports_navigation_without_decoding() {
    let mut ux = bound_bridge();
    let request = NbglHome::new().show_home(&mut ux);
    let outcome = wait_for(&mut ux, &request, Callback::Quit);
    let header = ApduHeader { cla: 0xe0, ins: 3, p1: 0, p2: 0 };
    let mut called = false;
    let event: Event<Instruction, u16> = NbglHome::event(outcome, header, |header| {
        called = true;
        decode(header)
    });
    assert_eq!(event, Event::Navigation(SyncNbgl::UxSyncRetQuitted));
    assert!(!called);
}
