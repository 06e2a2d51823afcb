use command_bridge::dialog::{
    confirm_action, save_file_dialog, select_file, show_message, ui_action, DialogButtons,
    DialogKind, DialogResponse, Prompt, PromptPhase, PromptSession, UiAction,
};

#[test]
fn show_message_builds_an_info_modal() {
    let p = show_message(String::from("saved"));
    assert_eq!(p, Prompt::Inform { message: String::from("saved") });
    match ui_action(&p) {
        UiAction::Modal(d) => {
            assert_eq!(d.title, "KiTS POS");
            assert_eq!(d.message, "saved");
            assert_eq!(d.kind, DialogKind::Info);
            assert_eq!(d.buttons, DialogButtons::OkOnly);
        }
        other => panic!("expected a modal, got {:?}", other),
    }
}

#[test]
fn confirm_action_builds_a_warning_modal() {
    let p = confirm_action(String::from("delete everything?"));
    match ui_action(&p) {
        UiAction::Modal(d) => {
            assert_eq!(d.title, "KiTS POS");
            assert_eq!(d.message, "delete everything?");
            assert_eq!(d.kind, DialogKind::Warning);
            assert_eq!(d.buttons, DialogButtons::YesNo);
        }
        other => panic!("expected a modal, got {:?}", other),
    }
}

#[test]
fn pickers_carry_their_titles() {
    assert_eq!(
        ui_action(&select_file()),
        UiAction::ChooseOpen { title: String::from("Select File") }
    );
    assert_eq!(
        ui_action(&save_file_dialog(String::from("report.txt"))),
        UiAction::ChooseSave {
            title: String::from("Save File"),
            default_name: String::from("report.txt"),
        }
    );
}

#[test]
fn a_confirmation_runs_idle_waiting_resolved() {
    let mut s = PromptSession::new(confirm_action(String::from("sure?")));
    assert_eq!(s.phase, PromptPhase::Idle);
    s.wait();
    assert_eq!(s.phase, PromptPhase::WaitingForUser);
    s.resolve(DialogResponse::Decision(true));
    assert_eq!(s.phase, PromptPhase::Resolved);
    assert!(s.decision());
}

#[test]
fn declining_resolves_to_false() {
    let mut s = PromptSession::new(confirm_action(String::from("sure?")));
    s.wait();
    s.resolve(DialogResponse::Decision(false));
    assert!(!s.decision());
}

#[test]
fn cancelling_a_picker_is_an_absent_selection() {
    let mut s = PromptSession::new(select_file());
    s.wait();
    s.resolve(DialogResponse::Selection(None));
    assert_eq!(s.phase, PromptPhase::Resolved);
    assert_eq!(s.selection(), None);
}

#[test]
fn picking_a_path_hands_it_back() {
    let mut s = PromptSession::new(save_file_dialog(String::from("out.txt")));
    s.wait();
    s.resolve(DialogResponse::Selection(Some(String::from("/tmp/out.txt"))));
    assert_eq!(s.selection(), Some(String::from("/tmp/out.txt")));
}

#[test]
fn informing_resolves_on_acknowledgement() {
    let mut s = PromptSession::new(show_message(String::from("done")));
    s.wait();
    s.resolve(DialogResponse::Acknowledged);
    assert_eq!(s.phase, PromptPhase::Resolved);
    assert_eq!(s.prompt, Prompt::Inform { message: String::from("done") });
}
