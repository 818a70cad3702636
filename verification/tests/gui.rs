use lazygitrs::git::rebase::RebaseAction;
use lazygitrs::gui::context::{ContextId, ContextManager};
use lazygitrs::gui::controller::rebase_mode::{
    classify_key, execute_rebase, handle_key, RebaseKey, RebaseKeyOutcome, RebasePlan,
};
use lazygitrs::gui::keys::{has_alt, matches_key, Key, KeyCode, ALT};
use lazygitrs::gui::popup::{input_confirmed, Command, InputCommand, Popup};
use lazygitrs::gui::rebase_mode::RebaseModeState;
use lazygitrs::model::{Branch, Commit, CommitStatus, Divergence, Model};

fn commit(hash: &str, name: &str) -> Commit {
    Commit {
        hash: hash.to_string(),
        name: name.to_string(),
        status: CommitStatus::Pushed,
        action: String::new(),
        tags: vec![],
        extra_info: String::new(),
        author_name: "Ann".to_string(),
        author_email: "ann@x".to_string(),
        unix_timestamp: 0,
        parents: vec![],
        divergence: Divergence::Neither,
    }
}

fn model_with(branches: usize, commits: usize) -> Model {
    Model {
        files: vec![],
        branches: (0..branches)
            .map(|i| Branch { name: format!("b{i}"), hash: format!("{i}") })
            .collect(),
        commits: (0..commits).map(|i| commit(&format!("{i:040}"), "c")).collect(),
        stash_entries: vec![],
        remotes: vec![],
        tags: vec![],
    }
}

fn key(c: char) -> Key {
    Key { code: KeyCode::Char(c), modifiers: 0 }
}

#[test]
fn sidebar_navigation_wraps_and_undoes() {
    let mut ctx = ContextManager::new();
    assert_eq!(ctx.active(), ContextId::Files);
    ctx.next_context();
    assert_eq!(ctx.active(), ContextId::Branches);
    ctx.prev_context();
    assert_eq!(ctx.active(), ContextId::Files);
    ctx.set_active(ContextId::Stash);
    ctx.next_context();
    assert_eq!(ctx.active(), ContextId::Status);
    ctx.prev_context();
    assert_eq!(ctx.active(), ContextId::Stash);
    // Outside the sidebar, cycling does nothing.
    ctx.set_active(ContextId::Tags);
    ctx.next_context();
    assert_eq!(ctx.active(), ContextId::Tags);
    assert_eq!(ContextId::sidebar_order().len(), 5);
    assert_eq!(ContextId::Commits.title(), "Commits");
}

#[test]
fn selection_moves_within_the_list() {
    let model = model_with(3, 0);
    let mut ctx = ContextManager::new();
    ctx.set_active(ContextId::Branches);
    ctx.move_selection(5, &model);
    assert_eq!(ctx.selected_active(), 2);
    ctx.move_selection(-1, &model);
    assert_eq!(ctx.selected_active(), 1);
    ctx.move_selection(-10, &model);
    assert_eq!(ctx.selected_active(), 0);
    // An empty list leaves the selection alone.
    ctx.set_active(ContextId::Commits);
    ctx.set_selection(4);
    ctx.move_selection(1, &model);
    assert_eq!(ctx.selected(ContextId::Commits), 4);
    assert_eq!(ctx.list_len(&model), 0);
}

#[test]
fn selections_read_back_and_clamp() {
    let model = model_with(2, 0);
    let mut ctx = ContextManager::new();
    ctx.set_active(ContextId::Branches);
    ctx.set_selection(7);
    assert_eq!(ctx.selected(ContextId::Branches), 7);
    ctx.set_scroll_offset(ContextId::Branches, 3);
    assert_eq!(ctx.scroll_offset(ContextId::Branches), 3);
    assert_eq!(ctx.scroll_offset(ContextId::Files), 0);
    ctx.clamp_selections(&model);
    assert_eq!(ctx.selected(ContextId::Branches), 1);
    assert_eq!(ctx.selected(ContextId::Commits), 0);
}

#[test]
fn rebase_mode_edits_the_todo_list() {
    let base = commit(&"b".repeat(40), "base");
    let commits = vec![commit(&"1".repeat(40), "newest"), commit(&"2".repeat(40), "older")];
    let mut st = RebaseModeState::new();
    st.enter("main".to_string(), &base, &commits);
    assert!(st.active);
    assert_eq!(st.base_short_hash, "bbbbbbb");
    assert_eq!(st.entries.len(), 2);
    st.cycle_action_forward();
    assert_eq!(st.entries[0].action, RebaseAction::Reword);
    st.cycle_action_backward();
    assert_eq!(st.entries[0].action, RebaseAction::Pick);
    st.move_down();
    assert_eq!(st.selected, 1);
    assert_eq!(st.entries[1].message, "newest");
    st.move_up();
    assert_eq!(st.selected, 0);
    assert_eq!(st.entries[0].message, "newest");
    st.set_action(RebaseAction::Drop);
    let actions = st.build_actions();
    assert_eq!(actions[0], ("2".repeat(40), RebaseAction::Pick));
    assert_eq!(actions[1], ("1".repeat(40), RebaseAction::Drop));
    st.selected = 1;
    st.scroll = 5;
    st.ensure_visible(3);
    assert_eq!(st.scroll, 1);
    st.exit();
    assert!(!st.active && st.entries.is_empty());
}

#[test]
fn rebase_keys_and_plan() {
    assert_eq!(classify_key(&key('q')), RebaseKey::Quit);
    assert_eq!(classify_key(&key('s')), RebaseKey::SetAction(RebaseAction::Squash));
    let alt_down = Key { code: KeyCode::Down, modifiers: ALT };
    assert!(has_alt(&alt_down));
    assert_eq!(classify_key(&alt_down), RebaseKey::MoveDown);
    let base = commit(&"b".repeat(40), "base");
    let commits = vec![commit(&"1".repeat(40), "newest"), commit(&"2".repeat(40), "older")];
    let mut st = RebaseModeState::new();
    st.enter("main".to_string(), &base, &commits);
    assert_eq!(handle_key(&mut st, true, &key('d')), RebaseKeyOutcome::ToPopup);
    assert_eq!(handle_key(&mut st, false, &key('j')), RebaseKeyOutcome::Done);
    assert_eq!(st.selected, 1);
    // The oldest entry may not be squashed into nothing.
    assert_eq!(handle_key(&mut st, false, &key('s')), RebaseKeyOutcome::Done);
    assert!(matches!(execute_rebase(&st), RebasePlan::Invalid(Popup::Message { .. })));
    handle_key(&mut st, false, &key('p'));
    match execute_rebase(&st) {
        RebasePlan::Run { base_hash, actions } => {
            assert_eq!(base_hash, "b".repeat(40));
            assert_eq!(actions.len(), 2);
        }
        RebasePlan::Invalid(_) => panic!("a pick-only list runs"),
    }
}

#[test]
fn key_bindings_and_input() {
    let enter = Key { code: KeyCode::Enter, modifiers: 0 };
    assert!(matches_key(&enter, &Some(enter)));
    assert!(!matches_key(&enter, &None));
    assert!(input_confirmed(&InputCommand::CreateTag, "").is_none());
    match input_confirmed(&InputCommand::RewordCommit("h".to_string()), "msg") {
        Some(Command::RewordCommit { hash, message }) => {
            assert_eq!(hash, "h");
            assert_eq!(message, "msg");
        }
        _ => panic!("typed text rewords"),
    }
}
