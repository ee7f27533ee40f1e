use fylex::catalog::CreateError;
use fylex::input::{
    creation_flash, decode_key, prompt_key, resolve_shell, submit_new_name, Action, Flash, Key,
    PromptStep,
};
use fylex::project::Project;
use fylex::session::SessionState;

fn session() -> SessionState {
    SessionState::new(vec![
        Project { path: "/d/one".to_string(), dir_name: "one".to_string(), config: None, vcs_state: None },
        Project { path: "/d/two".to_string(), dir_name: "two".to_string(), config: None, vcs_state: None },
    ])
}

#[test]
fn key_codes_decode() {
    assert_eq!(decode_key(81), Key::Quit);
    assert_eq!(decode_key(113), Key::Char('q'));
    assert_eq!(decode_key(127), Key::Backspace);
    assert_eq!(decode_key(263), Key::Backspace);
    assert_eq!(decode_key(259), Key::Up);
    assert_eq!(decode_key(258), Key::Down);
    assert_eq!(decode_key(10), Key::Confirm);
    assert_eq!(decode_key(343), Key::Confirm);
    assert_eq!(decode_key(78), Key::NewProject);
    assert_eq!(decode_key(32), Key::Char(' '));
    assert_eq!(decode_key(500), Key::Other);
    assert_eq!(decode_key(-1), Key::Other);
}

#[test]
fn browsing_keys_drive_session() {
    let mut s = session();
    assert_eq!(s.handle_key(Key::Down), Action::Redraw);
    assert_eq!(s.cursor, 1);
    assert_eq!(s.handle_key(Key::Confirm), Action::OpenShell("/d/two".to_string()));
    assert_eq!(s.handle_key(Key::Up), Action::Redraw);
    assert_eq!(s.cursor, 0);
    assert_eq!(s.handle_key(Key::Char('w')), Action::Redraw);
    assert_eq!(s.visible_indices, vec![1]);
    assert_eq!(s.handle_key(Key::Char('x')), Action::Redraw);
    assert!(s.visible_indices.is_empty());
    assert_eq!(s.handle_key(Key::Confirm), Action::Redraw);
    assert_eq!(s.handle_key(Key::Backspace), Action::Redraw);
    assert_eq!(s.filter_text, "w");
    assert_eq!(s.handle_key(Key::NewProject), Action::PromptNewName);
    assert_eq!(s.handle_key(Key::Other), Action::Redraw);
    assert_eq!(s.handle_key(Key::Quit), Action::Exit);
    assert_eq!(s.filter_text, "w");
}

#[test]
fn prompt_editing() {
    let mut buf = String::new();
    assert_eq!(prompt_key(&mut buf, 'a' as i32), PromptStep::Editing);
    assert_eq!(prompt_key(&mut buf, 'b' as i32), PromptStep::Editing);
    assert_eq!(prompt_key(&mut buf, 127), PromptStep::Editing);
    assert_eq!(prompt_key(&mut buf, 259), PromptStep::Editing);
    assert_eq!(buf, "a");
    assert_eq!(prompt_key(&mut buf, 10), PromptStep::Submit);
    assert_eq!(buf, "a");
    assert_eq!(prompt_key(&mut buf, 27), PromptStep::Cancel);
    assert_eq!(buf, "");
}

#[test]
fn submitted_names() {
    assert_eq!(submit_new_name("  new-tool "), Ok("new-tool".to_string()));
    assert_eq!(submit_new_name("   "), Err(Flash::EmptyName));
    assert_eq!(submit_new_name(""), Err(Flash::EmptyName));
}

#[test]
fn flashes() {
    assert_eq!(creation_flash(Ok(())), Flash::Created);
    assert_eq!(creation_flash(Err(CreateError::AlreadyExists)), Flash::CreateFailed);
    assert_eq!(creation_flash(Err(CreateError::WriteError)), Flash::CreateFailed);
    assert_eq!(Flash::Created.text(), "Project created");
    assert!(!Flash::Created.is_error());
    assert_eq!(Flash::EmptyName.text(), "Name cannot be empty");
    assert!(Flash::OpenFailed.is_error());
}

#[test]
fn shell_resolution() {
    assert_eq!(resolve_shell(Some("/bin/zsh".to_string())), "/bin/zsh");
    assert_eq!(resolve_shell(None), "/bin/bash");
}
