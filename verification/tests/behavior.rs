use taskman::key::{FormAction, Key};
use taskman::render::{render, FrameDesc};
use taskman::session::{Mode, Session};

fn type_str(s: &mut Session, text: &str) {
    for c in text.chars() {
        let quit = s.step(Key::Char(c));
        assert!(!quit);
    }
}

fn add_task(s: &mut Session, description: &str) {
    assert!(!s.step(Key::Char('A')));
    type_str(s, description);
    assert!(!s.step(Key::Enter));
}

fn selection_is_valid(s: &Session) -> bool {
    match s.store.selected {
        Some(i) => i < s.store.tasks.len(),
        None => true,
    }
}

#[test]
fn submit_add_new_appends_task() {
    let mut s = Session::new();
    assert!(!s.step(Key::Char('A')));
    assert!(matches!(s.mode, Mode::AddNew));
    type_str(&mut s, "buy milk");
    assert_eq!(s.input, "buy milk");
    assert!(!s.step(Key::Enter));
    assert!(matches!(s.mode, Mode::List));
    assert_eq!(s.store.tasks.len(), 1);
    assert_eq!(s.store.tasks[0].description, "buy milk");
    assert!(!s.store.tasks[0].is_done);
    assert_eq!(s.input, "");
}

#[test]
fn cancel_add_new_keeps_store() {
    let mut s = Session::new();
    add_task(&mut s, "keep me");
    assert!(!s.step(Key::Char('A')));
    type_str(&mut s, "discarded text");
    assert!(!s.step(Key::Esc));
    assert!(matches!(s.mode, Mode::List));
    assert_eq!(s.input, "");
    assert_eq!(s.store.tasks.len(), 1);
    assert_eq!(s.store.tasks[0].description, "keep me");
}

#[test]
fn cancel_update_keeps_store() {
    let mut s = Session::new();
    add_task(&mut s, "keep me");
    assert!(!s.step(Key::Down));
    assert!(!s.step(Key::Char('E')));
    assert!(matches!(s.mode, Mode::Update { target: 0 }));
    type_str(&mut s, " with junk");
    assert!(!s.step(Key::Esc));
    assert!(matches!(s.mode, Mode::List));
    assert_eq!(s.input, "");
    assert_eq!(s.store.tasks.len(), 1);
    assert_eq!(s.store.tasks[0].description, "keep me");
}

#[test]
fn double_toggle_restores_done_flag() {
    let mut s = Session::new();
    add_task(&mut s, "flip me");
    assert!(!s.step(Key::Down));
    assert_eq!(s.store.selected, Some(0));
    assert!(!s.step(Key::Enter));
    assert!(s.store.tasks[0].is_done);
    assert!(!s.step(Key::Enter));
    assert!(!s.store.tasks[0].is_done);
    assert_eq!(s.store.tasks[0].description, "flip me");
}

#[test]
fn toggle_without_selection_is_noop() {
    let mut s = Session::new();
    add_task(&mut s, "untouched");
    assert_eq!(s.store.selected, None);
    assert!(!s.step(Key::Enter));
    assert!(!s.store.tasks[0].is_done);
    assert_eq!(s.store.tasks.len(), 1);
}

#[test]
fn delete_only_task_clears_selection_and_shows_placeholder() {
    let mut s = Session::new();
    add_task(&mut s, "only one");
    assert!(!s.step(Key::Down));
    assert_eq!(s.store.selected, Some(0));
    assert!(!s.step(Key::Char('D')));
    assert_eq!(s.store.tasks.len(), 0);
    assert_eq!(s.store.selected, None);
    match render(&s) {
        FrameDesc::EmptyNotice { title, message } => {
            assert_eq!(title, "App Tasks Perro Malo");
            assert_eq!(message, "No hay tareas.");
        }
        _ => panic!("an empty list must render the placeholder"),
    }
}

#[test]
fn delete_second_of_two_leaves_valid_selection() {
    let mut s = Session::new();
    add_task(&mut s, "a");
    add_task(&mut s, "b");
    assert!(!s.step(Key::Down));
    assert!(!s.step(Key::Down));
    assert_eq!(s.store.selected, Some(1));
    assert!(!s.step(Key::Char('D')));
    assert_eq!(s.store.tasks.len(), 1);
    assert_eq!(s.store.tasks[0].description, "a");
    assert_ne!(s.store.selected, Some(1));
    assert_eq!(s.store.selected, Some(0));
}

#[test]
fn delete_without_selection_is_noop() {
    let mut s = Session::new();
    add_task(&mut s, "a");
    assert_eq!(s.store.selected, None);
    assert!(!s.step(Key::Char('D')));
    assert_eq!(s.store.tasks.len(), 1);
}

#[test]
fn update_prefills_buffer_and_edits_only_target() {
    let mut s = Session::new();
    add_task(&mut s, "old text");
    add_task(&mut s, "other task");
    assert!(!s.step(Key::Down));
    assert_eq!(s.store.selected, Some(0));
    assert!(!s.step(Key::Char('E')));
    assert!(matches!(s.mode, Mode::Update { target: 0 }));
    assert_eq!(s.input, "old text");
    for _ in 0.."old text".len() {
        assert!(!s.step(Key::Backspace));
    }
    assert_eq!(s.input, "");
    type_str(&mut s, "new text");
    assert!(!s.step(Key::Enter));
    assert!(matches!(s.mode, Mode::List));
    assert_eq!(s.input, "");
    assert_eq!(s.store.tasks.len(), 2);
    assert_eq!(s.store.tasks[0].description, "new text");
    assert!(!s.store.tasks[0].is_done);
    assert_eq!(s.store.tasks[1].description, "other task");
    assert_eq!(s.store.selected, Some(0));
}

#[test]
fn update_keeps_done_flag_of_target() {
    let mut s = Session::new();
    add_task(&mut s, "done already");
    assert!(!s.step(Key::Down));
    assert!(!s.step(Key::Enter));
    assert!(s.store.tasks[0].is_done);
    assert!(!s.step(Key::Char('E')));
    type_str(&mut s, "!");
    assert!(!s.step(Key::Enter));
    assert_eq!(s.store.tasks[0].description, "done already!");
    assert!(s.store.tasks[0].is_done);
}

#[test]
fn enter_update_without_selection_is_noop() {
    let mut s = Session::new();
    add_task(&mut s, "a");
    assert_eq!(s.store.selected, None);
    assert!(!s.step(Key::Char('E')));
    assert!(matches!(s.mode, Mode::List));
    assert_eq!(s.input, "");
}

#[test]
fn backspace_on_empty_buffer_is_noop() {
    let mut s = Session::new();
    assert!(!s.step(Key::Char('A')));
    assert_eq!(s.input, "");
    assert!(!s.step(Key::Backspace));
    assert_eq!(s.input, "");
    assert!(matches!(s.mode, Mode::AddNew));
    assert_eq!(s.store.tasks.len(), 0);
}

#[test]
fn selection_stays_valid_across_interleaving() {
    let mut s = Session::new();
    let script = [
        Key::Up,
        Key::Down,
        Key::Char('A'),
        Key::Char('x'),
        Key::Enter,
        Key::Down,
        Key::Char('A'),
        Key::Char('y'),
        Key::Enter,
        Key::Up,
        Key::Up,
        Key::Down,
        Key::Down,
        Key::Down,
        Key::Char('D'),
        Key::Char('D'),
        Key::Up,
        Key::Char('D'),
        Key::Down,
    ];
    for k in script {
        let quit = s.step(k);
        assert!(!quit);
        assert!(selection_is_valid(&s));
    }
}

#[test]
fn navigation_clamps_at_boundaries() {
    let mut s = Session::new();
    add_task(&mut s, "a");
    add_task(&mut s, "b");
    assert!(!s.step(Key::Up));
    assert_eq!(s.store.selected, Some(1), "up with no selection lands on the last row");
    assert!(!s.step(Key::Down));
    assert_eq!(s.store.selected, Some(1), "down clamps at the last row");
    assert!(!s.step(Key::Char('k')));
    assert_eq!(s.store.selected, Some(0));
    assert!(!s.step(Key::Char('k')));
    assert_eq!(s.store.selected, Some(0), "up clamps at the first row");
    assert!(!s.step(Key::Char('j')));
    assert_eq!(s.store.selected, Some(1));
}

#[test]
fn navigation_down_with_no_selection_lands_on_first_row() {
    let mut s = Session::new();
    add_task(&mut s, "a");
    add_task(&mut s, "b");
    assert!(!s.step(Key::Down));
    assert_eq!(s.store.selected, Some(0));
}

#[test]
fn navigation_on_empty_list_keeps_no_selection() {
    let mut s = Session::new();
    assert!(!s.step(Key::Up));
    assert_eq!(s.store.selected, None);
    assert!(!s.step(Key::Down));
    assert_eq!(s.store.selected, None);
}

#[test]
fn quit_keys_end_the_run_only_from_list_mode() {
    let mut s = Session::new();
    assert!(s.step(Key::Char('q')));
    let mut s2 = Session::new();
    assert!(s2.step(Key::Esc));
    let mut s3 = Session::new();
    assert!(!s3.step(Key::Char('A')));
    assert!(!s3.step(Key::Char('q')), "'q' inside a form is plain text");
    assert_eq!(s3.input, "q");
}

#[test]
fn unrecognized_keys_are_noops() {
    let mut s = Session::new();
    add_task(&mut s, "a");
    assert!(!s.step(Key::Other));
    assert!(!s.step(Key::Char('z')));
    assert_eq!(s.store.tasks.len(), 1);
    assert_eq!(s.store.selected, None);
    assert!(matches!(s.mode, Mode::List));
}

#[test]
fn form_actions_follow_the_key() {
    let mut s = Session::new();
    assert_eq!(s.handle_input_form(Key::Enter), FormAction::Submit);
    assert_eq!(s.handle_input_form(Key::Esc), FormAction::Escape);
    assert_eq!(s.handle_input_form(Key::Char('a')), FormAction::NoChange);
    assert_eq!(s.input, "a");
    assert_eq!(s.handle_input_form(Key::Up), FormAction::NoChange);
    assert_eq!(s.input, "a");
    assert_eq!(s.handle_input_form(Key::Backspace), FormAction::NoChange);
    assert_eq!(s.input, "");
}

#[test]
fn render_list_marks_done_and_selected_rows() {
    let mut s = Session::new();
    add_task(&mut s, "first");
    add_task(&mut s, "second");
    assert!(!s.step(Key::Down));
    assert!(!s.step(Key::Down));
    assert!(!s.step(Key::Enter));
    match render(&s) {
        FrameDesc::TaskRows { title, rows } => {
            assert_eq!(title, "App Tasks Perro Malo");
            assert_eq!(rows.len(), 2);
            assert_eq!(rows[0].text, "first");
            assert!(!rows[0].done);
            assert!(!rows[0].selected);
            assert_eq!(rows[1].text, "second");
            assert!(rows[1].done);
            assert!(rows[1].selected);
        }
        _ => panic!("a non-empty list must render one row per task"),
    }
}

#[test]
fn render_form_shows_title_and_buffer() {
    let mut s = Session::new();
    assert!(!s.step(Key::Char('A')));
    type_str(&mut s, "half typed");
    match render(&s) {
        FrameDesc::Form { title, content } => {
            assert_eq!(title, "Ingresa tu tarea:");
            assert_eq!(content, "half typed");
        }
        _ => panic!("the add form must render as a form box"),
    }
}

#[test]
fn render_update_form_shows_edit_title() {
    let mut s = Session::new();
    add_task(&mut s, "to edit");
    assert!(!s.step(Key::Down));
    assert!(!s.step(Key::Char('E')));
    match render(&s) {
        FrameDesc::Form { title, content } => {
            assert_eq!(title, "Edita tu tarea:");
            assert_eq!(content, "to edit");
        }
        _ => panic!("the edit form must render as a form box"),
    }
}
