use tropical_pm::app::{ActionMode, App, ConfirmData, InputMode};
use tropical_pm::brand::{brand_from_name, Brand};
use tropical_pm::create::CreateStep;
use tropical_pm::event::{Action, Event, Key, Mouse};
use tropical_pm::gpg::{GpgStatus, DEFAULT_GPG_KEY};
use tropical_pm::list::ListState;
use tropical_pm::project::Project;

fn project(name: &str) -> Project {
    Project {
        name: name.to_string(),
        path: format!("/work/{}", name),
        current_branch: "main".to_string(),
        is_dirty: false,
        untracked: 0,
        modified: 0,
        deleted: 0,
        changed_files: vec![],
        ahead: 0,
        behind: 0,
        last_commit_msg: None,
        last_commit_time: 0,
        github_stats: None,
        gpg_status: GpgStatus { is_configured: false, signing_key: None, auto_retrieve: false },
        remote_status: None,
    }
}

fn app_with(n: usize) -> App {
    let mut app = App::new(Brand::Tropical);
    let mut projects = vec![];
    for i in 0..n {
        projects.push(project(&format!("p{}", i)));
    }
    app.receive_projects(projects);
    app
}

fn press(app: &mut App, c: char) -> Action {
    app.handle_event(Event::Press(Key::Char(c)))
}

#[test]
fn starts_with_a_scan_under_way() {
    let app = App::new(Brand::Mango);
    assert!(app.is_loading);
    assert!(app.projects.is_empty());
    assert_eq!(app.brand, Brand::Mango);
    assert_eq!(app.global_gpg_key, "417CAB41FAB91318");
    assert_eq!(app.list_state, ListState { offset: 0, selected: None });
    assert_eq!(app.input_mode, InputMode::Normal);
}

#[test]
fn received_projects_select_the_first() {
    let app = app_with(3);
    assert!(!app.is_loading);
    assert_eq!(app.list_state.selected, Some(0));
    let empty = app_with(0);
    assert_eq!(empty.list_state.selected, None);
}

#[test]
fn received_projects_keep_the_selection() {
    let mut app = app_with(3);
    app.select_index(2);
    app.receive_projects(vec![project("only")]);
    assert_eq!(app.list_state.selected, Some(2));
}

#[test]
fn next_wraps_around() {
    let mut app = app_with(3);
    app.next();
    assert_eq!(app.list_state.selected, Some(1));
    app.next();
    app.next();
    assert_eq!(app.list_state.selected, Some(0));
}

#[test]
fn previous_wraps_around() {
    let mut app = app_with(3);
    app.previous();
    assert_eq!(app.list_state.selected, Some(2));
    app.previous();
    assert_eq!(app.list_state.selected, Some(1));
}

#[test]
fn next_and_previous_without_projects_do_nothing() {
    let mut app = app_with(0);
    app.next();
    app.previous();
    assert_eq!(app.list_state.selected, None);
}

#[test]
fn next_from_a_stale_selection_goes_to_the_first() {
    let mut app = app_with(3);
    app.list_state.selected = Some(9);
    app.next();
    assert_eq!(app.list_state.selected, Some(0));
    app.list_state.selected = Some(9);
    app.previous();
    assert_eq!(app.list_state.selected, Some(8));
}

#[test]
fn no_selection_goes_to_the_first() {
    let mut app = app_with(3);
    app.list_state.selected = None;
    app.previous();
    assert_eq!(app.list_state.selected, Some(0));
}

#[test]
fn next_undoes_previous() {
    let mut app = app_with(4);
    for i in 0..4 {
        app.select_index(i);
        app.next();
        app.previous();
        assert_eq!(app.list_state.selected, Some(i));
        app.previous();
        app.next();
        assert_eq!(app.list_state.selected, Some(i));
    }
}

#[test]
fn scrolling_goes_round() {
    let mut app = app_with(5);
    app.select_index(3);
    for _ in 0..5 {
        app.handle_event(Event::Mouse(Mouse::ScrollDown));
    }
    assert_eq!(app.list_state.selected, Some(3));
    app.handle_event(Event::Mouse(Mouse::ScrollUp));
    assert_eq!(app.list_state.selected, Some(2));
}

#[test]
fn selecting_beyond_the_list_does_nothing() {
    let mut app = app_with(2);
    app.select_index(2);
    assert_eq!(app.list_state.selected, Some(0));
    app.select_index(1);
    assert_eq!(app.list_state.selected, Some(1));
}

#[test]
fn selecting_keeps_the_offset() {
    let mut app = app_with(9);
    app.list_state.offset = 4;
    app.select_index(7);
    assert_eq!(app.list_state, ListState { offset: 4, selected: Some(7) });
}

#[test]
fn clicks_select_rows() {
    let mut app = app_with(9);
    app.list_state.offset = 3;
    app.handle_event(Event::Mouse(Mouse::LeftDown(2)));
    assert_eq!(app.list_state.selected, Some(3));
    app.handle_event(Event::Mouse(Mouse::LeftDown(6)));
    assert_eq!(app.list_state.selected, Some(7));
    app.handle_event(Event::Mouse(Mouse::LeftDown(1)));
    assert_eq!(app.list_state.selected, Some(7));
    app.handle_event(Event::Mouse(Mouse::LeftDown(8)));
    assert_eq!(app.list_state.selected, Some(7));
}

#[test]
fn mouse_is_ignored_while_typing() {
    let mut app = app_with(3);
    press(&mut app, 'c');
    app.handle_event(Event::Mouse(Mouse::ScrollDown));
    app.handle_event(Event::Mouse(Mouse::LeftDown(4)));
    assert_eq!(app.list_state.selected, Some(0));
}

#[test]
fn quits_on_q_and_escape_only_when_normal() {
    let mut app = app_with(1);
    assert_eq!(press(&mut app, 'q'), Action::Quit);
    assert_eq!(app.handle_event(Event::Press(Key::Esc)), Action::Quit);
    assert_eq!(app.handle_event(Event::Release(Key::Esc)), Action::Nothing);
    press(&mut app, 'c');
    assert_eq!(press(&mut app, 'q'), Action::Nothing);
    assert_eq!(app.input_buffer, "q");
    assert_eq!(app.handle_event(Event::Press(Key::Esc)), Action::Nothing);
    assert_eq!(app.input_mode, InputMode::Normal);
}

#[test]
fn movement_keys() {
    let mut app = app_with(3);
    press(&mut app, 'j');
    assert_eq!(app.list_state.selected, Some(1));
    app.handle_event(Event::Press(Key::Down));
    assert_eq!(app.list_state.selected, Some(2));
    press(&mut app, 'k');
    app.handle_event(Event::Press(Key::Up));
    assert_eq!(app.list_state.selected, Some(0));
    press(&mut app, 'x');
    app.handle_event(Event::Press(Key::Other));
    app.handle_event(Event::Other);
    assert_eq!(app.list_state.selected, Some(0));
}

#[test]
fn refresh_starts_one_scan() {
    let mut app = app_with(1);
    assert_eq!(press(&mut app, 'r'), Action::Scan);
    assert!(app.is_loading);
    assert_eq!(press(&mut app, 'r'), Action::Nothing);
    assert!(!app.scan_projects());
    app.receive_projects(vec![]);
    assert!(app.scan_projects());
}

#[test]
fn testing_remotes_says_so() {
    let mut app = app_with(1);
    assert_eq!(press(&mut app, 't'), Action::Scan);
    assert_eq!(app.status_message.as_deref(), Some("Testing remote connections..."));
    assert_eq!(press(&mut app, 't'), Action::Nothing);
}

#[test]
fn creating_a_project() {
    let mut app = app_with(1);
    app.input_buffer = "left over".to_string();
    press(&mut app, 'c');
    assert_eq!(app.input_buffer, "");
    for c in " my app \u{a0}".chars() {
        press(&mut app, c);
    }
    let action = app.handle_event(Event::Press(Key::Enter));
    assert_eq!(action, Action::CreateProject { name: "my app".to_string(), scan: true });
    assert!(action.starts_scan());
    assert!(app.is_loading);
    assert_eq!(app.input_mode, InputMode::Normal);
}

#[test]
fn creating_while_scanning_starts_no_scan() {
    let mut app = App::new(Brand::Tropical);
    press(&mut app, 'c');
    press(&mut app, 'x');
    let action = app.handle_event(Event::Press(Key::Enter));
    assert_eq!(action, Action::CreateProject { name: "x".to_string(), scan: false });
    assert!(!action.starts_scan());
}

#[test]
fn blank_names_create_nothing() {
    let mut app = app_with(1);
    press(&mut app, 'c');
    press(&mut app, ' ');
    assert_eq!(app.handle_event(Event::Press(Key::Enter)), Action::Nothing);
    assert_eq!(app.input_mode, InputMode::Normal);
    assert!(!app.is_loading);
}

#[test]
fn backspace_takes_back() {
    let mut app = app_with(1);
    press(&mut app, 'c');
    press(&mut app, 'a');
    press(&mut app, 'é');
    app.handle_event(Event::Press(Key::Backspace));
    assert_eq!(app.input_buffer, "a");
    app.handle_event(Event::Press(Key::Backspace));
    app.handle_event(Event::Press(Key::Backspace));
    assert_eq!(app.input_buffer, "");
}

#[test]
fn setting_a_key() {
    let mut app = app_with(1);
    press(&mut app, 'g');
    assert_eq!(app.input_buffer, DEFAULT_GPG_KEY);
    app.input_buffer.clear();
    for c in " ABCD ".chars() {
        press(&mut app, c);
    }
    let action = app.handle_event(Event::Press(Key::Enter));
    assert_eq!(action, Action::ConfigureGpg { key: "ABCD".to_string(), scan: true });
    assert_eq!(app.global_gpg_key, "ABCD");
    assert_eq!(
        app.status_message.as_deref(),
        Some("Configuring GPG key ABCD on all repos...")
    );
    assert_eq!(app.input_mode, InputMode::Normal);
}

#[test]
fn offered_key_is_the_present_one() {
    let mut app = app_with(1);
    press(&mut app, 'g');
    let action = app.handle_event(Event::Press(Key::Enter));
    assert_eq!(
        action,
        Action::ConfigureGpg { key: DEFAULT_GPG_KEY.to_string(), scan: true }
    );
    assert_eq!(app.global_gpg_key, DEFAULT_GPG_KEY);
}

#[test]
fn blank_key_is_not_set() {
    let mut app = app_with(1);
    press(&mut app, 'g');
    app.input_buffer = "\t \u{3000}".to_string();
    assert_eq!(app.handle_event(Event::Press(Key::Enter)), Action::Nothing);
    assert_eq!(app.global_gpg_key, DEFAULT_GPG_KEY);
    assert_eq!(app.status_message, None);
}

fn asking(action: ActionMode) -> App {
    let mut app = app_with(1);
    app.input_mode = InputMode::ConfirmAction;
    app.confirm_data =
        Some(ConfirmData { action, message: "sure?".to_string(), projects: vec![] });
    app
}

#[test]
fn confirming() {
    let mut app = asking(ActionMode::ConfigureGpg);
    assert_eq!(
        press(&mut app, 'y'),
        Action::ConfigureGpg { key: DEFAULT_GPG_KEY.to_string(), scan: true }
    );
    assert!(app.confirm_data.is_none());
    let mut app = asking(ActionMode::TestRemotes);
    assert_eq!(app.handle_event(Event::Press(Key::Enter)), Action::Scan);
    let mut app = asking(ActionMode::Nothing);
    assert_eq!(press(&mut app, 'y'), Action::Nothing);
    assert_eq!(app.input_mode, InputMode::Normal);
}

#[test]
fn declining() {
    for key in [Key::Char('n'), Key::Esc] {
        let mut app = asking(ActionMode::ConfigureGpg);
        assert_eq!(app.handle_event(Event::Press(key)), Action::Nothing);
        assert!(app.confirm_data.is_none());
        assert_eq!(app.input_mode, InputMode::Normal);
        assert!(!app.is_loading);
    }
    let mut app = asking(ActionMode::ConfigureGpg);
    press(&mut app, 'z');
    assert!(app.confirm_data.is_some());
}

#[test]
fn ticks_come_round() {
    let mut app = app_with(0);
    for _ in 0..255 {
        app.handle_event(Event::Quiet);
    }
    assert_eq!(app.tick, 255);
    app.handle_event(Event::Quiet);
    assert_eq!(app.tick, 0);
}

#[test]
fn brands_by_name() {
    assert_eq!(brand_from_name(None), Brand::Tropical);
    assert_eq!(brand_from_name(Some("mango")), Brand::Mango);
    assert_eq!(brand_from_name(Some("ocean")), Brand::Ocean);
    assert_eq!(brand_from_name(Some("pitahaya")), Brand::Pitahaya);
    assert_eq!(brand_from_name(Some("papaya")), Brand::Papaya);
    assert_eq!(brand_from_name(Some("balandra")), Brand::Balandra);
    assert_eq!(brand_from_name(Some("Mango")), Brand::Tropical);
    assert_eq!(brand_from_name(Some("")), Brand::Tropical);
}

#[test]
fn creation_steps() {
    assert_eq!(CreateStep::first(false, true), CreateStep::MakeDirectory);
    assert_eq!(CreateStep::first(true, true), CreateStep::Done);
    assert_eq!(CreateStep::first(false, false), CreateStep::Done);
    assert_eq!(CreateStep::MakeDirectory.next(true), CreateStep::CopyTemplate);
    assert_eq!(CreateStep::MakeDirectory.next(false), CreateStep::Done);
    assert_eq!(CreateStep::CopyTemplate.next(false), CreateStep::InitRepository);
    assert_eq!(CreateStep::InitRepository.next(true), CreateStep::Done);
    assert_eq!(CreateStep::Done.next(true), CreateStep::Done);
}

#[test]
fn any_number_of_steps_goes_round() {
    for n in 1..5 {
        for i in 0..n {
            for k in 0..12 {
                let mut app = app_with(n);
                app.select_index(i);
                for _ in 0..k {
                    app.next();
                }
                assert_eq!(app.list_state.selected, Some((i + k) % n));
                for _ in 0..k {
                    app.previous();
                }
                assert_eq!(app.list_state.selected, Some(i));
                for _ in 0..k {
                    app.previous();
                }
                assert_eq!(app.list_state.selected, Some((i + 12 * n - k) % n));
            }
        }
    }
}

#[test]
fn questions_that_ask_for_nothing() {
    for key in [Key::Char('y'), Key::Enter] {
        let mut app = asking(ActionMode::Nothing);
        let message = app.status_message.clone();
        assert_eq!(app.handle_event(Event::Press(key)), Action::Nothing);
        assert!(app.confirm_data.is_none());
        assert_eq!(app.input_mode, InputMode::Normal);
        assert_eq!(app.status_message, message);
        let mut app = asking(ActionMode::TestRemotes);
        app.confirm_data = None;
        assert_eq!(app.handle_event(Event::Press(key)), Action::Nothing);
        assert_eq!(app.input_mode, InputMode::Normal);
    }
}
