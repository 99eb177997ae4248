use rustrdp::config::{Config, Server};
use rustrdp::desktop::Resolution;
use rustrdp::input::{mouse_move, InputEvent, Key, Modifiers, PointerFocus};
use rustrdp::session::{ToUi, ToWorker};
use rustrdp::window::{App, ConnTab, Editor, EditorInput};

const FOCUS: PointerFocus = PointerFocus { hovered: true, button_down: false };
const SAVE: EditorInput = EditorInput { save: true, cancel: false, open: true };

fn named(name: &str) -> Server {
    let mut server = Server::default();
    server.name = name.into();
    server.username = "me".into();
    server
}

fn app(names: &[&str]) -> App {
    let mut config = Config::default();
    config.servers = names.iter().map(|name| named(name)).collect();
    App::new(Some(config))
}

fn names(app: &App) -> Vec<&str> {
    app.config.servers.iter().map(|server| server.name.as_str()).collect()
}

fn tab_names(app: &App) -> Vec<&str> {
    app.tabs.iter().map(|tab| tab.server_name.as_str()).collect()
}

/// A tab with a picture on a desktop of 1280 by 800.
fn connected_tab() -> App {
    let mut app = app(&["a"]);
    app.connect(0);
    app.tabs[0].receive(ToUi::Connected { width: 1280, height: 800 });
    app.tabs[0].receive(ToUi::Frame { width: 1, height: 1, rgba: vec![0; 4] });
    app
}

fn size_of(message: Option<ToWorker>) -> Option<(u16, u16)> {
    match message {
        Some(ToWorker::Resize { width, height }) => Some((width, height)),
        None => None,
        Some(other) => panic!("{other:?}"),
    }
}

#[test]
fn app_starts_empty() {
    let app = App::new(None);
    assert!(app.config.servers.is_empty() && app.tabs.is_empty());
    assert!(app.selected.is_none() && app.active_tab.is_none() && app.editor.is_none());
    assert_eq!(app.last_central_size, (1280, 800));
}

#[test]
fn connecting_opens_a_tab() {
    let mut app = app(&["a", "b"]);
    app.set_central_size(1001, 0);
    assert_eq!(app.last_central_size, (1001, 1));
    let request = app.connect(1);
    assert_eq!(request.server.name, "b");
    assert_eq!(request.username, "me");
    assert_eq!((request.width, request.height), (1000, 200));
    let tab: &ConnTab = &app.tabs[0];
    assert_eq!(tab.server_name, "b");
    assert_eq!(tab.status, "Connecting...");
    assert!(!tab.connected && !tab.has_texture);
    assert_eq!((tab.desktop_size, tab.requested_size), ((1000, 200), (1000, 200)));
    assert_eq!(tab.resolution, Resolution::FitToWindow);
    assert_eq!(app.active_tab, Some(0));
}

#[test]
fn only_a_selected_server_is_connected() {
    let mut app = app(&["a", "b"]);
    assert!(app.connect_selected().is_none());
    assert!(app.tabs.is_empty());
    app.select(1);
    assert_eq!(app.connect_selected().unwrap().server.name, "b");
}

#[test]
fn closing_keeps_a_tab_active() {
    let mut app = app(&["a", "b", "c"]);
    for i in 0..3 {
        app.connect(i);
    }
    assert_eq!(app.active_tab, Some(2));
    assert!(!app.close_tab(3));
    assert!(app.close_tab(0));
    assert_eq!((tab_names(&app), app.active_tab), (vec!["b", "c"], Some(1)));
    app.activate_tab(0);
    assert!(app.close_tab(1));
    assert_eq!((tab_names(&app), app.active_tab), (vec!["b"], Some(0)));
    assert!(app.close_tab(0));
    assert_eq!(app.active_tab, None);
    assert!(!app.close_tab(0));
}

#[test]
fn closing_shuts_the_worker_down() {
    let mut app = app(&["a", "b"]);
    app.connect(0);
    app.connect(1);
    assert!(matches!(app.close(0), Some(ToWorker::Shutdown)));
    assert_eq!((tab_names(&app), app.active_tab), (vec!["b"], Some(0)));
    assert!(app.close(1).is_none());
    assert_eq!((tab_names(&app), app.active_tab), (vec!["b"], Some(0)));
    assert!(matches!(app.close(0), Some(ToWorker::Shutdown)));
    assert!(app.close(0).is_none());
    assert_eq!(app.active_tab, None);
}

#[test]
fn messages_change_the_status() {
    let mut app = app(&["a"]);
    app.connect(0);
    let tab = &mut app.tabs[0];
    assert!(tab.receive(ToUi::Connected { width: 1366, height: 768 }).is_none());
    assert_eq!(tab.status, "Connected (1366x768)");
    assert!(tab.connected);
    assert_eq!((tab.desktop_size, tab.requested_size), ((1366, 768), (1366, 768)));
    assert!(tab.receive(ToUi::Disconnected("bye".into())).is_none());
    assert_eq!(tab.status, "Disconnected: bye");
    assert!(!tab.connected);
    assert!(tab.receive(ToUi::Error("password command failed: no".into())).is_none());
    assert_eq!(tab.status, "Error: password command failed: no");
}

#[test]
fn first_picture_needs_a_texture() {
    let mut app = app(&["a"]);
    app.connect(0);
    let frame = || ToUi::Frame { width: 2, height: 1, rgba: vec![1, 2, 3, 4, 5, 6, 7, 8] };
    let first = app.tabs[0].receive(frame()).unwrap();
    assert_eq!(first.new_texture.as_deref(), Some("rdp-a"));
    assert_eq!((first.width, first.height), (2, 1));
    assert_eq!(first.rgba, vec![1, 2, 3, 4, 5, 6, 7, 8]);
    assert!(app.tabs[0].receive(frame()).unwrap().new_texture.is_none());
}

#[test]
fn resize_follows_the_room_with_a_tolerance() {
    let mut app = connected_tab();
    let tab = &mut app.tabs[0];
    assert_eq!(size_of(tab.resize((1282, 802))), None);
    assert_eq!(size_of(tab.resize((1280, 803))), Some((1280, 803)));
    assert_eq!(size_of(tab.resize((1280, 803))), None);
    assert_eq!(size_of(tab.resize((1, 60000))), Some((200, 8192)));
}

#[test]
fn fixed_resolution_ignores_the_room() {
    let mut app = connected_tab();
    let tab = &mut app.tabs[0];
    tab.resolution = Resolution::Fixed(1024, 768);
    assert_eq!(size_of(tab.resize((1280, 800))), Some((1024, 768)));
    // The server rounds a little: that is accepted.
    tab.receive(ToUi::Connected { width: 1022, height: 768 });
    assert_eq!(size_of(tab.resize((1280, 800))), None);
}

#[test]
fn lost_connections_send_nothing() {
    let mut app = connected_tab();
    let tab = &mut app.tabs[0];
    tab.receive(ToUi::Error("gone".into()));
    assert_eq!(size_of(tab.resize((300, 300))), None);
    assert!(tab.input(Some((1, 2)), &Vec::new(), FOCUS).is_none());
}

#[test]
fn input_starts_with_the_pointer() {
    let mut app = connected_tab();
    let tab = &mut app.tabs[0];
    assert!(tab.input(None, &vec![InputEvent::Other], FOCUS).is_none());
    let modifiers = Modifiers { alt: false, ctrl: false, shift: true, command: false };
    let events = vec![InputEvent::Key { key: Key::A, pressed: true, modifiers }];
    match tab.input(Some((1, 2)), &events, FOCUS) {
        Some(ToWorker::Input(ops)) => {
            assert_eq!(ops.len(), 3);
            assert_eq!(ops[0], mouse_move(1, 2));
        }
        other => panic!("{other:?}"),
    }
    assert!(tab.held_keys.contains(&0x2A) && tab.held_keys.contains(&0x1E));
}

#[test]
fn input_waits_for_a_picture() {
    let mut app = app(&["a"]);
    app.connect(0);
    let tab = &mut app.tabs[0];
    tab.receive(ToUi::Connected { width: 1280, height: 800 });
    assert!(tab.input(Some((1, 2)), &Vec::new(), FOCUS).is_none());
}

#[test]
fn servers_are_added() {
    let mut app = app(&["a"]);
    app.add_server();
    assert_eq!(app.editor.as_ref().unwrap().title(), "Add Server");
    app.editor.as_mut().unwrap().server.name = "b".into();
    assert!(app.finish_editor(SAVE));
    assert!(app.editor.is_none());
    assert_eq!(names(&app), vec!["a", "b"]);
}

#[test]
fn servers_are_changed() {
    let mut app = app(&["a", "b"]);
    app.edit_server();
    assert!(app.editor.is_none());
    app.select(1);
    app.edit_server();
    assert_eq!(app.editor.as_ref().unwrap().title(), "Edit Server");
    app.editor.as_mut().unwrap().server.name = "c".into();
    assert!(app.finish_editor(SAVE));
    assert_eq!(names(&app), vec!["a", "c"]);
}

#[test]
fn servers_are_removed() {
    let mut app = app(&["a", "b"]);
    assert!(!app.remove_server());
    app.select(0);
    assert!(app.remove_server());
    assert_eq!((names(&app), app.selected), (vec!["b"], None));
}

#[test]
fn editor_stays_until_it_is_closed() {
    let mut app = app(&[]);
    assert!(!app.finish_editor(SAVE));
    app.add_server();
    assert!(!app.finish_editor(EditorInput { save: false, cancel: false, open: true }));
    assert!(app.editor.is_some());
    assert!(!app.finish_editor(EditorInput { save: false, cancel: true, open: true }));
    assert!(app.editor.is_none());
    app.add_server();
    assert!(!app.finish_editor(EditorInput { save: false, cancel: false, open: false }));
    assert!(app.editor.is_none() && app.config.servers.is_empty());
}

#[test]
fn typed_port_has_to_be_one() {
    let mut editor = Editor { index: None, server: Server::default() };
    editor.set_port("3390");
    assert_eq!(editor.server.port, 3390);
    editor.set_port("70000");
    editor.set_port("");
    editor.set_port("x");
    assert_eq!(editor.server.port, 3390);
}
