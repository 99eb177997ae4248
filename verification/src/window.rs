//! The state behind the window: the list of servers, the open connections and the editor.
use std::collections::HashSet;

use vstd::prelude::*;

use crate::config::{Config, Server};
use crate::desktop::{clamp_desktop, clamped_desktop, distance, is_valid_size, Resolution};
use crate::input::{
    held_after, mouse_move, operations_for, translate_events, InputEvent, MousePosition, Operation,
    PointerFocus,
};
use crate::session::{SessionRequest, ToUi, ToWorker};
use crate::text::{decimal, decimal_string, law_decimal_reads_back, parse_u16, parsed_u16};

verus! {

/// How far a side may be from the size that was asked for before another one is asked for.
pub const SIZE_TOLERANCE: u16 = 2;

/// An open connection.
#[derive(Debug)]
pub struct ConnTab {
    pub server_name: String,
    /// Whether a picture of the desktop has arrived.
    pub has_texture: bool,
    pub desktop_size: (u16, u16),
    /// The size that was asked for last.
    pub requested_size: (u16, u16),
    /// The chosen resolution.
    pub resolution: Resolution,
    pub status: String,
    pub connected: bool,
    /// The scancodes that are held down.
    pub held_keys: HashSet<u16>,
}

/// An open connection.
#[verifier::ext_equal]
pub struct TabView {
    pub server_name: Seq<char>,
    pub has_texture: bool,
    pub desktop_size: (u16, u16),
    pub requested_size: (u16, u16),
    pub resolution: Resolution,
    pub status: Seq<char>,
    pub connected: bool,
    pub held_keys: Set<u16>,
}

impl View for ConnTab {
    type V = TabView;

    open spec fn view(&self) -> TabView {
        TabView {
            server_name: self.server_name@,
            has_texture: self.has_texture,
            desktop_size: self.desktop_size,
            requested_size: self.requested_size,
            resolution: self.resolution,
            status: self.status@,
            connected: self.connected,
            held_keys: self.held_keys@,
        }
    }
}

/// A picture of the desktop that is to be shown.
#[derive(Debug)]
pub struct Picture {
    /// The name of the texture to make for it; none where there is one already.
    pub new_texture: Option<String>,
    pub width: u16,
    pub height: u16,
    pub rgba: Vec<u8>,
}

/// The status of a connection with a desktop of the given size.
pub open spec fn connected_status(width: u16, height: u16) -> Seq<char> {
    "Connected ("@ + decimal(width as nat) + "x"@ + decimal(height as nat) + ")"@
}

/// Whether two lengths differ by more than the tolerance.
pub open spec fn differ(a: u16, b: u16) -> bool {
    a - b > SIZE_TOLERANCE || b - a > SIZE_TOLERANCE
}

impl TabView {
    /// A connection that is being made.
    pub open spec fn connecting(name: Seq<char>, size: (u16, u16)) -> TabView {
        TabView {
            server_name: name,
            has_texture: false,
            desktop_size: size,
            requested_size: size,
            resolution: Resolution::FitToWindow,
            status: "Connecting..."@,
            connected: false,
            held_keys: Set::empty(),
        }
    }

    /// The connection after a message of its worker.
    pub open spec fn after(self, message: ToUi) -> TabView {
        match message {
            ToUi::Connected { width, height } => TabView {
                desktop_size: (width, height),
                requested_size: (width, height),
                connected: true,
                status: connected_status(width, height),
                ..self
            },
            ToUi::Frame { .. } => TabView { has_texture: true, ..self },
            ToUi::Disconnected(reason) => TabView {
                connected: false,
                status: "Disconnected: "@ + reason@,
                ..self
            },
            ToUi::Error(text) => TabView { connected: false, status: "Error: "@ + text@, ..self },
        }
    }

    /// The size that the desktop should have where there is room for `available`.
    pub open spec fn wanted_size(self, available: (u16, u16)) -> (u16, u16) {
        match self.resolution {
            Resolution::FitToWindow => clamped_desktop(available),
            Resolution::Fixed(width, height) => clamped_desktop((width, height)),
        }
    }

    /// Whether another size is to be asked for where there is room for `available`.
    pub open spec fn wants_resize(self, available: (u16, u16)) -> bool {
        let wanted = self.wanted_size(available);
        self.connected && (differ(wanted.0, self.requested_size.0) || differ(
            wanted.1,
            self.requested_size.1,
        ))
    }

    /// The connection after it was drawn where there is room for `available`.
    pub open spec fn after_resize(self, available: (u16, u16)) -> TabView {
        if self.wants_resize(available) {
            TabView { requested_size: self.wanted_size(available), ..self }
        } else {
            self
        }
    }

    /// The operations for the pointer and the events of the window; none before there is a
    /// picture.
    pub open spec fn operations(
        self,
        pointer: Option<(u16, u16)>,
        events: Seq<InputEvent>,
        focus: PointerFocus,
    ) -> Seq<Operation> {
        if !self.has_texture {
            seq![]
        } else {
            let moves = match pointer {
                Some((x, y)) => seq![Operation::MouseMove(MousePosition { x, y })],
                None => seq![],
            };
            moves + operations_for(events, focus, self.held_keys)
        }
    }

    /// The connection after events of the window.
    pub open spec fn after_input(self, events: Seq<InputEvent>) -> TabView {
        if !self.has_texture {
            self
        } else {
            TabView { held_keys: held_after(events, self.held_keys), ..self }
        }
    }
}

impl ConnTab {
    fn new(name: String, size: (u16, u16)) -> (tab: ConnTab)
        ensures
            tab@ == TabView::connecting(name@, size),
    {
        ConnTab {
            server_name: name,
            has_texture: false,
            desktop_size: size,
            requested_size: size,
            resolution: Resolution::FitToWindow,
            status: "Connecting...".to_owned(),
            connected: false,
            held_keys: HashSet::new(),
        }
    }

    /// Takes note of a message of the worker. A picture of the desktop is handed back: the first
    /// one needs a texture, which is named after the server.
    pub fn receive(&mut self, message: ToUi) -> (picture: Option<Picture>)
        ensures
            final(self)@ == old(self)@.after(message),
            match (message, picture) {
                (ToUi::Frame { width, height, rgba }, Some(picture)) => {
                    &&& picture.width == width
                    &&& picture.height == height
                    &&& picture.rgba@ == rgba@
                    &&& match picture.new_texture {
                        Some(name) => !old(self)@.has_texture && name@ == "rdp-"@ + old(
                            self,
                        )@.server_name,
                        None => old(self)@.has_texture,
                    }
                },
                (ToUi::Frame { .. }, None) => false,
                (_, Some(_)) => false,
                (_, None) => true,
            },
    {
        match message {
            ToUi::Connected { width, height } => {
                self.desktop_size = (width, height);
                // The size that the server has set counts as the one asked for, so that another
                // one is asked for only when the room changes.
                self.requested_size = (width, height);
                self.connected = true;
                let mut status = "Connected (".to_owned();
                status.append(decimal_string(width).as_str());
                status.append("x");
                status.append(decimal_string(height).as_str());
                status.append(")");
                self.status = status;
                None
            },
            ToUi::Frame { width, height, rgba } => {
                let new_texture = if self.has_texture {
                    None
                } else {
                    let mut name = "rdp-".to_owned();
                    name.append(self.server_name.as_str());
                    Some(name)
                };
                self.has_texture = true;
                Some(Picture { new_texture, width, height, rgba })
            },
            ToUi::Disconnected(reason) => {
                self.connected = false;
                let mut status = "Disconnected: ".to_owned();
                status.append(reason.as_str());
                self.status = status;
                None
            },
            ToUi::Error(text) => {
                self.connected = false;
                let mut status = "Error: ".to_owned();
                status.append(text.as_str());
                self.status = status;
                None
            },
        }
    }

    /// Asks the worker for another size where the room or the chosen resolution calls for it. A
    /// small tolerance avoids going back and forth when the server rounds.
    pub fn resize(&mut self, available: (u16, u16)) -> (message: Option<ToWorker>)
        ensures
            final(self)@ == old(self)@.after_resize(available),
            message == if old(self)@.wants_resize(available) {
                Some(
                    ToWorker::Resize {
                        width: old(self)@.wanted_size(available).0,
                        height: old(self)@.wanted_size(available).1,
                    },
                )
            } else {
                None
            },
    {
        let (width, height) = match self.resolution {
            Resolution::FitToWindow => clamp_desktop(available),
            Resolution::Fixed(width, height) => clamp_desktop((width, height)),
        };
        let (last_width, last_height) = self.requested_size;
        let changed = exceeds_tolerance(width, last_width) || exceeds_tolerance(
            height,
            last_height,
        );
        if self.connected && changed {
            self.requested_size = (width, height);
            Some(ToWorker::Resize { width, height })
        } else {
            None
        }
    }

    /// Turns the pointer position and the events of the window into input for the worker. Nothing
    /// is sent where there is nothing to send or no connection.
    pub fn input(
        &mut self,
        pointer: Option<(u16, u16)>,
        events: &Vec<InputEvent>,
        focus: PointerFocus,
    ) -> (message: Option<ToWorker>)
        ensures
            final(self)@ == old(self)@.after_input(events@),
            match message {
                Some(ToWorker::Input(operations)) => {
                    &&& operations@ == old(self)@.operations(pointer, events@, focus)
                    &&& operations@.len() > 0
                    &&& old(self)@.connected
                },
                Some(_) => false,
                None => old(self)@.operations(pointer, events@, focus).len() == 0 || !old(
                    self,
                )@.connected,
            },
    {
        if !self.has_texture {
            return None;
        }
        let mut operations: Vec<Operation> = Vec::new();
        if let Some((x, y)) = pointer {
            operations.push(mouse_move(x, y));
        }
        let mut translated = translate_events(events, focus, &mut self.held_keys);
        operations.append(&mut translated);
        assert(operations@ == old(self)@.operations(pointer, events@, focus));
        if operations.len() > 0 && self.connected {
            Some(ToWorker::Input(operations))
        } else {
            None
        }
    }
}

/// Whether two lengths differ by more than the tolerance.
fn exceeds_tolerance(a: u16, b: u16) -> (yes: bool)
    ensures
        yes == differ(a, b),
{
    if a > b {
        a - b > SIZE_TOLERANCE
    } else {
        b - a > SIZE_TOLERANCE
    }
}

/// A server that is being added or changed.
#[derive(Debug)]
pub struct Editor {
    /// The place of the server in the list; none for a new one.
    pub index: Option<usize>,
    pub server: Server,
}

impl Editor {
    /// The title of the editor.
    pub fn title(&self) -> (title: &'static str)
        ensures
            title@ == match self.index {
                Some(_) => "Edit Server"@,
                None => "Add Server"@,
            },
    {
        match self.index {
            Some(_) => "Edit Server",
            None => "Add Server",
        }
    }

    /// Takes over a port that was typed; what is no port is left alone.
    pub fn set_port(&mut self, text: &str)
        ensures
            *final(self) == (Editor {
                server: Server {
                    port: match parsed_u16(text@) {
                        Some(port) => port,
                        None => old(self).server.port,
                    },
                    ..old(self).server
                },
                ..*old(self)
            }),
    {
        if let Some(port) = parse_u16(text) {
            self.server.port = port;
        }
    }
}

/// What the user has done in the editor.
#[derive(Debug, Clone, Copy, PartialEq, Eq, Structural)]
pub struct EditorInput {
    pub save: bool,
    pub cancel: bool,
    /// Whether the editor is still open.
    pub open: bool,
}

/// The state behind the window.
#[derive(Debug)]
pub struct App {
    pub config: Config,
    pub selected: Option<usize>,
    pub tabs: Vec<ConnTab>,
    pub active_tab: Option<usize>,
    pub editor: Option<Editor>,
    /// The room for a connection, as it was last.
    pub last_central_size: (u16, u16),
}

impl App {
    /// What is selected is in the list, and one of the open connections, if any, is active.
    pub open spec fn well_formed(self) -> bool {
        &&& self.selected matches Some(i) ==> i < self.config.servers@.len()
        &&& match self.active_tab {
            Some(i) => i < self.tabs@.len(),
            None => self.tabs@.len() == 0,
        }
    }

    /// Whether the servers and the other settings are the same.
    pub open spec fn same_config(self, other: App) -> bool {
        &&& self.config == other.config
        &&& self.selected == other.selected
    }

    /// Whether the connections are the same.
    pub open spec fn same_tabs(self, other: App) -> bool {
        &&& self.tabs == other.tabs
        &&& self.active_tab == other.active_tab
        &&& self.last_central_size == other.last_central_size
    }

    /// The state at the start, given what was read and understood of the configuration file.
    pub fn new(parsed: Option<Config>) -> (app: App)
        ensures
            app.well_formed(),
            match parsed {
                Some(read) => app.config == read,
                None => app.config.is_empty(),
            },
            app.selected is None,
            app.tabs@.len() == 0,
            app.editor is None,
            app.last_central_size == (1280u16, 800u16),
    {
        App {
            config: Config::load(parsed),
            selected: None,
            tabs: Vec::new(),
            active_tab: None,
            editor: None,
            last_central_size: (1280, 800),
        }
    }

    /// Opens a connection to a server of the list, which then is the active one. Its desktop is
    /// to fill the room that there is.
    pub fn connect(&mut self, index: usize) -> (request: SessionRequest)
        requires
            old(self).well_formed(),
            index < old(self).config.servers@.len(),
        ensures
            final(self).well_formed(),
            final(self).same_config(*old(self)),
            final(self).editor == old(self).editor,
            final(self).last_central_size == old(self).last_central_size,
            final(self).tabs@.len() == old(self).tabs@.len() + 1,
            final(self).tabs@.drop_last() == old(self).tabs@,
            final(self).tabs@.last()@ == TabView::connecting(
                old(self).config.servers@[index as int].name@,
                clamped_desktop(old(self).last_central_size),
            ),
            final(self).active_tab == Some(old(self).tabs.len()),
            request.is_for(
                old(self).config,
                old(self).config.servers@[index as int],
                clamped_desktop(old(self).last_central_size),
            ),
    {
        let size = clamp_desktop(self.last_central_size);
        let request = SessionRequest::new(&self.config, &self.config.servers[index], size);
        let tab = ConnTab::new(self.config.servers[index].name.clone(), size);
        let place: usize = self.tabs.len();
        self.tabs.push(tab);
        self.active_tab = Some(place);
        assert(self.tabs@.drop_last() == old(self).tabs@);
        request
    }

    /// Opens a connection to the selected server.
    pub fn connect_selected(&mut self) -> (request: Option<SessionRequest>)
        requires
            old(self).well_formed(),
        ensures
            final(self).well_formed(),
            match (old(self).selected, request) {
                (Some(index), Some(request)) => {
                    &&& final(self).same_config(*old(self))
                    &&& final(self).editor == old(self).editor
                    &&& final(self).last_central_size == old(self).last_central_size
                    &&& final(self).tabs@.len() == old(self).tabs@.len() + 1
                    &&& final(self).tabs@.drop_last() == old(self).tabs@
                    &&& final(self).tabs@.last()@ == TabView::connecting(
                        old(self).config.servers@[index as int].name@,
                        clamped_desktop(old(self).last_central_size),
                    )
                    &&& final(self).active_tab == Some(old(self).tabs.len())
                    &&& request.is_for(
                        old(self).config,
                        old(self).config.servers@[index as int],
                        clamped_desktop(old(self).last_central_size),
                    )
                },
                (None, None) => *final(self) == *old(self),
                _ => false,
            },
    {
        match self.selected {
            Some(index) => Some(self.connect(index)),
            None => None,
        }
    }

    /// Whether this is `before` without its connection `i`. The others stay in order, and the
    /// active place stays the same as far as there are connections left for it.
    pub open spec fn is_without_tab(self, before: App, i: int) -> bool {
        let left = before.tabs@.len() - 1;
        &&& self.same_config(before)
        &&& self.editor == before.editor
        &&& self.last_central_size == before.last_central_size
        &&& self.tabs@ == before.tabs@.remove(i)
        &&& match (before.active_tab, self.active_tab) {
            (Some(place), Some(after)) => left > 0 && after == if place < left {
                place as int
            } else {
                left - 1
            },
            (_, None) => left == 0,
            _ => false,
        }
    }

    /// Closes a connection and gives the message for its worker, the only one that is to get any.
    pub fn close(&mut self, i: usize) -> (message: Option<ToWorker>)
        requires
            old(self).well_formed(),
        ensures
            final(self).well_formed(),
            message == if i < old(self).tabs@.len() {
                Some(ToWorker::Shutdown)
            } else {
                None
            },
            if i < old(self).tabs@.len() {
                final(self).is_without_tab(*old(self), i as int)
            } else {
                *final(self) == *old(self)
            },
    {
        if self.close_tab(i) {
            Some(ToWorker::Shutdown)
        } else {
            None
        }
    }

    /// Closes a connection and says whether there was one.
    pub fn close_tab(&mut self, i: usize) -> (closed: bool)
        requires
            old(self).well_formed(),
        ensures
            final(self).well_formed(),
            closed == (i < old(self).tabs@.len()),
            if closed {
                final(self).is_without_tab(*old(self), i as int)
            } else {
                *final(self) == *old(self)
            },
    {
        if i >= self.tabs.len() {
            return false;
        }
        self.tabs.remove(i);
        if self.tabs.len() == 0 {
            self.active_tab = None;
        } else if let Some(active) = self.active_tab {
            if active >= self.tabs.len() {
                self.active_tab = Some(self.tabs.len() - 1);
            }
        }
        true
    }

    /// Selects a server of the list.
    pub fn select(&mut self, index: usize)
        requires
            old(self).well_formed(),
            index < old(self).config.servers@.len(),
        ensures
            final(self).well_formed(),
            *final(self) == (App { selected: Some(index), ..*old(self) }),
    {
        self.selected = Some(index);
    }

    /// Brings a connection to the front.
    pub fn activate_tab(&mut self, i: usize)
        requires
            old(self).well_formed(),
            i < old(self).tabs@.len(),
        ensures
            final(self).well_formed(),
            *final(self) == (App { active_tab: Some(i), ..*old(self) }),
    {
        self.active_tab = Some(i);
    }

    /// Takes note of the room that there is for a connection, which is never nothing.
    pub fn set_central_size(&mut self, width: u16, height: u16)
        requires
            old(self).well_formed(),
        ensures
            final(self).well_formed(),
            *final(self) == (App {
                last_central_size: (
                    if width == 0 {
                        1
                    } else {
                        width
                    },
                    if height == 0 {
                        1
                    } else {
                        height
                    },
                ),
                ..*old(self)
            }),
    {
        let width: u16 = if width == 0 {
            1
        } else {
            width
        };
        let height: u16 = if height == 0 {
            1
        } else {
            height
        };
        self.last_central_size = (width, height);
    }

    /// Opens the editor for a new server.
    pub fn add_server(&mut self)
        requires
            old(self).well_formed(),
        ensures
            final(self).well_formed(),
            final(self).same_config(*old(self)),
            final(self).same_tabs(*old(self)),
            final(self).editor matches Some(editor) && editor.index is None
                && editor.server.is_blank(),
    {
        self.editor = Some(Editor { index: None, server: Server::default() });
    }

    /// Opens the editor for the selected server, if there is one.
    pub fn edit_server(&mut self)
        requires
            old(self).well_formed(),
        ensures
            final(self).well_formed(),
            final(self).same_config(*old(self)),
            final(self).same_tabs(*old(self)),
            final(self).editor == match old(self).selected {
                Some(i) => Some(
                    Editor { index: Some(i), server: old(self).config.servers@[i as int] },
                ),
                None => old(self).editor,
            },
    {
        if let Some(i) = self.selected {
            self.editor = Some(Editor { index: Some(i), server: self.config.servers[i].clone() });
        }
    }

    /// Removes the selected server, if there is one, and says whether the configuration is to be
    /// saved. Nothing is selected then.
    pub fn remove_server(&mut self) -> (save: bool)
        requires
            old(self).well_formed(),
        ensures
            final(self).well_formed(),
            final(self).same_tabs(*old(self)),
            final(self).editor == old(self).editor,
            final(self).selected is None,
            save == (old(self).selected is Some),
            final(self).config.clipboard_passthrough == old(self).config.clipboard_passthrough,
            final(self).config.credentials == old(self).config.credentials,
            final(self).config.servers@ == match old(self).selected {
                Some(i) => old(self).config.servers@.remove(i as int),
                None => old(self).config.servers@,
            },
    {
        match self.selected {
            Some(i) => {
                self.config.servers.remove(i);
                self.selected = None;
                true
            },
            None => false,
        }
    }

    /// Whether the editor can be saved: the server that it changes is still in the list.
    pub open spec fn can_save(self) -> bool {
        self.editor matches Some(editor) ==> (editor.index matches Some(i) ==> i
            < self.config.servers@.len())
    }

    /// Does what the user has chosen in the editor and says whether the configuration is to be
    /// saved. The editor stays open unless it is saved, cancelled or closed.
    pub fn finish_editor(&mut self, input: EditorInput) -> (save: bool)
        requires
            old(self).well_formed(),
            input.save ==> old(self).can_save(),
        ensures
            final(self).well_formed(),
            final(self).same_tabs(*old(self)),
            final(self).selected == old(self).selected,
            final(self).config.clipboard_passthrough == old(self).config.clipboard_passthrough,
            final(self).config.credentials == old(self).config.credentials,
            save == (old(self).editor is Some && input.save),
            match old(self).editor {
                Some(editor) if input.save => {
                    &&& final(self).editor is None
                    &&& final(self).config.servers@ == match editor.index {
                        Some(i) => old(self).config.servers@.update(i as int, editor.server),
                        None => old(self).config.servers@.push(editor.server),
                    }
                },
                _ => {
                    &&& final(self).editor == if !input.save && (input.cancel || !input.open) {
                        None
                    } else {
                        old(self).editor
                    }
                    &&& final(self).config.servers == old(self).config.servers
                },
            },
    {
        let mut taken: Option<Editor> = None;
        core::mem::swap(&mut taken, &mut self.editor);
        match taken {
            None => false,
            Some(editor) => {
                if input.save {
                    match editor.index {
                        Some(i) => {
                            self.config.servers.set(i, editor.server);
                        },
                        None => {
                            self.config.servers.push(editor.server);
                        },
                    }
                    true
                } else {
                    if !input.cancel && input.open {
                        self.editor = Some(editor);
                    }
                    false
                }
            },
        }
    }
}

/// A size that the window asks for is one that the protocol allows.
pub proof fn law_wanted_sizes_are_valid(tab: TabView, available: (u16, u16))
    ensures
        is_valid_size(tab.wanted_size(available).0 as int, tab.wanted_size(available).1 as int),
{
}

/// A size is asked for once: while the room and the resolution stay the same, nothing more is
/// asked for.
pub proof fn law_resize_settles(tab: TabView, available: (u16, u16))
    ensures
        !tab.after_resize(available).wants_resize(available),
{
}

/// Rounding by the server does not go back and forth: where it sets a size whose sides are within
/// the tolerance of the wanted ones, no other size is asked for.
pub proof fn law_rounding_is_accepted(
    tab: TabView,
    available: (u16, u16),
    width: u16,
    height: u16,
)
    requires
        !differ(tab.wanted_size(available).0, width),
        !differ(tab.wanted_size(available).1, height),
    ensures
        !tab.after(ToUi::Connected { width, height }).wants_resize(available),
{
}

/// A connection that is not up asks for no size.
pub proof fn law_only_connected_tabs_resize(tab: TabView, available: (u16, u16), message: ToUi)
    requires
        message is Disconnected || message is Error,
    ensures
        !tab.after(message).wants_resize(available),
        !tab.after(message).connected,
{
}

/// A connection that is being made has the name of its server, the size that was asked for, no
/// picture and nothing held.
pub proof fn law_new_tab_is_connecting(name: Seq<char>, size: (u16, u16))
    ensures
        ({
            let tab = TabView::connecting(name, size);
            &&& tab.server_name == name
            &&& tab.desktop_size == size
            &&& tab.requested_size == size
            &&& tab.resolution == Resolution::FitToWindow
            &&& tab.status == "Connecting..."@
            &&& !tab.connected
            &&& !tab.has_texture
            &&& tab.held_keys == Set::<u16>::empty()
        }),
{
}

/// A notice of a connection makes the tab connected, with the size that it gives as that of the
/// desktop and as the one asked for, and shows that size.
pub proof fn law_connected_tab_shows_its_size(tab: TabView, width: u16, height: u16)
    ensures
        ({
            let after = tab.after(ToUi::Connected { width, height });
            &&& after.connected
            &&& after.desktop_size == (width, height)
            &&& after.requested_size == (width, height)
            &&& after.status == "Connected ("@ + decimal(width as nat) + "x"@ + decimal(
                height as nat,
            ) + ")"@
            &&& parsed_u16(decimal(width as nat)) == Some(width)
            &&& parsed_u16(decimal(height as nat)) == Some(height)
            &&& after.server_name == tab.server_name
            &&& after.has_texture == tab.has_texture
            &&& after.resolution == tab.resolution
            &&& after.held_keys == tab.held_keys
        }),
{
    law_decimal_reads_back(width);
    law_decimal_reads_back(height);
}

/// A picture is noted and changes nothing else. An end or an error disconnects the tab and shows
/// its reason, and the last picture and size stay.
pub proof fn law_other_messages_are_noted(tab: TabView, message: ToUi)
    requires
        !(message is Connected),
    ensures
        ({
            let after = tab.after(message);
            &&& after.server_name == tab.server_name
            &&& after.desktop_size == tab.desktop_size
            &&& after.requested_size == tab.requested_size
            &&& after.resolution == tab.resolution
            &&& after.held_keys == tab.held_keys
            &&& match message {
                ToUi::Disconnected(reason) => {
                    &&& !after.connected
                    &&& after.status == "Disconnected: "@ + reason@
                    &&& after.has_texture == tab.has_texture
                },
                ToUi::Error(text) => {
                    &&& !after.connected
                    &&& after.status == "Error: "@ + text@
                    &&& after.has_texture == tab.has_texture
                },
                _ => {
                    &&& after.connected == tab.connected
                    &&& after.status == tab.status
                    &&& after.has_texture
                },
            }
        }),
{
}

/// The wanted size follows the room in the window, or the chosen resolution whatever the room: a
/// size that the protocol allows is wanted as it is, and else the nearest one.
pub proof fn law_wanted_size_follows_the_choice(
    tab: TabView,
    available: (u16, u16),
    width: int,
    height: int,
)
    requires
        200 <= width <= 8192 && width % 2 == 0,
        200 <= height <= 8192,
    ensures
        ({
            let goal = match tab.resolution {
                Resolution::FitToWindow => available,
                Resolution::Fixed(w, h) => (w, h),
            };
            let (w, h) = tab.wanted_size(available);
            &&& (goal.0 == width ==> w == width)
            &&& (goal.1 == height ==> h == height)
            &&& distance(w as int, goal.0 as int) <= distance(width, goal.0 as int)
            &&& distance(h as int, goal.1 as int) <= distance(height, goal.1 as int)
        }),
{
}

/// Another size is asked for exactly where the connection is up and the wanted width or height is
/// more than two pixels away from the one asked for last; then it is the wanted one.
pub proof fn law_resize_is_asked_for_when_needed(tab: TabView, available: (u16, u16))
    ensures
        ({
            let (w, h) = tab.wanted_size(available);
            let after = tab.after_resize(available);
            let needed = tab.connected && (distance(w as int, tab.requested_size.0 as int) > 2
                || distance(h as int, tab.requested_size.1 as int) > 2);
            &&& tab.wants_resize(available) <==> needed
            &&& after.requested_size == if needed {
                (w, h)
            } else {
                tab.requested_size
            }
            &&& after.server_name == tab.server_name
            &&& after.has_texture == tab.has_texture
            &&& after.desktop_size == tab.desktop_size
            &&& after.resolution == tab.resolution
            &&& after.status == tab.status
            &&& after.connected == tab.connected
            &&& after.held_keys == tab.held_keys
        }),
{
}

/// With a picture, the pointer comes first and then the events of the window, and the held keys
/// follow the events. Without a picture nothing is sent and nothing is held.
pub proof fn law_tab_input_starts_with_the_pointer(
    tab: TabView,
    pointer: Option<(u16, u16)>,
    events: Seq<InputEvent>,
    focus: PointerFocus,
)
    ensures
        ({
            let sent = tab.operations(pointer, events, focus);
            let translated = operations_for(events, focus, tab.held_keys);
            if tab.has_texture {
                &&& tab.after_input(events).held_keys == held_after(events, tab.held_keys)
                &&& match pointer {
                    Some((x, y)) => {
                        &&& sent.len() == translated.len() + 1
                        &&& sent[0] == Operation::MouseMove(MousePosition { x, y })
                        &&& sent.skip(1) == translated
                    },
                    None => sent == translated,
                }
            } else {
                &&& sent.len() == 0
                &&& tab.after_input(events) == tab
            }
        }),
        tab.after_input(events).connected == tab.connected,
        tab.after_input(events).desktop_size == tab.desktop_size,
        tab.after_input(events).requested_size == tab.requested_size,
        tab.after_input(events).resolution == tab.resolution,
        tab.after_input(events).status == tab.status,
        tab.after_input(events).server_name == tab.server_name,
        tab.after_input(events).has_texture == tab.has_texture,
{
    let sent = tab.operations(pointer, events, focus);
    let translated = operations_for(events, focus, tab.held_keys);
    if tab.has_texture {
        match pointer {
            Some((x, y)) => {
                assert(sent.skip(1) =~= translated);
            },
            None => {
                assert(sent =~= translated);
            },
        }
    }
}

} // verus!
