//! The window manager's state and its answer to every event.
//!
//! Each handler takes the state and one event, changes what it decides on
//! its own, and returns the steps of its answer in order: requests for the
//! X server, and changes to the state that wait until those went through.
//! What each handler does is stated over the state's view, a `WmView`, by
//! one spec function per event; `event_step` dispatches between them.

use std::collections::HashSet;
use vstd::prelude::*;

use crate::geometry::{Client, Geometry, Layout, ScreenSize};
use crate::x11::{
    ConfigureRequest, WindowChanges, configure_request_changes, i16_saturating_add,
    requested_changes, saturating_add_i16, MAP_STATE_UNMAPPED, STACK_MODE_ABOVE,
    STACK_MODE_BELOW,
};
use crate::{BG_COLOR, BORDER_WIDTH, KEY_E, KEY_ENTER, KEY_F, MAX_CLIENTS, TITLEBAR_HEIGHT};

verus! {

/// An event from the X server, reduced to what the manager decides on.
#[derive(PartialEq, Eq, Structural, Debug, Copy, Clone)]
pub enum Event {
    /// Part of `window` must be redrawn.
    Expose { window: u32 },
    /// A client asks to move, resize or restack one of its windows.
    ConfigureRequest(ConfigureRequest),
    /// A client asks for `window` to be mapped.
    MapRequest { window: u32 },
    /// A grabbed key went down.
    KeyPress { detail: u8 },
    /// The pointer entered `event`.
    EnterNotify { event: u32 },
    /// `window` was unmapped; `event` is the window that reported it.
    UnmapNotify { event: u32, window: u32 },
    /// Any other event; it changes nothing.
    Other,
}

/// One step of the manager's answer, taken in order by the side that
/// talks to the X server: a request to send, or, once the requests before
/// it went through, a change to the manager's own state.
#[derive(PartialEq, Eq, Structural, Debug, Copy, Clone)]
pub enum Command {
    /// Configure `window` with `changes`.
    Configure { window: u32, changes: WindowChanges },
    /// Take `window` over: read its geometry, frame it, and add it as a client.
    Manage { window: u32 },
    /// Refuse `window`, for which there is no room among the clients:
    /// report that the limit is reached and destroy the window.
    Refuse { window: u32 },
    /// Give the input focus to `window`, reverting to its parent.
    Focus { window: u32 },
    /// Reparent `window` into `parent` at (`x`, `y`).
    Reparent { window: u32, parent: u32, x: i16, y: i16 },
    /// Map `window`.
    MapWindow { window: u32 },
    /// Hand `window` back to `parent` at (`x`, `y`) and destroy its `frame`;
    /// a failure here is fatal.
    Release { window: u32, frame: u32, parent: u32, x: i16, y: i16 },
    /// Start the browser on the manager's display.
    Launch,
    /// Add `client` to the managed clients (`WmState::add_client`).
    AddClient { client: Client },
    /// Mark a relayout as due (`WmState::request_relayout`).
    RequestRelayout,
}

/// What is drawn on a client's titlebar: the frame is filled with the
/// background colour over `width` by `height`, and the title of `window`
/// is written at (`text_x`, `text_y`).
#[derive(PartialEq, Eq, Structural, Debug, Copy, Clone)]
pub struct Titlebar {
    pub window: u32,
    pub frame_window: u32,
    pub width: u16,
    pub height: u16,
    pub text_x: i16,
    pub text_y: i16,
}

/// The window that frames a newly managed client, and where it goes.
#[derive(PartialEq, Eq, Structural, Debug, Copy, Clone)]
pub struct FrameSpec {
    pub parent: u32,
    pub x: i16,
    pub y: i16,
    pub width: u16,
    pub height: u16,
    pub border_width: u16,
    pub border_pixel: u32,
}

/// A top-level window found when the manager starts.
#[derive(PartialEq, Eq, Structural, Debug, Copy, Clone)]
pub struct ChildWindow {
    pub window: u32,
    pub geometry: Geometry,
    pub override_redirect: bool,
    pub map_state: u8,
}

/// The abstract state of the manager.
#[verifier::ext_equal]
pub struct WmView {
    pub root: u32,
    pub screen: ScreenSize,
    pub clients: Seq<Client>,
    pub layout: Layout,
    pub prev_layout: Layout,
    pub should_relayout: bool,
    pub pending_expose: Set<u32>,
}

/// The state of the manager: the root window, the screen, the managed
/// clients in the order they were taken over, the current and the last
/// tiled layout, whether a relayout is due, and the windows whose
/// titlebars wait to be redrawn.
pub struct WmState {
    pub root: u32,
    pub screen: ScreenSize,
    pub clients: Vec<Client>,
    pub layout: Layout,
    pub prev_layout: Layout,
    pub should_relayout: bool,
    pub pending_expose: HashSet<u32>,
}

impl View for WmState {
    type V = WmView;

    open spec fn view(&self) -> WmView {
        WmView {
            root: self.root,
            screen: self.screen,
            clients: self.clients@,
            layout: self.layout,
            prev_layout: self.prev_layout,
            should_relayout: self.should_relayout,
            pending_expose: self.pending_expose@,
        }
    }
}

impl WmView {
    /// The layout that the monocle toggle returns to is always a tiled one.
    pub open spec fn inv(self) -> bool {
        self.prev_layout != Layout::Monocle
    }
}

/// Whether the client at `i` is the first one that `id` names.
pub open spec fn first_owner_at(clients: Seq<Client>, id: u32, i: int) -> bool {
    &&& 0 <= i < clients.len()
    &&& clients[i].owns(id)
    &&& forall|j: int| 0 <= j < i ==> !(#[trigger] clients[j]).owns(id)
}

/// The first client that `id` names, as a window or as a frame.
pub open spec fn find_owner(clients: Seq<Client>, id: u32) -> Option<Client> {
    if exists|i: int| first_owner_at(clients, id, i) {
        Some(clients[choose|i: int| first_owner_at(clients, id, i)])
    } else {
        None
    }
}

/// The clients that `id` does not name.
pub open spec fn not_owned_by(id: u32) -> spec_fn(Client) -> bool {
    |c: Client| !c.owns(id)
}

/// The clients that `id` names.
pub open spec fn owned_by(id: u32) -> spec_fn(Client) -> bool {
    |c: Client| c.owns(id)
}

/// The request that hands a client's window back to `root` at the client's
/// position and destroys its frame.
pub open spec fn release_of(root: u32) -> spec_fn(Client) -> Command {
    |c: Client| Command::Release { window: c.window, frame: c.frame_window, parent: root, x: c.x, y: c.y }
}

/// The titlebar of `c`.
pub open spec fn titlebar_of(c: Client) -> Titlebar {
    Titlebar {
        window: c.window,
        frame_window: c.frame_window,
        width: c.width,
        height: c.height,
        text_x: 4,
        text_y: (TITLEBAR_HEIGHT / 2) as i16,
    }
}

/// The titlebars drawn for the exposed `windows`, taken in that order:
/// one for each window that names a client, none for the others.
pub open spec fn titlebars_for(clients: Seq<Client>, windows: Seq<u32>) -> Seq<Titlebar> {
    windows.filter_map(titlebar_for(clients))
}

/// The titlebar drawn for an exposed window `w`: that of the client it
/// names, if any.
pub open spec fn titlebar_for(clients: Seq<Client>) -> spec_fn(u32) -> Option<Titlebar> {
    |w: u32|
        match find_owner(clients, w) {
            Some(c) => Some(titlebar_of(c)),
            None => None,
        }
}

/// The changes that pass a client's configure request on as it was asked,
/// except that the manager keeps the stacking order to itself.
pub open spec fn forwarded_changes(req: ConfigureRequest) -> WindowChanges {
    WindowChanges { sibling: None, stack_mode: None, ..requested_changes(req) }
}

/// Changes that raise a window above its siblings and touch nothing else.
pub open spec fn raise_changes() -> WindowChanges {
    WindowChanges {
        x: None,
        y: None,
        width: None,
        height: None,
        border_width: None,
        sibling: None,
        stack_mode: Some(STACK_MODE_ABOVE),
    }
}

/// The two configure requests that put client `c` in place: its frame,
/// raised when it holds the input focus and lowered otherwise, and the
/// window inside it, below the titlebar.
pub open spec fn placement_commands(c: Client, focused: u32) -> Seq<Command> {
    let w = c.width.saturating_sub(BORDER_WIDTH);
    let h = c.height.saturating_sub(BORDER_WIDTH);
    seq![
        Command::Configure {
            window: c.frame_window,
            changes: WindowChanges {
                x: Some(c.x as i32),
                y: Some(saturating_add_i16(c.y, BORDER_WIDTH as i16) as i32),
                width: Some(w as u32),
                height: Some(h as u32),
                border_width: None,
                sibling: None,
                stack_mode: Some(if c.owns(focused) { STACK_MODE_ABOVE } else { STACK_MODE_BELOW }),
            },
        },
        Command::Configure {
            window: c.window,
            changes: WindowChanges {
                x: Some(0),
                y: Some(TITLEBAR_HEIGHT as i32),
                width: Some(w as u32),
                height: Some(h.saturating_sub(TITLEBAR_HEIGHT) as u32),
                border_width: None,
                sibling: None,
                stack_mode: None,
            },
        },
    ]
}

/// The client for `window` framed by `frame_window`, placed where the
/// window was.
pub open spec fn client_of(window: u32, frame_window: u32, geom: Geometry) -> Client {
    Client { frame_window, window, x: geom.x, y: geom.y, width: geom.width, height: geom.height }
}

/// The requests that put a taken-over window into its frame, below the
/// titlebar, and show both; then the client is added.
pub open spec fn framing_commands(window: u32, frame_window: u32, geom: Geometry) -> Seq<Command> {
    seq![
        Command::Reparent { window, parent: frame_window, x: 0, y: TITLEBAR_HEIGHT as i16 },
        Command::MapWindow { window },
        Command::MapWindow { window: frame_window },
        Command::AddClient { client: client_of(window, frame_window, geom) },
    ]
}

/// Whether a window found at start-up is taken over: it must not bypass
/// the manager and must be mapped.
pub open spec fn should_manage(child: ChildWindow) -> bool {
    !child.override_redirect && child.map_state != MAP_STATE_UNMAPPED
}

/// The frame for a window at `geom`: a child of `root` at the window's
/// place, as wide as the window and a titlebar higher.
pub open spec fn frame_of(root: u32, geom: Geometry) -> FrameSpec {
    FrameSpec {
        parent: root,
        x: geom.x,
        y: geom.y,
        width: geom.width,
        height: (geom.height + TITLEBAR_HEIGHT) as u16,
        border_width: BORDER_WIDTH,
        border_pixel: BG_COLOR,
    }
}

/// The layouts after the key `detail` went down: `E` toggles between split
/// and master-stack (and leaves monocle for master-stack), `F` enters
/// monocle and leaves it for the last tiled layout; the second component
/// is that last tiled layout.
pub open spec fn key_layouts(layout: Layout, prev: Layout, detail: u8) -> (Layout, Layout) {
    if detail == KEY_E {
        let next = match layout {
            Layout::Split => Layout::MasterStack,
            Layout::MasterStack => Layout::Split,
            Layout::Monocle => Layout::MasterStack,
        };
        (next, if layout != Layout::Monocle { layout } else { prev })
    } else if detail == KEY_F {
        if layout == Layout::Monocle {
            (prev, prev)
        } else {
            (Layout::Monocle, layout)
        }
    } else {
        (layout, prev)
    }
}

/// An exposed window waits for its titlebar to be redrawn.
pub open spec fn expose_step(v: WmView, window: u32) -> (WmView, Seq<Command>) {
    (WmView { pending_expose: v.pending_expose.insert(window), ..v }, seq![])
}

/// A configure request for a window that no client holds is passed on
/// without its stacking; one for a managed window is ignored.
pub open spec fn configure_step(v: WmView, req: ConfigureRequest) -> (WmView, Seq<Command>) {
    if find_owner(v.clients, req.window) is None {
        (v, seq![Command::Configure { window: req.window, changes: forwarded_changes(req) }])
    } else {
        (v, seq![])
    }
}

/// A map request is granted while there is room for another client and
/// refused by destroying the window otherwise; a relayout is marked due
/// after either.
pub open spec fn map_step(v: WmView, window: u32) -> (WmView, Seq<Command>) {
    (
        v,
        if v.clients.len() < MAX_CLIENTS {
            seq![Command::Manage { window }, Command::RequestRelayout]
        } else {
            seq![Command::Refuse { window }, Command::RequestRelayout]
        },
    )
}

/// A key press changes the layouts as `key_layouts` says and asks for a
/// relayout when it was a layout key; `Enter` starts the browser.
pub open spec fn key_step(v: WmView, detail: u8) -> (WmView, Seq<Command>) {
    let (layout, prev) = key_layouts(v.layout, v.prev_layout, detail);
    (
        WmView {
            layout,
            prev_layout: prev,
            should_relayout: v.should_relayout || detail == KEY_E || detail == KEY_F,
            ..v
        },
        if detail == KEY_ENTER { seq![Command::Launch] } else { seq![] },
    )
}

/// When the pointer enters a client, its window gets the focus and is
/// raised.
pub open spec fn enter_step(v: WmView, event: u32) -> (WmView, Seq<Command>) {
    match find_owner(v.clients, event) {
        Some(c) => (
            v,
            seq![
                Command::Focus { window: c.window },
                Command::Configure { window: c.window, changes: raise_changes() },
            ],
        ),
        None => (v, seq![]),
    }
}

/// When a window is unmapped (as reported by any window but the root), every
/// client that it names is released and dropped, the others keep their
/// order, the root takes the focus when no client is left, and then a
/// relayout is marked due.
pub open spec fn unmap_step(v: WmView, event: u32, window: u32) -> (WmView, Seq<Command>) {
    if event == v.root {
        (v, seq![])
    } else {
        let kept = v.clients.filter(not_owned_by(window));
        let released = v.clients.filter(owned_by(window)).map_values(release_of(v.root));
        (
            WmView { clients: kept, ..v },
            if kept.len() == 0 {
                released.push(Command::Focus { window: v.root }).push(Command::RequestRelayout)
            } else {
                released.push(Command::RequestRelayout)
            },
        )
    }
}

/// The answer to one event.
pub open spec fn event_step(v: WmView, e: Event) -> (WmView, Seq<Command>) {
    match e {
        Event::Expose { window } => expose_step(v, window),
        Event::ConfigureRequest(req) => configure_step(v, req),
        Event::MapRequest { window } => map_step(v, window),
        Event::KeyPress { detail } => key_step(v, detail),
        Event::EnterNotify { event } => enter_step(v, event),
        Event::UnmapNotify { event, window } => unmap_step(v, event, window),
        Event::Other => (v, seq![]),
    }
}

impl Client {
    /// What this client's titlebar shows.
    pub fn titlebar(&self) -> (t: Titlebar)
        ensures
            t == titlebar_of(*self),
    {
        Titlebar {
            window: self.window,
            frame_window: self.frame_window,
            width: self.width,
            height: self.height,
            text_x: 4,
            text_y: (TITLEBAR_HEIGHT / 2) as i16,
        }
    }
}

/// The windows found at start-up that are taken over, in the order found.
pub fn windows_to_manage(children: &Vec<ChildWindow>) -> (r: Vec<ChildWindow>)
    ensures
        r@ == children@.filter(|c: ChildWindow| should_manage(c)),
{
    let ghost s = children@;
    let n = children.len();
    let mut chosen: Vec<ChildWindow> = Vec::new();
    let mut i: usize = 0;
    while i < n
        invariant
            n == children.len(),
            s == children@,
            i <= n,
            chosen@ == s.take(i as int).filter(|c: ChildWindow| should_manage(c)),
        decreases n - i,
    {
        let child = children[i];
        proof {
            reveal(Seq::filter);
            assert(s.take(i + 1).drop_last() =~= s.take(i as int));
        }
        if !child.override_redirect && child.map_state != MAP_STATE_UNMAPPED {
            chosen.push(child);
        }
        i += 1;
    }
    assert(s.take(n as int) =~= s);
    chosen
}

/// The first client that `id` names is the one `find_owner` gives.
pub proof fn lemma_find_owner_at(clients: Seq<Client>, id: u32, i: int)
    requires
        first_owner_at(clients, id, i),
    ensures
        find_owner(clients, id) == Some(clients[i]),
{
    let k = choose|k: int| first_owner_at(clients, id, k);
    assert(first_owner_at(clients, id, k));
    if k < i {
        assert(!clients[k].owns(id));
    } else if k > i {
        assert(!clients[i].owns(id));
    }
}

/// When no client is named by `id`, `find_owner` gives none.
pub proof fn lemma_find_owner_none(clients: Seq<Client>, id: u32)
    requires
        forall|j: int| 0 <= j < clients.len() ==> !(#[trigger] clients[j]).owns(id),
    ensures
        find_owner(clients, id) is None,
{
    assert(!exists|i: int| first_owner_at(clients, id, i));
}

/// The clients of `v` with the first `k` of them moved to their places
/// under `v`'s layout, each as the one at its index of `len` clients.
pub open spec fn laid_out(v: WmView, len: u16, k: int) -> Seq<Client> {
    Seq::new(
        v.clients.len(),
        |i: int|
            if i < k {
                v.layout.placed(v.clients[i], v.screen, len, i as usize)
            } else {
                v.clients[i]
            },
    )
}

/// Placing the clients in turn, from the first, as a relayout does with
/// `WmState::place_client`, places every one of them: with the first `k`
/// in place, placing the one at `k` puts the first `k + 1` in place.
pub proof fn lemma_place_clients_in_turn(v: WmView, len: u16, k: int)
    requires
        0 <= k < v.clients.len(),
    ensures
        laid_out(v, len, k).update(
            k,
            v.layout.placed(laid_out(v, len, k)[k], v.screen, len, k as usize),
        ) == laid_out(v, len, k + 1),
{
    assert(laid_out(v, len, k).update(
        k,
        v.layout.placed(laid_out(v, len, k)[k], v.screen, len, k as usize),
    ) =~= laid_out(v, len, k + 1));
}

impl WmState {
    /// A manager for the screen `screen` under `root`, with no clients, the
    /// split layout, no pending redraws, and a relayout due.
    pub fn new(root: u32, screen: ScreenSize) -> (wm: Self)
        ensures
            wm@.inv(),
            wm@.root == root,
            wm@.screen == screen,
            wm@.clients == Seq::<Client>::empty(),
            wm@.layout == Layout::Split,
            wm@.prev_layout == Layout::Split,
            wm@.should_relayout,
            wm@.pending_expose == Set::<u32>::empty(),
    {
        WmState {
            root,
            screen,
            clients: Vec::with_capacity(MAX_CLIENTS),
            layout: Layout::Split,
            prev_layout: Layout::Split,
            should_relayout: true,
            pending_expose: HashSet::new(),
        }
    }

    /// The first client whose window or frame is `id`.
    pub fn find_client_by_id(&self, id: u32) -> (r: Option<&Client>)
        ensures
            match r {
                Some(c) => find_owner(self.clients@, id) == Some(*c),
                None => find_owner(self.clients@, id) is None,
            },
    {
        let n = self.clients.len();
        let mut i: usize = 0;
        while i < n
            invariant
                n == self.clients.len(),
                i <= n,
                forall|j: int| 0 <= j < i ==> !(#[trigger] self.clients@[j]).owns(id),
            decreases n - i,
        {
            let c = &self.clients[i];
            if c.window == id || c.frame_window == id {
                proof {
                    lemma_find_owner_at(self.clients@, id, i as int);
                }
                return Some(c);
            }
            i += 1;
        }
        proof {
            lemma_find_owner_none(self.clients@, id);
        }
        None
    }

    /// Notes that the titlebar of `window` must be redrawn.
    pub fn handle_expose_event(&mut self, window: u32) -> (r: Vec<Command>)
        ensures
            final(self)@ == expose_step(old(self)@, window).0,
            r@ == expose_step(old(self)@, window).1,
    {
        self.pending_expose.insert(window);
        Vec::new()
    }

    /// Passes a configure request for an unmanaged window on to the X
    /// server without its stacking; ignores one for a managed window.
    pub fn handle_configure_request_event(&self, req: &ConfigureRequest) -> (r: Vec<Command>)
        ensures
            r@ == configure_step(self@, *req).1,
    {
        if self.find_client_by_id(req.window).is_none() {
            let mut changes = configure_request_changes(req);
            changes.stack_mode = None;
            changes.sibling = None;
            vec![Command::Configure { window: req.window, changes }]
        } else {
            Vec::new()
        }
    }

    /// Grants a map request while fewer than `MAX_CLIENTS` clients are
    /// managed and refuses it otherwise; either way a relayout follows.
    pub fn handle_map_request_event(&self, window: u32) -> (r: Vec<Command>)
        ensures
            r@ == map_step(self@, window).1,
    {
        let command = if self.clients.len() < MAX_CLIENTS {
            Command::Manage { window }
        } else {
            Command::Refuse { window }
        };
        vec![command, Command::RequestRelayout]
    }

    /// Switches layouts on `E` and `F`, and asks for the browser on `Enter`.
    pub fn handle_keypress_event(&mut self, detail: u8) -> (r: Vec<Command>)
        ensures
            final(self)@ == key_step(old(self)@, detail).0,
            r@ == key_step(old(self)@, detail).1,
    {
        if detail == KEY_E {
            if self.layout != Layout::Monocle {
                self.prev_layout = self.layout;
            }
            self.layout = match self.layout {
                Layout::Split => Layout::MasterStack,
                Layout::MasterStack => Layout::Split,
                Layout::Monocle => Layout::MasterStack,
            };
            self.should_relayout = true;
            Vec::new()
        } else if detail == KEY_F {
            self.layout = if self.layout == Layout::Monocle {
                self.prev_layout
            } else {
                self.prev_layout = self.layout;
                Layout::Monocle
            };
            self.should_relayout = true;
            Vec::new()
        } else if detail == KEY_ENTER {
            vec![Command::Launch]
        } else {
            Vec::new()
        }
    }

    /// Focuses and raises the client that the pointer entered.
    pub fn handle_enter_notify_event(&self, event: u32) -> (r: Vec<Command>)
        ensures
            r@ == enter_step(self@, event).1,
    {
        match self.find_client_by_id(event) {
            Some(c) => {
                let raise = WindowChanges {
                    x: None,
                    y: None,
                    width: None,
                    height: None,
                    border_width: None,
                    sibling: None,
                    stack_mode: Some(STACK_MODE_ABOVE),
                };
                vec![Command::Focus { window: c.window }, Command::Configure { window: c.window, changes: raise }]
            },
            None => Vec::new(),
        }
    }

    /// Releases and drops every client that the unmapped `window` names,
    /// unless the root reported the unmap.
    pub fn handle_unmap_notify_event(&mut self, event: u32, window: u32) -> (r: Vec<Command>)
        ensures
            final(self)@ == unmap_step(old(self)@, event, window).0,
            r@ == unmap_step(old(self)@, event, window).1,
    {
        if event == self.root {
            return Vec::new();
        }
        let ghost s = self.clients@;
        let root = self.root;
        let n = self.clients.len();
        let mut kept: Vec<Client> = Vec::new();
        let mut commands: Vec<Command> = Vec::new();
        let mut i: usize = 0;
        while i < n
            invariant
                n == self.clients.len(),
                s == self.clients@,
                root == self.root,
                i <= n,
                kept@ == s.take(i as int).filter(not_owned_by(window)),
                commands@ == s.take(i as int).filter(owned_by(window)).map_values(release_of(root)),
            decreases n - i,
        {
            let c = self.clients[i];
            proof {
                reveal(Seq::filter);
                assert(s.take(i + 1).drop_last() =~= s.take(i as int));
                assert(s.take(i + 1).last() == c);
            }
            if c.window != window && c.frame_window != window {
                kept.push(c);
            } else {
                let ghost before = s.take(i as int).filter(owned_by(window));
                commands.push(
                    Command::Release { window: c.window, frame: c.frame_window, parent: root, x: c.x, y: c.y },
                );
                assert(before.push(c).map_values(release_of(root)) =~= before.map_values(
                    release_of(root),
                ).push(release_of(root)(c)));
            }
            i += 1;
        }
        assert(s.take(n as int) =~= s);
        self.clients = kept;
        if self.clients.len() == 0 {
            commands.push(Command::Focus { window: root });
        }
        commands.push(Command::RequestRelayout);
        commands
    }

    /// The frame for a window at `geom` that is about to be taken over.
    pub fn frame_for(&self, geom: &Geometry) -> (f: FrameSpec)
        requires
            geom.height + TITLEBAR_HEIGHT <= u16::MAX,
        ensures
            f == frame_of(self.root, *geom),
    {
        FrameSpec {
            parent: self.root,
            x: geom.x,
            y: geom.y,
            width: geom.width,
            height: geom.height + TITLEBAR_HEIGHT,
            border_width: BORDER_WIDTH,
            border_pixel: BG_COLOR,
        }
    }

    /// The steps that take `window` over once `frame_window` has been
    /// created for it: reparent and map the two windows, then add the client
    /// at the window's geometry.
    pub fn manage_window(&self, window: u32, frame_window: u32, geom: &Geometry) -> (r: Vec<Command>)
        ensures
            r@ == framing_commands(window, frame_window, *geom),
    {
        vec![
            Command::Reparent { window, parent: frame_window, x: 0, y: TITLEBAR_HEIGHT as i16 },
            Command::MapWindow { window },
            Command::MapWindow { window: frame_window },
            Command::AddClient { client: Client::new(window, frame_window, geom) },
        ]
    }

    /// Adds `client` after the clients already managed.
    pub fn add_client(&mut self, client: Client)
        ensures
            final(self)@ == (WmView { clients: old(self)@.clients.push(client), ..old(self)@ }),
    {
        self.clients.push(client);
    }

    /// Marks a relayout as due.
    pub fn request_relayout(&mut self)
        ensures
            final(self)@ == (WmView { should_relayout: true, ..old(self)@ }),
    {
        self.should_relayout = true;
    }

    /// Moves the client at `index` to its place under the current layout,
    /// as the one at `index` of `len` clients. Called for each index in
    /// turn from the first, it lays out the clients one after another: when
    /// the clients are those of some `start` state with the first `index`
    /// of them placed, afterwards the first `index + 1` are placed.
    pub fn place_client(&mut self, len: u16, index: usize)
        requires
            index < old(self).clients.len(),
            old(self).layout.placement_defined(old(self).screen, len, index),
        ensures
            ({
                let v = old(self)@;
                final(self)@ == (WmView {
                    clients: v.clients.update(
                        index as int,
                        v.layout.placed(v.clients[index as int], v.screen, len, index),
                    ),
                    ..v
                })
            }),
            forall|start: WmView|
                start.layout == old(self)@.layout && start.screen == old(self)@.screen
                    && #[trigger] laid_out(start, len, index as int) == old(self)@.clients
                    ==> final(self)@.clients == laid_out(start, len, index + 1),
    {
        let mut c = self.clients[index];
        self.layout.apply(&mut c, &self.screen, len, index);
        self.clients.set(index, c);
        assert forall|start: WmView|
            start.layout == old(self)@.layout && start.screen == old(self)@.screen
                && #[trigger] laid_out(start, len, index as int) == old(self)@.clients
            implies self@.clients == laid_out(start, len, index + 1) by {
            lemma_place_clients_in_turn(start, len, index as int);
        }
    }

    /// The requests that configure the frame and window of the client at
    /// `index`, as it stands; `focused` is the window that holds the input
    /// focus.
    pub fn configure_client(&self, index: usize, focused: u32) -> (r: Vec<Command>)
        requires
            index < self.clients.len(),
        ensures
            r@ == placement_commands(self.clients@[index as int], focused),
    {
        let c = self.clients[index];
        let client_width = c.width.saturating_sub(BORDER_WIDTH);
        let client_height = c.height.saturating_sub(BORDER_WIDTH);
        let is_focused = focused == c.frame_window || focused == c.window;
        let stack_mode = if is_focused { STACK_MODE_ABOVE } else { STACK_MODE_BELOW };
        let frame_changes = WindowChanges {
            x: Some(c.x as i32),
            y: Some(i16_saturating_add(c.y, BORDER_WIDTH as i16) as i32),
            width: Some(client_width as u32),
            height: Some(client_height as u32),
            border_width: None,
            sibling: None,
            stack_mode: Some(stack_mode),
        };
        let window_changes = WindowChanges {
            x: Some(0),
            y: Some(TITLEBAR_HEIGHT as i32),
            width: Some(client_width as u32),
            height: Some(client_height.saturating_sub(TITLEBAR_HEIGHT) as u32),
            border_width: None,
            sibling: None,
            stack_mode: None,
        };
        vec![
            Command::Configure { window: c.frame_window, changes: frame_changes },
            Command::Configure { window: c.window, changes: window_changes },
        ]
    }

    /// Records that the relayout that was due has been done.
    pub fn finish_relayout(&mut self)
        ensures
            final(self)@ == (WmView { should_relayout: false, ..old(self)@ }),
    {
        self.should_relayout = false;
    }

    /// Takes every pending redraw: empties the set of exposed windows and
    /// returns the titlebars to draw, one per exposed window that names a
    /// client. The windows are taken in the order in which the hash set
    /// hands them out, which nothing here fixes; the result is the
    /// titlebars for some ordering of the exposed windows.
    pub fn refresh(&mut self) -> (r: Vec<Titlebar>)
        ensures
            final(self)@ == (WmView { pending_expose: Set::<u32>::empty(), ..old(self)@ }),
            exists|order: Seq<u32>|
                {
                    &&& order.no_duplicates()
                    &&& order.to_set() == old(self)@.pending_expose
                    &&& r@ == titlebars_for(old(self)@.clients, order)
                },
    {
        let mut order: Vec<u32> = Vec::new();
        for w in it: self.pending_expose.iter()
            invariant
                order@ == it.seq().unref().take(it.index()),
                it.seq().unref().to_set() == self@.pending_expose,
                it.seq().unref().no_duplicates(),
            ensures
                order@ =~= it.seq().unref(),
                it.seq().unref().to_set() == self@.pending_expose,
                it.seq().unref().no_duplicates(),
        {
            order.push(*w);
        }
        assert(order@.to_set() == self@.pending_expose);
        assert(order@.no_duplicates());
        let ghost clients = self.clients@;
        self.pending_expose.clear();
        let mut out: Vec<Titlebar> = Vec::new();
        let n = order.len();
        for k in 0..n
            invariant
                n == order.len(),
                clients == self.clients@,
                out@ == titlebars_for(clients, order@.take(k as int)),
        {
            proof {
                order@.lemma_filter_map_take_succ(titlebar_for(clients), k as int);
            }
            match self.find_client_by_id(order[k]) {
                Some(c) => {
                    out.push(c.titlebar());
                },
                None => {},
            }
        }
        assert(order@.take(n as int) =~= order@);
        out
    }

    /// Answers one event: changes the state and returns the requests that
    /// the X server must be sent, in order.
    pub fn handle_events(&mut self, event: Event) -> (r: Vec<Command>)
        ensures
            final(self)@ == event_step(old(self)@, event).0,
            r@ == event_step(old(self)@, event).1,
    {
        match event {
            Event::Expose { window } => self.handle_expose_event(window),
            Event::ConfigureRequest(req) => self.handle_configure_request_event(&req),
            Event::MapRequest { window } => self.handle_map_request_event(window),
            Event::KeyPress { detail } => self.handle_keypress_event(detail),
            Event::EnterNotify { event } => self.handle_enter_notify_event(event),
            Event::UnmapNotify { event, window } => self.handle_unmap_notify_event(event, window),
            Event::Other => Vec::new(),
        }
    }
}

} // verus!
