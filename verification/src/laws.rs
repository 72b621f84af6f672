//! Properties of the manager that span several events or several calls.

use vstd::prelude::*;

use crate::geometry::{Client, Geometry, Layout};
use crate::wm::{
    client_of, configure_step, enter_step, event_step, expose_step, find_owner, first_owner_at,
    frame_of, framing_commands, key_step, laid_out, lemma_find_owner_at, lemma_find_owner_none,
    map_step, not_owned_by, owned_by, placement_commands, should_manage, titlebar_for,
    titlebar_of, titlebars_for, unmap_step, ChildWindow, Command, Event, WmView,
};
use crate::x11::{
    ConfigureRequest, WindowChanges, CONFIG_WINDOW_BORDER_WIDTH, CONFIG_WINDOW_HEIGHT,
    CONFIG_WINDOW_WIDTH, CONFIG_WINDOW_X, CONFIG_WINDOW_Y, STACK_MODE_ABOVE, STACK_MODE_BELOW,
};
use crate::{BG_COLOR, BORDER_WIDTH, KEY_E, KEY_ENTER, KEY_F, MAX_CLIENTS, TITLEBAR_HEIGHT};

verus! {

/// Every event keeps the manager's invariant: the layout that the monocle
/// toggle returns to is never monocle itself.
pub proof fn lemma_event_keeps_inv(v: WmView, e: Event)
    requires
        v.inv(),
    ensures
        event_step(v, e).0.inv(),
{
}

/// Pressing `F` twice gives back the layout one started from, whether or
/// not it was monocle.
pub proof fn lemma_monocle_toggle_twice(v: WmView)
    requires
        v.inv(),
    ensures
        key_step(key_step(v, KEY_F).0, KEY_F).0.layout == v.layout,
{
}

/// Pressing `E` twice in a tiled layout gives back that layout; from
/// monocle, `E` leads to master-stack.
pub proof fn lemma_tiled_toggle_twice(v: WmView)
    ensures
        v.layout != Layout::Monocle ==> key_step(key_step(v, KEY_E).0, KEY_E).0.layout == v.layout,
        v.layout == Layout::Monocle ==> key_step(v, KEY_E).0.layout == Layout::MasterStack,
{
}

/// A key that is neither a layout key nor `Enter` changes nothing and asks
/// for nothing.
pub proof fn lemma_other_keys_inert(v: WmView, detail: u8)
    requires
        detail != KEY_E,
        detail != KEY_F,
        detail != crate::KEY_ENTER,
    ensures
        key_step(v, detail).0 == v,
        key_step(v, detail).1 == Seq::<Command>::empty(),
{
}

/// After an unmap that the root did not report, no client is named by the
/// unmapped window any more, every remaining client was a client before,
/// and one release is sent for each client dropped.
pub proof fn lemma_unmap_forgets(v: WmView, event: u32, window: u32)
    requires
        event != v.root,
    ensures
        find_owner(unmap_step(v, event, window).0.clients, window) is None,
        forall|i: int|
            0 <= i < unmap_step(v, event, window).0.clients.len() ==> v.clients.contains(
                #[trigger] unmap_step(v, event, window).0.clients[i],
            ),
        unmap_step(v, event, window).0.clients.len() + v.clients.filter(owned_by(window)).len()
            == v.clients.len(),
{
    broadcast use vstd::seq_lib::group_filter_ensures;

    let kept = v.clients.filter(not_owned_by(window));
    assert forall|j: int| 0 <= j < kept.len() implies !(#[trigger] kept[j]).owns(window) by {
        assert(not_owned_by(window)(kept[j]));
    }
    assert forall|j: int| 0 <= j < kept.len() implies v.clients.contains(#[trigger] kept[j]) by {
        assert(kept.contains(kept[j]));
        v.clients.lemma_filter_contains_rev(not_owned_by(window), kept[j]);
    }
    lemma_find_owner_none(kept, window);
    lemma_filter_split(v.clients, window);
}

/// The clients that a window names and those it does not together make up
/// the whole list.
proof fn lemma_filter_split(s: Seq<Client>, window: u32)
    ensures
        s.filter(not_owned_by(window)).len() + s.filter(owned_by(window)).len() == s.len(),
    decreases s.len(),
{
    reveal(Seq::filter);
    if s.len() > 0 {
        lemma_filter_split(s.drop_last(), window);
    }
}

/// A window that no client held can be found as soon as it is taken over:
/// looking it up gives the new client.
pub proof fn lemma_manage_then_find(v: WmView, window: u32, frame_window: u32, geom: Geometry)
    requires
        find_owner(v.clients, window) is None,
    ensures
        find_owner(v.clients.push(client_of(window, frame_window, geom)), window) == Some(
            client_of(window, frame_window, geom),
        ),
{
    let s = v.clients.push(client_of(window, frame_window, geom));
    assert forall|j: int| 0 <= j < v.clients.len() implies !(#[trigger] s[j]).owns(window) by {
        assert(s[j] == v.clients[j]);
        if v.clients[j].owns(window) {
            lemma_first_owner_exists(v.clients, window, j);
        }
    }
    assert(first_owner_at(s, window, v.clients.len() as int));
    lemma_find_owner_at(s, window, v.clients.len() as int);
}

/// When some client is named by `id`, `find_owner` finds one.
proof fn lemma_first_owner_exists(clients: Seq<Client>, id: u32, i: int)
    requires
        0 <= i < clients.len(),
        clients[i].owns(id),
    ensures
        find_owner(clients, id) is Some,
    decreases i,
{
    if forall|j: int| 0 <= j < i ==> !(#[trigger] clients[j]).owns(id) {
        assert(first_owner_at(clients, id, i));
    } else {
        let j = choose|j: int| 0 <= j < i && (#[trigger] clients[j]).owns(id);
        lemma_first_owner_exists(clients, id, j);
    }
}

/// Map requests never take the number of clients past `MAX_CLIENTS`: a
/// window is taken over only while there is room for it.
pub proof fn lemma_map_request_respects_capacity(v: WmView, window: u32)
    ensures
        map_step(v, window).1.contains(Command::Manage { window }) ==> v.clients.len() + 1
            <= MAX_CLIENTS,
        map_step(v, window).0.clients == v.clients,
{
    if map_step(v, window).1.contains(Command::Manage { window }) {
        if v.clients.len() >= MAX_CLIENTS {
            assert(map_step(v, window).1[0] == Command::Refuse { window });
        }
    }
}

/// A configure request for a window that a client holds is never passed
/// on: the manager alone places its clients.
pub proof fn lemma_managed_configure_ignored(v: WmView, req: crate::x11::ConfigureRequest)
    requires
        find_owner(v.clients, req.window) is Some,
    ensures
        configure_step(v, req).1 == Seq::<Command>::empty(),
        configure_step(v, req).0 == v,
{
}

/// Every exposed window that names a client gets that client's titlebar
/// redrawn, whatever order the exposed windows are taken in.
pub proof fn lemma_exposed_client_redrawn(clients: Seq<Client>, order: Seq<u32>, w: u32, c: Client)
    requires
        order.contains(w),
        find_owner(clients, w) == Some(c),
    ensures
        titlebars_for(clients, order).contains(titlebar_of(c)),
    decreases order.len(),
{
    let f = titlebar_for(clients);
    if order.last() == w {
        assert(titlebars_for(clients, order) == order.drop_last().filter_map(f) + seq![
            titlebar_of(c),
        ]);
        assert(titlebars_for(clients, order).last() == titlebar_of(c));
    } else {
        let k = choose|k: int| 0 <= k < order.len() && order[k] == w;
        assert(order.drop_last()[k] == w);
        lemma_exposed_client_redrawn(clients, order.drop_last(), w, c);
        let rest = order.drop_last().filter_map(f);
        let j = choose|j: int| 0 <= j < rest.len() && rest[j] == titlebar_of(c);
        let whole = titlebars_for(clients, order);
        match f(order.last()) {
            Some(t) => {
                assert(whole == rest + seq![t]);
                assert(whole[j] == titlebar_of(c));
            },
            None => {
                assert(whole == rest);
            },
        }
    }
}

/// Before any client is placed the list is the clients as they were; once
/// all are placed, each client is where the layout puts it.
pub proof fn lemma_laid_out_ends(v: WmView, len: u16)
    ensures
        laid_out(v, len, 0) == v.clients,
        forall|i: int|
            0 <= i < v.clients.len() ==> #[trigger] laid_out(v, len, v.clients.len() as int)[i]
                == v.layout.placed(v.clients[i], v.screen, len, i as usize),
{
    assert(laid_out(v, len, 0) =~= v.clients);
}

/// The window that a configure request targets (0 for any other step).
pub open spec fn configured_window(cmd: Command) -> u32 {
    match cmd {
        Command::Configure { window, .. } => window,
        _ => 0,
    }
}

/// The changes that a configure request asks for (none for any other step).
pub open spec fn configured_changes(cmd: Command) -> WindowChanges {
    match cmd {
        Command::Configure { changes, .. } => changes,
        _ => WindowChanges {
            x: None,
            y: None,
            width: None,
            height: None,
            border_width: None,
            sibling: None,
            stack_mode: None,
        },
    }
}

/// `a - b`, or 0 when `b` is the larger.
pub open spec fn minus_or_zero(a: int, b: int) -> int {
    if a >= b { a - b } else { 0 }
}

/// Relaying out a client configures first its frame and then its window.
/// The frame keeps the client's place, moved down by the border unless that
/// passes the largest coordinate, and shrinks by the border; it goes above
/// its siblings exactly when the focus is on the client's window or on its
/// frame, and below them otherwise. The window sits at the left edge below
/// the titlebar, as wide as the frame and a titlebar lower.
pub proof fn lemma_relayout_requests(c: Client, focused: u32)
    ensures
        ({
            let cmds = placement_commands(c, focused);
            let f = configured_changes(cmds[0]);
            let w = configured_changes(cmds[1]);
            &&& cmds.len() == 2
            &&& cmds[0] is Configure && cmds[1] is Configure
            &&& configured_window(cmds[0]) == c.frame_window
            &&& configured_window(cmds[1]) == c.window
            &&& (focused == c.window || focused == c.frame_window) ==> f.stack_mode == Some(STACK_MODE_ABOVE)
            &&& !(focused == c.window || focused == c.frame_window) ==> f.stack_mode == Some(STACK_MODE_BELOW)
            &&& f.x == Some(c.x as i32)
            &&& f.y == Some((if c.y + 2 <= 0x7fff { c.y + 2 } else { 0x7fff }) as i32)
            &&& f.width == Some(minus_or_zero(c.width as int, BORDER_WIDTH as int) as u32)
            &&& f.height == Some(minus_or_zero(c.height as int, BORDER_WIDTH as int) as u32)
            &&& f.border_width is None && f.sibling is None
            &&& w.x == Some(0i32) && w.y == Some(TITLEBAR_HEIGHT as i32)
            &&& w.width == f.width
            &&& w.height == Some(minus_or_zero(minus_or_zero(c.height as int, BORDER_WIDTH as int), TITLEBAR_HEIGHT as int) as u32)
            &&& w.border_width is None && w.sibling is None && w.stack_mode is None
        }),
{
}

/// The layout keys always ask for a relayout and leave the clients, the
/// screen, the root and the pending redraws alone; `F` in a tiled layout
/// enters monocle and remembers that layout, `F` in monocle returns to the
/// remembered one, and `E` always ends in a tiled layout other than the one
/// it left.
pub proof fn lemma_layout_keys(v: WmView, detail: u8)
    requires
        detail == KEY_E || detail == KEY_F,
    ensures
        ({
            let (n, cmds) = key_step(v, detail);
            &&& n.should_relayout
            &&& n.clients == v.clients && n.root == v.root && n.screen == v.screen
            &&& n.pending_expose == v.pending_expose
            &&& cmds.len() == 0
            &&& detail == KEY_F && v.layout != Layout::Monocle ==> n.layout == Layout::Monocle
                && n.prev_layout == v.layout
            &&& detail == KEY_F && v.layout == Layout::Monocle ==> n.layout == v.prev_layout
            &&& detail == KEY_E ==> n.layout != Layout::Monocle && n.layout != v.layout
        }),
{
}

/// `Enter` asks for the browser and nothing else.
pub proof fn lemma_enter_key_launches(v: WmView)
    ensures
        key_step(v, KEY_ENTER).0 == v,
        key_step(v, KEY_ENTER).1 == seq![Command::Launch],
{
}

/// The frame of a taken-over window is a child of the root at the window's
/// place, as wide as the window and a titlebar higher, with a border of
/// `BORDER_WIDTH` in the colour `BG_COLOR`; the window then goes into the
/// frame below the titlebar, the window and then the frame are mapped, and
/// the client joins with the window's geometry.
pub proof fn lemma_framing(root: u32, window: u32, frame_window: u32, g: Geometry)
    requires
        g.height + TITLEBAR_HEIGHT <= u16::MAX,
    ensures
        ({
            let f = frame_of(root, g);
            &&& f.parent == root && f.x == g.x && f.y == g.y && f.width == g.width
            &&& f.height == g.height + TITLEBAR_HEIGHT
            &&& f.border_width == BORDER_WIDTH && f.border_pixel == BG_COLOR
            &&& f.border_pixel == 0x2B3E75F
        }),
        framing_commands(window, frame_window, g) == seq![
            Command::Reparent { window, parent: frame_window, x: 0, y: TITLEBAR_HEIGHT as i16 },
            Command::MapWindow { window },
            Command::MapWindow { window: frame_window },
            Command::AddClient {
                client: Client { frame_window, window, x: g.x, y: g.y, width: g.width, height: g.height },
            },
        ],
{
}

/// A configure request for a window that no client holds is passed on to
/// that window with every position and size that it asks for (x, y, width,
/// height and border width, each exactly when its bit is in the mask) and
/// without any stacking; the state stays as it was.
pub proof fn lemma_unmanaged_configure_forwarded(v: WmView, req: ConfigureRequest)
    requires
        find_owner(v.clients, req.window) is None,
    ensures
        configure_step(v, req).0 == v,
        configure_step(v, req).1.len() == 1,
        configured_window(configure_step(v, req).1[0]) == req.window,
        configure_step(v, req).1[0] is Configure,
        ({
            let c = configured_changes(configure_step(v, req).1[0]);
            &&& c.x == (if req.value_mask & CONFIG_WINDOW_X != 0 { Some(req.x as i32) } else { None })
            &&& c.y == (if req.value_mask & CONFIG_WINDOW_Y != 0 { Some(req.y as i32) } else { None })
            &&& c.width == (if req.value_mask & CONFIG_WINDOW_WIDTH != 0 {
                Some(req.width as u32)
            } else {
                None
            })
            &&& c.height == (if req.value_mask & CONFIG_WINDOW_HEIGHT != 0 {
                Some(req.height as u32)
            } else {
                None
            })
            &&& c.border_width == (if req.value_mask & CONFIG_WINDOW_BORDER_WIDTH != 0 {
                Some(req.border_width as u32)
            } else {
                None
            })
            &&& c.sibling is None && c.stack_mode is None
        }),
{
}

/// An exposed window is added to the pending redraws and nothing else
/// changes; no request is sent yet.
pub proof fn lemma_expose_marks_window(v: WmView, window: u32)
    ensures
        expose_step(v, window).0.pending_expose.contains(window),
        forall|w: u32|
            w != window ==> (#[trigger] expose_step(v, window).0.pending_expose.contains(w)
                <==> v.pending_expose.contains(w)),
        expose_step(v, window).0.clients == v.clients,
        expose_step(v, window).0.layout == v.layout,
        expose_step(v, window).0.should_relayout == v.should_relayout,
        expose_step(v, window).1.len() == 0,
{
}

/// A map request leaves the state alone and answers with two steps: taking
/// the window over exactly when fewer than `MAX_CLIENTS` clients are
/// managed and refusing it otherwise, then asking for a relayout.
pub proof fn lemma_map_request_answer(v: WmView, window: u32)
    ensures
        map_step(v, window).0 == v,
        map_step(v, window).1.len() == 2,
        map_step(v, window).1[1] == Command::RequestRelayout,
        (map_step(v, window).1[0] == Command::Manage { window }) <==> v.clients.len() < MAX_CLIENTS,
        (map_step(v, window).1[0] == Command::Refuse { window }) <==> v.clients.len() >= MAX_CLIENTS,
{
}

/// When the pointer enters a window that names a client (its window or its
/// frame), the focus goes to the client's own window and that window is
/// raised with no other change; entering any other window does nothing.
pub proof fn lemma_enter_focuses_client(v: WmView, event: u32)
    ensures
        enter_step(v, event).0 == v,
        forall|i: int|
            0 <= i < v.clients.len() && #[trigger] v.clients[i].owns(event) && (forall|j: int|
                0 <= j < i ==> !(#[trigger] v.clients[j]).owns(event)) ==> enter_step(v, event).1
                == seq![
                Command::Focus { window: v.clients[i].window },
                Command::Configure {
                    window: v.clients[i].window,
                    changes: WindowChanges {
                        x: None,
                        y: None,
                        width: None,
                        height: None,
                        border_width: None,
                        sibling: None,
                        stack_mode: Some(STACK_MODE_ABOVE),
                    },
                },
            ],
        (forall|i: int| 0 <= i < v.clients.len() ==> !(#[trigger] v.clients[i]).owns(event))
            ==> enter_step(v, event).1.len() == 0,
{
    assert forall|i: int|
        0 <= i < v.clients.len() && #[trigger] v.clients[i].owns(event) && (forall|j: int|
            0 <= j < i ==> !(#[trigger] v.clients[j]).owns(event)) implies enter_step(v, event).1
        == seq![
        Command::Focus { window: v.clients[i].window },
        Command::Configure {
            window: v.clients[i].window,
            changes: WindowChanges {
                x: None,
                y: None,
                width: None,
                height: None,
                border_width: None,
                sibling: None,
                stack_mode: Some(STACK_MODE_ABOVE),
            },
        },
    ] by {
        assert(first_owner_at(v.clients, event, i));
        lemma_find_owner_at(v.clients, event, i);
    }
    if forall|i: int| 0 <= i < v.clients.len() ==> !(#[trigger] v.clients[i]).owns(event) {
        lemma_find_owner_none(v.clients, event);
    }
}

/// What `find_owner` gives is a client that `id` names, and it gives none
/// exactly when no client is named by `id`.
pub proof fn lemma_find_owner_meaning(clients: Seq<Client>, id: u32)
    ensures
        find_owner(clients, id) matches Some(c) ==> c.owns(id) && clients.contains(c),
        find_owner(clients, id) is None <==> forall|i: int|
            0 <= i < clients.len() ==> !(#[trigger] clients[i]).owns(id),
{
    if find_owner(clients, id) is Some {
        let k = choose|k: int| first_owner_at(clients, id, k);
        assert(clients[k] == clients[k]);
    }
    if !(forall|i: int| 0 <= i < clients.len() ==> !(#[trigger] clients[i]).owns(id)) {
        let i = choose|i: int| 0 <= i < clients.len() && (#[trigger] clients[i]).owns(id);
        lemma_first_owner_exists(clients, id, i);
    } else {
        lemma_find_owner_none(clients, id);
    }
}

/// A titlebar spans the client's size on its frame, with the title written
/// four pixels in and halfway down the titlebar.
pub proof fn lemma_titlebar_place(c: Client)
    ensures
        titlebar_of(c).window == c.window,
        titlebar_of(c).frame_window == c.frame_window,
        titlebar_of(c).width == c.width,
        titlebar_of(c).height == c.height,
        titlebar_of(c).text_x == 4,
        titlebar_of(c).text_y == 14,
{
}

/// At start-up exactly the windows that do not bypass the manager and are
/// mapped are taken over, each only if it was found.
pub proof fn lemma_scan_choice(children: Seq<ChildWindow>, child: ChildWindow)
    ensures
        children.filter(|c: ChildWindow| should_manage(c)).contains(child) <==> (children.contains(
            child,
        ) && !child.override_redirect && child.map_state != 0),
{
    broadcast use vstd::seq_lib::group_filter_ensures;

    let p = |c: ChildWindow| should_manage(c);
    if children.filter(p).contains(child) {
        children.lemma_filter_contains_rev(p, child);
        let k = choose|k: int| 0 <= k < children.filter(p).len() && children.filter(p)[k] == child;
        assert(p(children.filter(p)[k]));
    }
    if children.contains(child) && should_manage(child) {
        let k = choose|k: int| 0 <= k < children.len() && children[k] == child;
        children.lemma_filter_contains(p, k);
    }
}

/// An unmap reported by the root changes nothing and sends nothing. Any
/// other unmap sends one release per dropped client, each handing that
/// client's window back to the root; then the focus goes to the root when
/// no client is left; last a relayout is asked for.
pub proof fn lemma_unmap_answer(v: WmView, event: u32, window: u32)
    ensures
        event == v.root ==> unmap_step(v, event, window).0 == v && unmap_step(
            v,
            event,
            window,
        ).1.len() == 0,
        event != v.root ==> ({
            let (n, cmds) = unmap_step(v, event, window);
            let dropped = v.clients.filter(owned_by(window));
            let extra: int = if n.clients.len() == 0 { 2 } else { 1 };
            &&& cmds.len() == dropped.len() + extra
            &&& cmds[cmds.len() - 1] == Command::RequestRelayout
            &&& n.clients.len() == 0 ==> cmds[cmds.len() - 2] == Command::Focus { window: v.root }
            &&& forall|k: int|
                0 <= k < dropped.len() ==> #[trigger] cmds[k] == (Command::Release {
                    window: dropped[k].window,
                    frame: dropped[k].frame_window,
                    parent: v.root,
                    x: dropped[k].x,
                    y: dropped[k].y,
                }) && dropped[k].owns(window)
            &&& n.should_relayout == v.should_relayout && n.layout == v.layout
        }),
{
    broadcast use vstd::seq_lib::group_filter_ensures;

    let dropped = v.clients.filter(owned_by(window));
    assert forall|k: int| 0 <= k < dropped.len() implies (#[trigger] dropped[k]).owns(window) by {
        assert(owned_by(window)(dropped[k]));
    }
}

} // verus!
