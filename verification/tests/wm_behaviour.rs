use tilewm::geometry::{Client, Geometry, Layout, ScreenSize};
use tilewm::wm::{windows_to_manage, ChildWindow, Command, Event, Titlebar, WmState};
use tilewm::x11::{
    ConfigureRequest, WindowChanges, CONFIG_WINDOW_HEIGHT, CONFIG_WINDOW_SIBLING,
    CONFIG_WINDOW_STACK_MODE, CONFIG_WINDOW_WIDTH, CONFIG_WINDOW_X, STACK_MODE_ABOVE,
    STACK_MODE_BELOW,
};
use tilewm::{KEY_E, KEY_ENTER, KEY_F, MAX_CLIENTS, TITLEBAR_HEIGHT};

const ROOT: u32 = 1;

fn screen() -> ScreenSize {
    ScreenSize { width: 1920, height: 1080 }
}

fn blank(window: u32, frame: u32) -> Client {
    Client { frame_window: frame, window, x: 5, y: 6, width: 7, height: 8 }
}

fn state_with(n: u32) -> WmState {
    let mut wm = WmState::new(ROOT, screen());
    for i in 0..n {
        let g = Geometry { x: 10, y: 20, width: 300, height: 200 };
        wm.add_client(Client::new(100 + i, 200 + i, &g));
    }
    wm
}

/// Places the client at `index` among all clients and gives the requests
/// that configure it, as a relayout does.
fn relayout_one(wm: &mut WmState, index: usize, focused: u32) -> Vec<Command> {
    let len = wm.clients.len() as u16;
    assert!(wm.layout.placement_ok(&wm.screen, len, index));
    wm.place_client(len, index);
    wm.configure_client(index, focused)
}

fn no_changes() -> WindowChanges {
    WindowChanges { x: None, y: None, width: None, height: None, border_width: None, sibling: None, stack_mode: None }
}

#[test]
fn split_gives_equal_columns() {
    let mut c = blank(10, 11);
    Layout::Split.apply(&mut c, &screen(), 3, 1);
    assert_eq!(c, Client { frame_window: 11, window: 10, x: 640, y: 0, width: 640, height: 1080 });
    let mut d = blank(10, 11);
    Layout::Split.apply(&mut d, &screen(), 3, 2);
    assert_eq!((d.x, d.width), (1280, 640));
}

#[test]
fn master_stack_places_master_and_stack() {
    let mut m = blank(1, 2);
    Layout::MasterStack.apply(&mut m, &screen(), 3, 0);
    assert_eq!((m.x, m.y, m.width, m.height), (0, 0, 960, 1080));
    let mut s = blank(3, 4);
    Layout::MasterStack.apply(&mut s, &screen(), 3, 2);
    assert_eq!((s.x, s.y, s.width, s.height), (960, 540, 960, 540));
    let mut only = blank(5, 6);
    Layout::MasterStack.apply(&mut only, &screen(), 1, 0);
    assert_eq!((only.x, only.y, only.width, only.height), (0, 0, 1920, 1080));
}

#[test]
fn monocle_covers_the_screen() {
    let mut c = blank(1, 2);
    Layout::Monocle.apply(&mut c, &screen(), 5, 4);
    assert_eq!(c, Client { frame_window: 2, window: 1, x: 0, y: 0, width: 1920, height: 1080 });
}

#[test]
fn split_columns_do_not_overlap() {
    let s = ScreenSize { width: 1000, height: 500 };
    let mut prev_end = 0i32;
    for i in 0..7usize {
        let mut c = blank(1, 2);
        Layout::Split.apply(&mut c, &s, 7, i);
        assert!(c.x as i32 >= prev_end);
        prev_end = c.x as i32 + c.width as i32;
        assert!(prev_end <= 1000);
    }
}

#[test]
fn master_stack_rows_do_not_overlap() {
    let s = ScreenSize { width: 1000, height: 700 };
    let mut prev_end = 0i32;
    for i in 1..6usize {
        let mut c = blank(1, 2);
        Layout::MasterStack.apply(&mut c, &s, 6, i);
        assert_eq!(c.x, 500);
        assert!(c.y as i32 >= prev_end);
        prev_end = c.y as i32 + c.height as i32;
        assert!(prev_end <= 700);
    }
}

#[test]
fn client_new_keeps_geometry() {
    let g = Geometry { x: -3, y: 4, width: 50, height: 60 };
    let c = Client::new(7, 8, &g);
    assert_eq!(c, Client { frame_window: 8, window: 7, x: -3, y: 4, width: 50, height: 60 });
}

#[test]
fn new_state_is_empty_and_due() {
    let wm = WmState::new(ROOT, screen());
    assert_eq!(wm.root, ROOT);
    assert!(wm.clients.is_empty());
    assert_eq!(wm.layout, Layout::Split);
    assert_eq!(wm.prev_layout, Layout::Split);
    assert!(wm.should_relayout);
    assert!(wm.pending_expose.is_empty());
}

#[test]
fn find_client_by_window_or_frame() {
    let wm = state_with(3);
    assert_eq!(wm.find_client_by_id(101).map(|c| c.window), Some(101));
    assert_eq!(wm.find_client_by_id(202).map(|c| c.window), Some(102));
    assert!(wm.find_client_by_id(999).is_none());
}

#[test]
fn find_client_gives_the_first_match() {
    let mut wm = WmState::new(ROOT, screen());
    let g = Geometry { x: 0, y: 0, width: 1, height: 1 };
    wm.add_client(Client::new(5, 6, &g));
    wm.add_client(Client::new(7, 5, &g));
    assert_eq!(wm.find_client_by_id(5).map(|c| c.window), Some(5));
}

#[test]
fn key_e_toggles_tiled_layouts() {
    let mut wm = state_with(0);
    wm.should_relayout = false;
    assert!(wm.handle_keypress_event(KEY_E).is_empty());
    assert_eq!(wm.layout, Layout::MasterStack);
    assert_eq!(wm.prev_layout, Layout::Split);
    assert!(wm.should_relayout);
    wm.handle_keypress_event(KEY_E);
    assert_eq!(wm.layout, Layout::Split);
    assert_eq!(wm.prev_layout, Layout::MasterStack);
}

#[test]
fn key_f_twice_restores_layout() {
    let mut wm = state_with(0);
    wm.handle_keypress_event(KEY_E);
    wm.handle_keypress_event(KEY_F);
    assert_eq!(wm.layout, Layout::Monocle);
    assert_eq!(wm.prev_layout, Layout::MasterStack);
    wm.handle_keypress_event(KEY_F);
    assert_eq!(wm.layout, Layout::MasterStack);
    assert_ne!(wm.prev_layout, Layout::Monocle);
}

#[test]
fn key_e_leaves_monocle_for_master_stack() {
    let mut wm = state_with(0);
    wm.handle_keypress_event(KEY_F);
    wm.handle_keypress_event(KEY_E);
    assert_eq!(wm.layout, Layout::MasterStack);
    assert_eq!(wm.prev_layout, Layout::Split);
}

#[test]
fn enter_key_launches_and_other_keys_do_nothing() {
    let mut wm = state_with(0);
    wm.should_relayout = false;
    assert_eq!(wm.handle_keypress_event(KEY_ENTER), vec![Command::Launch]);
    assert!(!wm.should_relayout);
    assert!(wm.handle_keypress_event(99).is_empty());
    assert_eq!(wm.layout, Layout::Split);
    assert!(!wm.should_relayout);
}

#[test]
fn map_request_below_capacity_is_granted() {
    let mut wm = state_with(2);
    wm.should_relayout = false;
    assert_eq!(
        wm.handle_map_request_event(42),
        vec![Command::Manage { window: 42 }, Command::RequestRelayout]
    );
    assert!(!wm.should_relayout);
    wm.request_relayout();
    assert!(wm.should_relayout);
    assert_eq!(wm.clients.len(), 2);
}

#[test]
fn map_request_at_capacity_is_refused() {
    let wm = state_with(MAX_CLIENTS as u32);
    assert_eq!(
        wm.handle_map_request_event(42),
        vec![Command::Refuse { window: 42 }, Command::RequestRelayout]
    );
}

#[test]
fn manage_window_frames_and_adds_client() {
    let mut wm = state_with(0);
    let g = Geometry { x: 3, y: 4, width: 100, height: 50 };
    let frame = wm.frame_for(&g);
    assert_eq!((frame.parent, frame.x, frame.y, frame.width, frame.height), (ROOT, 3, 4, 100, 78));
    assert_eq!(frame.border_width, 2);
    let cmds = wm.manage_window(9, 10, &g);
    let client = Client { frame_window: 10, window: 9, x: 3, y: 4, width: 100, height: 50 };
    assert_eq!(
        cmds,
        vec![
            Command::Reparent { window: 9, parent: 10, x: 0, y: TITLEBAR_HEIGHT as i16 },
            Command::MapWindow { window: 9 },
            Command::MapWindow { window: 10 },
            Command::AddClient { client },
        ]
    );
    assert!(wm.clients.is_empty());
    wm.add_client(client);
    assert_eq!(wm.clients, vec![client]);
}

fn request(window: u32, mask: u16) -> ConfigureRequest {
    ConfigureRequest {
        response_type: 23,
        stack_mode: 1,
        sequence: 7,
        parent: ROOT,
        window,
        sibling: 55,
        x: -10,
        y: 20,
        width: 640,
        height: 480,
        border_width: 3,
        value_mask: mask,
    }
}

#[test]
fn configure_request_of_unmanaged_window_is_forwarded_without_stacking() {
    let wm = state_with(1);
    let mask = CONFIG_WINDOW_X | CONFIG_WINDOW_WIDTH | CONFIG_WINDOW_HEIGHT | CONFIG_WINDOW_SIBLING
        | CONFIG_WINDOW_STACK_MODE;
    let cmds = wm.handle_configure_request_event(&request(77, mask));
    let expected = WindowChanges { x: Some(-10), width: Some(640), height: Some(480), ..no_changes() };
    assert_eq!(cmds, vec![Command::Configure { window: 77, changes: expected }]);
}

#[test]
fn configure_request_with_empty_mask_changes_nothing() {
    let wm = state_with(0);
    let cmds = wm.handle_configure_request_event(&request(77, 0));
    assert_eq!(cmds, vec![Command::Configure { window: 77, changes: no_changes() }]);
}

#[test]
fn configure_request_of_managed_window_is_ignored() {
    let wm = state_with(2);
    assert!(wm.handle_configure_request_event(&request(101, CONFIG_WINDOW_X)).is_empty());
    assert!(wm.handle_configure_request_event(&request(200, CONFIG_WINDOW_X)).is_empty());
}

#[test]
fn enter_notify_focuses_and_raises_client() {
    let wm = state_with(2);
    let raise = WindowChanges { stack_mode: Some(STACK_MODE_ABOVE), ..no_changes() };
    assert_eq!(
        wm.handle_enter_notify_event(201),
        vec![Command::Focus { window: 101 }, Command::Configure { window: 101, changes: raise }]
    );
    assert!(wm.handle_enter_notify_event(5).is_empty());
}

#[test]
fn unmap_releases_client_and_keeps_the_rest() {
    let mut wm = state_with(3);
    wm.should_relayout = false;
    let cmds = wm.handle_unmap_notify_event(300, 101);
    assert_eq!(
        cmds,
        vec![
            Command::Release { window: 101, frame: 201, parent: ROOT, x: 10, y: 20 },
            Command::RequestRelayout,
        ]
    );
    assert_eq!(wm.clients.iter().map(|c| c.window).collect::<Vec<_>>(), vec![100, 102]);
    assert!(!wm.should_relayout);
    assert!(wm.find_client_by_id(101).is_none());
}

#[test]
fn unmap_of_last_client_focuses_root() {
    let mut wm = state_with(1);
    let cmds = wm.handle_unmap_notify_event(300, 200);
    assert_eq!(
        cmds,
        vec![
            Command::Release { window: 100, frame: 200, parent: ROOT, x: 10, y: 20 },
            Command::Focus { window: ROOT },
            Command::RequestRelayout,
        ]
    );
    assert!(wm.clients.is_empty());
}

#[test]
fn unmap_reported_by_root_is_ignored() {
    let mut wm = state_with(1);
    wm.should_relayout = false;
    assert!(wm.handle_unmap_notify_event(ROOT, 100).is_empty());
    assert_eq!(wm.clients.len(), 1);
    assert!(!wm.should_relayout);
}

#[test]
fn unmap_of_unknown_window_still_asks_for_relayout() {
    let mut wm = state_with(1);
    wm.should_relayout = false;
    assert_eq!(wm.handle_unmap_notify_event(300, 999), vec![Command::RequestRelayout]);
    assert_eq!(wm.clients.len(), 1);
}

#[test]
fn refresh_draws_each_exposed_client_once() {
    let mut wm = state_with(2);
    wm.handle_expose_event(201);
    wm.handle_expose_event(201);
    wm.handle_expose_event(999);
    let bars = wm.refresh();
    assert_eq!(
        bars,
        vec![Titlebar { window: 101, frame_window: 201, width: 300, height: 200, text_x: 4, text_y: 14 }]
    );
    assert!(wm.pending_expose.is_empty());
    assert!(wm.refresh().is_empty());
}

#[test]
fn refresh_draws_for_window_and_frame_exposures() {
    let mut wm = state_with(1);
    wm.handle_expose_event(100);
    wm.handle_expose_event(200);
    let bars = wm.refresh();
    assert_eq!(bars.len(), 2);
    assert!(bars.iter().all(|b| b.window == 100 && b.frame_window == 200));
}

#[test]
fn relayout_client_places_and_stacks() {
    let mut wm = state_with(2);
    let cmds = relayout_one(&mut wm, 1, 201);
    assert_eq!(wm.clients[1], Client { frame_window: 201, window: 101, x: 960, y: 0, width: 960, height: 1080 });
    let frame = WindowChanges {
        x: Some(960),
        y: Some(2),
        width: Some(958),
        height: Some(1078),
        stack_mode: Some(STACK_MODE_ABOVE),
        ..no_changes()
    };
    let inner = WindowChanges { x: Some(0), y: Some(28), width: Some(958), height: Some(1050), ..no_changes() };
    assert_eq!(
        cmds,
        vec![Command::Configure { window: 201, changes: frame }, Command::Configure { window: 101, changes: inner }]
    );
    let other = relayout_one(&mut wm, 0, 201);
    match other[0] {
        Command::Configure { window, changes } => {
            assert_eq!(window, 200);
            assert_eq!(changes.stack_mode, Some(STACK_MODE_BELOW));
        },
        _ => panic!("expected a configure request"),
    }
}

#[test]
fn relayout_saturates_small_and_far_clients() {
    let mut wm = WmState::new(ROOT, ScreenSize { width: 1, height: 65535 });
    let g = Geometry { x: 0, y: 0, width: 1, height: 1 };
    for i in 0..3 {
        wm.add_client(Client::new(10 + i, 20 + i, &g));
    }
    wm.handle_keypress_event(KEY_E);
    let cmds = relayout_one(&mut wm, 2, 0);
    assert_eq!(wm.clients[2].y, 32767);
    match (cmds[0], cmds[1]) {
        (Command::Configure { changes: f, .. }, Command::Configure { changes: w, .. }) => {
            assert_eq!(f.y, Some(32767));
            assert_eq!(f.width, Some(0));
            assert_eq!(w.height, Some(32767 - 2 - 28));
        },
        _ => panic!("expected configure requests"),
    }
}

#[test]
fn finish_relayout_clears_the_request() {
    let mut wm = state_with(0);
    assert!(wm.should_relayout);
    wm.finish_relayout();
    assert!(!wm.should_relayout);
}

#[test]
fn placement_check_matches_the_layouts() {
    let s = ScreenSize { width: 65535, height: 65535 };
    assert!(!Layout::Split.placement_ok(&s, 0, 0));
    assert!(Layout::Split.placement_ok(&s, 2, 1));
    assert!(!Layout::Split.placement_ok(&s, 1, 2));
    assert!(Layout::MasterStack.placement_ok(&s, 0, 0));
    assert!(!Layout::MasterStack.placement_ok(&s, 0, 1));
    assert!(!Layout::MasterStack.placement_ok(&s, 2, 3));
    assert!(Layout::Monocle.placement_ok(&s, 0, 9));
}

#[test]
fn placing_every_client_in_turn_tiles_them() {
    let mut wm = state_with(4);
    let len = wm.clients.len() as u16;
    for i in 0..wm.clients.len() {
        wm.place_client(len, i);
    }
    let xs: Vec<i16> = wm.clients.iter().map(|c| c.x).collect();
    assert_eq!(xs, vec![0, 480, 960, 1440]);
    assert!(wm.clients.iter().all(|c| c.width == 480 && c.height == 1080 && c.y == 0));
}

#[test]
fn scan_takes_over_mapped_normal_windows() {
    let g = Geometry { x: 0, y: 0, width: 1, height: 1 };
    let kids = vec![
        ChildWindow { window: 1, geometry: g, override_redirect: false, map_state: 2 },
        ChildWindow { window: 2, geometry: g, override_redirect: true, map_state: 2 },
        ChildWindow { window: 3, geometry: g, override_redirect: false, map_state: 0 },
        ChildWindow { window: 4, geometry: g, override_redirect: false, map_state: 1 },
    ];
    let chosen: Vec<u32> = windows_to_manage(&kids).iter().map(|c| c.window).collect();
    assert_eq!(chosen, vec![1, 4]);
}

#[test]
fn handle_events_dispatches() {
    let mut wm = state_with(1);
    assert_eq!(
        wm.handle_events(Event::MapRequest { window: 5 }),
        vec![Command::Manage { window: 5 }, Command::RequestRelayout]
    );
    assert!(wm.handle_events(Event::Expose { window: 100 }).is_empty());
    assert!(wm.pending_expose.contains(&100));
    assert_eq!(wm.handle_events(Event::KeyPress { detail: KEY_ENTER }), vec![Command::Launch]);
    assert_eq!(wm.handle_events(Event::EnterNotify { event: 100 }).len(), 2);
    assert!(wm.handle_events(Event::Other).is_empty());
    assert_eq!(wm.handle_events(Event::UnmapNotify { event: 9, window: 100 }).len(), 3);
    assert!(wm.clients.is_empty());
    assert_eq!(wm.handle_events(Event::ConfigureRequest(request(3, 0))).len(), 1);
}

#[test]
fn master_stack_with_two_clients_sits_side_by_side() {
    let s = ScreenSize { width: 1001, height: 700 };
    let mut m = blank(1, 2);
    Layout::MasterStack.apply(&mut m, &s, 2, 0);
    let mut o = blank(3, 4);
    Layout::MasterStack.apply(&mut o, &s, 2, 1);
    assert_eq!((m.x, m.y, m.width, m.height), (0, 0, 500, 700));
    assert_eq!((o.x, o.y, o.width, o.height), (500, 0, 500, 700));
    assert!(m.x as i32 + m.width as i32 <= o.x as i32);
    assert!(o.x as i32 + o.width as i32 <= 1001);
}
