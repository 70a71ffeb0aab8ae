use undocked::command_types::{CloseNotification, PopUpFeatures, Size};
use undocked::lobby::{features, Action, Backend, IdAllocator, Lobby, Msg};

fn live(lobby: &Lobby<String>) -> Vec<u8> {
    lobby.tables().tables().iter().map(|t| t.id).collect()
}

fn create(lobby: &mut Lobby<String>) -> u8 {
    match lobby.update(Msg::CreateWindow, "http:", "localhost:8080") {
        Action::Open { id, features } => {
            lobby.window_opened::<String>(id, Ok(features.target));
            id
        }
        other => panic!("expected a surface to open, got {:?}", other),
    }
}

#[test]
fn allocator_counts_from_zero() {
    let mut ids = IdAllocator::new();
    assert_eq!(ids.next(), 0);
    assert_eq!(ids.next(), 1);
    assert_eq!(ids.next(), 2);
}

#[test]
fn allocator_starts_again_after_the_greatest() {
    let mut ids = IdAllocator::starting_at(254);
    assert_eq!(ids.next(), 254);
    assert_eq!(ids.next(), 255);
    assert_eq!(ids.next(), 0);
    assert_eq!(ids.next(), 1);
}

#[test]
fn allocator_issues_each_id_once_per_round() {
    let mut ids = IdAllocator::new();
    let mut seen = vec![false; 256];
    for _ in 0..256 {
        let id = ids.next() as usize;
        assert!(!seen[id]);
        seen[id] = true;
    }
    assert_eq!(ids.next(), 0);
}

#[test]
fn features_for_the_browser() {
    let f = features(7, "https:", "example.org", Backend::Browser);
    assert_eq!(
        f,
        PopUpFeatures {
            url: "https://example.org/table/7".to_string(),
            target: "/table/7".to_string(),
            size: Some(Size { height: 200, width: 300 }),
            position: None,
            close_notification: None,
        }
    );
    assert_eq!(f.to_string(), "innerWidth=300,innerHeight=200");
}

#[test]
fn features_for_the_native_host() {
    let f = features(255, "tauri:", "localhost", Backend::Native);
    assert_eq!(f.url, "tauri://localhost/table/255");
    assert_eq!(f.target, "/table/255");
    assert_eq!(f.size, Some(Size { height: 200, width: 300 }));
    assert_eq!(f.position, None);
    assert_eq!(
        f.close_notification,
        Some(CloseNotification { receiver_label: "main".to_string(), id: 255 })
    );
}

#[test]
fn closed_payload_is_read_back() {
    assert_eq!(Msg::from_closed_payload(0), Msg::CloseWindow(0));
    assert_eq!(Msg::from_closed_payload(255), Msg::CloseWindow(255));
    assert_eq!(Msg::from_closed_payload(256), Msg::CloseWindow(0));
    assert_eq!(Msg::from_closed_payload(300), Msg::CloseWindow(44));
    assert_eq!(Msg::from_closed_payload(u64::MAX), Msg::CloseWindow(255));
    for id in 0..=255u8 {
        let sent = features(id, "tauri:", "localhost", Backend::Native)
            .close_notification
            .expect("the native backend asks for a notification")
            .id;
        assert_eq!(Msg::from_closed_payload(sent), Msg::CloseWindow(id));
    }
}

#[test]
fn new_lobby_has_no_tables() {
    let lobby: Lobby<String> = Lobby::new(Backend::Browser);
    assert!(lobby.tables().is_empty());
}

#[test]
fn create_asks_for_a_surface_and_waits_for_it() {
    let mut lobby: Lobby<String> = Lobby::new(Backend::Native);
    let (id, f) = lobby.create_window("tauri:", "localhost");
    assert_eq!(id, 0);
    assert_eq!(f, features(0, "tauri:", "localhost", Backend::Native));
    assert!(lobby.tables().is_empty());
    lobby.window_opened::<()>(id, Ok("/table/0".to_string()));
    assert_eq!(live(&lobby), vec![0]);
    assert_eq!(lobby.tables().tables()[0].window, "/table/0");
}

#[test]
fn failed_open_spends_the_id_and_adds_nothing() {
    let mut lobby: Lobby<String> = Lobby::new(Backend::Browser);
    let (id, _) = lobby.create_window("http:", "h");
    assert_eq!(id, 0);
    lobby.window_opened(id, Err("blocked"));
    assert!(lobby.tables().is_empty());
    assert_eq!(create(&mut lobby), 1);
    assert_eq!(live(&lobby), vec![1]);
}

#[test]
fn update_tells_whether_to_draw_again() {
    let mut lobby: Lobby<String> = Lobby::new(Backend::Browser);
    let open = lobby.update(Msg::CreateWindow, "http:", "h");
    assert!(open.should_render());
    match open {
        Action::Open { id, features } => lobby.window_opened::<()>(id, Ok(features.target)),
        other => panic!("expected a surface to open, got {:?}", other),
    }
    let close = lobby.update(Msg::CloseWindow(0), "http:", "h");
    assert!(close.should_render());
    let again = lobby.update(Msg::CloseWindow(0), "http:", "h");
    assert!(!again.should_render());
}

#[test]
fn table_closes_itself() {
    let mut lobby: Lobby<String> = Lobby::new(Backend::Native);
    assert_eq!(create(&mut lobby), 0);
    assert_eq!(live(&lobby), vec![0]);
    let notified = Msg::from_closed_payload(0);
    match lobby.update(notified, "tauri:", "localhost") {
        Action::Close { table } => {
            assert_eq!(table.id, 0);
            assert_eq!(table.window, "/table/0");
        }
        other => panic!("expected a handle to close, got {:?}", other),
    }
    assert!(lobby.tables().is_empty());
}

#[test]
fn lobby_closes_a_table_and_a_stray_notification_follows() {
    let mut lobby: Lobby<String> = Lobby::new(Backend::Native);
    assert_eq!(create(&mut lobby), 0);
    assert_eq!(create(&mut lobby), 1);
    assert_eq!(live(&lobby), vec![0, 1]);
    let trigger = lobby.tables().tables()[0].close_message();
    let mut close_requests = 0;
    if let Action::Close { table } = lobby.update(trigger, "tauri:", "localhost") {
        assert_eq!(table.id, 0);
        close_requests += 1;
    }
    assert_eq!(close_requests, 1);
    assert_eq!(live(&lobby), vec![1]);
    match lobby.update(Msg::from_closed_payload(0), "tauri:", "localhost") {
        Action::Nothing => {}
        other => panic!("expected nothing to do, got {:?}", other),
    }
    assert_eq!(close_requests, 1);
    assert_eq!(live(&lobby), vec![1]);
}

#[test]
fn close_window_twice() {
    let mut lobby: Lobby<String> = Lobby::new(Backend::Browser);
    create(&mut lobby);
    create(&mut lobby);
    assert!(lobby.close_window(1).is_some());
    assert!(lobby.close_window(1).is_none());
    assert_eq!(live(&lobby), vec![0]);
}

#[test]
fn registry_follows_creation_order() {
    let mut lobby: Lobby<String> = Lobby::new(Backend::Browser);
    for _ in 0..5 {
        create(&mut lobby);
    }
    lobby.close_window(1);
    lobby.close_window(3);
    create(&mut lobby);
    assert_eq!(live(&lobby), vec![0, 2, 4, 5]);
    assert_eq!(
        lobby.tables().neighbors(),
        vec![
            (None, 0, Some(2)),
            (Some(0), 2, Some(4)),
            (Some(2), 4, Some(5)),
            (Some(4), 5, None),
        ]
    );
}

#[test]
fn ids_are_distinct_while_fewer_are_created_than_exist() {
    let mut lobby: Lobby<String> = Lobby::new(Backend::Browser);
    for n in 0..256u32 {
        create(&mut lobby);
        if n % 3 == 0 {
            lobby.close_window((n / 2) as u8);
        }
    }
    let ids = live(&lobby);
    for i in 0..ids.len() {
        for j in (i + 1)..ids.len() {
            assert!(ids[i] < ids[j]);
        }
    }
}

#[test]
fn an_id_comes_back_after_all_are_spent() {
    let mut lobby: Lobby<String> = Lobby::new(Backend::Browser);
    for _ in 0..256 {
        create(&mut lobby);
    }
    assert_eq!(create(&mut lobby), 0);
    let ids = live(&lobby);
    assert_eq!(ids.len(), 257);
    assert_eq!(ids[0], 0);
    assert_eq!(ids[256], 0);
}
