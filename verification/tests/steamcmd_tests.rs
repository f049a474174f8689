use steamcmd::steamcmd::App;
use steamcmd::steamcmd::SteamCmd;
use steamcmd::steamcmd::WorkshopItem;

#[test]
fn quit_only_renders_quit() {
    let (program, args) = SteamCmd::new("steamcmd".to_string()).quit();
    assert_eq!(program, "steamcmd".to_string());
    assert_eq!(args, vec!["+quit".to_string()]);
}

#[test]
fn build_without_quit_renders_nothing_for_empty_builder() {
    let (program, args) = SteamCmd::new("steamcmd".to_string()).build();
    assert_eq!(program, "steamcmd".to_string());
    assert_eq!(args, Vec::<String>::new());
}

#[test]
fn end_to_end_render() {
    let (_, args) = SteamCmd::new("steamcmd".to_string())
        .force_install_dir("/srv/game".to_string())
        .user("alice".to_string())
        .app_update(App::new(730), true)
        .workshop_download_item(App::new(730), WorkshopItem::new(12345))
        .quit();
    let expected: Vec<String> = vec![
        "+force_install_dir".to_string(),
        "/srv/game".to_string(),
        "+login".to_string(),
        "alice".to_string(),
        "+app_update".to_string(),
        "730".to_string(),
        "validate".to_string(),
        "+workshop_download_item".to_string(),
        "730".to_string(),
        "12345".to_string(),
        "+quit".to_string(),
    ];
    assert_eq!(args, expected);
}

#[test]
fn rendering_is_deterministic() {
    let drive = || {
        SteamCmd::new("steamcmd".to_string())
            .user("bob".to_string())
            .app_update(App::new(7), false)
            .workshop_download_item(App::new(7), WorkshopItem::new(9))
            .quit()
    };
    assert_eq!(drive(), drive());
}

#[test]
fn dir_and_user_render_in_fixed_order() {
    // The user is recorded before the directory, yet the directory renders
    // first.
    let (_, args) = SteamCmd::new("steamcmd".to_string())
        .user("alice".to_string())
        .force_install_dir("/srv/game".to_string())
        .build();
    let expected: Vec<String> = vec![
        "+force_install_dir".to_string(),
        "/srv/game".to_string(),
        "+login".to_string(),
        "alice".to_string(),
    ];
    assert_eq!(args, expected);
}

#[test]
fn interleaved_actions_keep_call_order() {
    let (_, args) = SteamCmd::new("steamcmd".to_string())
        .workshop_download_item(App::new(1), WorkshopItem::new(10))
        .app_update(App::new(2), false)
        .workshop_download_item(App::new(3), WorkshopItem::new(30))
        .build();
    let expected: Vec<String> = vec![
        "+workshop_download_item".to_string(),
        "1".to_string(),
        "10".to_string(),
        "+app_update".to_string(),
        "2".to_string(),
        "+workshop_download_item".to_string(),
        "3".to_string(),
        "30".to_string(),
    ];
    assert_eq!(args, expected);
}

#[test]
fn validate_renders_only_after_its_own_update() {
    let (_, args) = SteamCmd::new("steamcmd".to_string())
        .app_update(App::new(1), true)
        .app_update(App::new(2), false)
        .build();
    let expected: Vec<String> = vec![
        "+app_update".to_string(),
        "1".to_string(),
        "validate".to_string(),
        "+app_update".to_string(),
        "2".to_string(),
    ];
    assert_eq!(args, expected);
}

#[test]
fn second_install_dir_wins() {
    let (_, args) = SteamCmd::new("steamcmd".to_string())
        .force_install_dir("/first".to_string())
        .force_install_dir("/second".to_string())
        .build();
    let expected: Vec<String> = vec!["+force_install_dir".to_string(), "/second".to_string()];
    assert_eq!(args, expected);
}

#[test]
fn second_user_wins() {
    let (_, args) = SteamCmd::new("steamcmd".to_string())
        .user("alice".to_string())
        .user("bob".to_string())
        .build();
    let expected: Vec<String> = vec!["+login".to_string(), "bob".to_string()];
    assert_eq!(args, expected);
}

#[test]
fn workshop_item_url() {
    assert_eq!(
        WorkshopItem::new(12345).url(),
        "https://steamcommunity.com/sharedfiles/filedetails/?id=12345".to_string()
    );
}

#[test]
fn workshop_item_accessors() {
    let item = WorkshopItem::new(42);
    assert_eq!(item.id(), 42);
    assert_eq!(WorkshopItem::from(42u32), item);
    assert_eq!(u32::from(item), 42);
}

#[test]
fn app_accessors() {
    let app = App::new(730);
    assert_eq!(app.app_id(), 730);
    assert_eq!(app.workshop_item(12345).id(), 12345);
    assert_eq!(App::from(730u32), app);
    assert_eq!(u32::from(app), 730);
}

#[test]
fn decimal_rendering_edge_values() {
    assert_eq!(steamcmd::decimal::u32_to_string(0), "0".to_string());
    assert_eq!(steamcmd::decimal::u32_to_string(10), "10".to_string());
    assert_eq!(steamcmd::decimal::u32_to_string(4294967295), "4294967295".to_string());
    let (_, args) = SteamCmd::new("steamcmd".to_string())
        .app_update(App::new(0), false)
        .app_update(App::new(4294967295), false)
        .build();
    let expected: Vec<String> = vec![
        "+app_update".to_string(),
        "0".to_string(),
        "+app_update".to_string(),
        "4294967295".to_string(),
    ];
    assert_eq!(args, expected);
}
