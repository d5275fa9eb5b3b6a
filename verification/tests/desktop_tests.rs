use rs_shield::app_preferences::Theme;
use rs_shield::desktop_session::{
    browser_login_result, codes_precheck, credential_check_message, login_overlay_message,
    login_precheck, recovery_precheck, recovery_result, register_precheck, theme_class, ActiveTab,
    AppShell,
};
use rs_shield::desktop_views::{
    bot_summary, chat_ids_failure, chat_list_text, nav_item_class, telegram_precheck,
    validation_failure, SnapshotMode, SnapshotsView,
};
use rs_shield::profile_manager::{
    created_label, delete_failed_message, deleted_message, ModifiedAge, ProfileFileInfo,
    ProfileManager,
};

#[test]
fn shell_navigation() {
    let mut app = AppShell::new();
    assert_eq!(app.visible_screen(), None);
    app.select(ActiveTab::Prune);
    app.login("ana".to_string());
    assert_eq!(app.visible_screen(), Some(ActiveTab::Prune));
    app.logout();
    assert_eq!(app.active_tab, ActiveTab::Backup);
    assert_eq!(app.visible_screen(), None);
    assert_eq!(theme_class(Theme::Dark), "dark");
    assert_eq!(theme_class(Theme::System), "");
}

#[test]
fn login_screen_steps() {
    assert_eq!(login_precheck("", "User ID"), Err("⚠️ User ID is required.".to_string()));
    assert_eq!(login_precheck("ana", "User ID"), Ok(()));
    assert_eq!(credential_check_message("ana", false), Err("❌ Identifier 'ana' not found.".to_string()));
    assert_eq!(credential_check_message("ana", true), Ok("🌐 Browser is opening for authentication...".to_string()));
    assert_eq!(browser_login_result("ana".to_string(), Ok(())), Ok("ana".to_string()));
    assert_eq!(
        browser_login_result("ana".to_string(), Err("Connection refused".to_string())),
        Err("❌ Connection error. Please check your network and try again.".to_string())
    );
    assert_eq!(recovery_precheck("ana", ""), Err("⚠️ Identifier and code are required.".to_string()));
    assert_eq!(recovery_precheck("ana", "AB-CD"), Ok(()));
    assert_eq!(recovery_result("ana".to_string(), true), Ok("ana".to_string()));
    assert_eq!(recovery_result("ana".to_string(), false), Err("❌ Código de recuperação inválido ou já utilizado.".to_string()));
    assert_eq!(login_overlay_message(true), "Verifying recovery code...");
    assert_eq!(login_overlay_message(false), "Authenticating with FIDO2...");
    assert_eq!(register_precheck("", "User"), Err("⚠️ User is required".to_string()));
    assert_eq!(register_precheck("u", "User"), Ok("🌐 Open the browser to register FIDO2 key...".to_string()));
    assert_eq!(codes_precheck("", "User"), Err("⚠️ User is required to generate recovery codes.".to_string()));
}

#[test]
fn profile_manager_lists_sorted_profiles() {
    let entries = vec![
        ProfileFileInfo { path: "/h/.rsb-desktop/work.toml".to_string(), is_file: true, file_name: "work.toml".to_string(), age: ModifiedAge::Elapsed(3 * 86400 + 5) },
        ProfileFileInfo { path: "/h/.rsb-desktop/a.toml".to_string(), is_file: true, file_name: "a.toml".to_string(), age: ModifiedAge::InFuture },
        ProfileFileInfo { path: "/h/.rsb-desktop/x.txt".to_string(), is_file: true, file_name: "x.txt".to_string(), age: ModifiedAge::Unknown },
        ProfileFileInfo { path: "/h/.rsb-desktop/d.toml".to_string(), is_file: false, file_name: "d.toml".to_string(), age: ModifiedAge::Unknown },
    ];
    let list = ProfileManager::list_profiles(&entries);
    assert_eq!(list.len(), 2);
    assert_eq!((list[0].name.as_str(), list[0].created.as_str()), ("a", "Recently"));
    assert_eq!((list[1].name.as_str(), list[1].created.as_str()), ("work", "3 days ago"));
    assert_eq!(list[1].path, "/h/.rsb-desktop/work.toml");
    assert_eq!(created_label(&ModifiedAge::Unknown), "Unknown");
    assert_eq!(created_label(&ModifiedAge::Elapsed(86399)), "0 days ago");
    assert_eq!(deleted_message("work"), "✅ Profile 'work' deleted successfully!");
    assert_eq!(delete_failed_message("denied"), "❌ Error: Error deleting profile: denied");
}

#[test]
fn snapshots_browser() {
    let mut v = SnapshotsView::new();
    v.compare();
    assert_eq!(v.error, Some("Selecione dois snapshots para comparar".to_string()));
    assert_eq!(v.mode, SnapshotMode::List);
    v.selected_from = Some("a".to_string());
    v.selected_to = Some("b".to_string());
    v.compare();
    assert_eq!((v.mode, v.error.clone()), (SnapshotMode::Diff, None));
    v.show("c".to_string());
    assert_eq!((v.mode, v.selected.clone()), (SnapshotMode::Details, Some("c".to_string())));
    v.delete("c");
    assert_eq!(v.error, Some("Snapshot c será deletado".to_string()));
    v.reload();
    assert_eq!(v.error, None);
    v.set_mode(SnapshotMode::List);
    assert_eq!(v.mode, SnapshotMode::List);
}

#[test]
fn telegram_checker_texts() {
    assert_eq!(telegram_precheck(""), Err("❌ Please enter a bot token".to_string()));
    assert_eq!(telegram_precheck("123:abc"), Ok("🔄 Validating bot token...".to_string()));
    assert_eq!(bot_summary("Shield", Some("shield_bot"), "42"), "✅ Bot válido: Shield (@shield_bot)\nID: 42");
    assert_eq!(bot_summary("Shield", None, "42"), "✅ Bot válido: Shield (@sem username)\nID: 42");
    let chats = vec![("-100".to_string(), "group".to_string()), ("7".to_string(), "private".to_string())];
    assert_eq!(chat_list_text(&chats), "\n\n✅ Found 2 chat(s):\n  • Chat ID: -100 (group)\n  • Chat ID: 7 (private)\n");
    assert_eq!(
        chat_ids_failure("ok", "no updates"),
        "ok\n\n⚠️ Could not get chat IDs: no updates\n\nSolution: Send /start to your bot and try again"
    );
    assert_eq!(validation_failure("401"), "❌ Validation failed:\n401");
    assert_eq!(nav_item_class(true), "nav-item active");
    assert_eq!(nav_item_class(false), "nav-item");
}
