use eterpix_vrc_uploader::config::{AppConfig, SettingsUpdate, StoredConfig};
use eterpix_vrc_uploader::history::{record_upload, UploadHistoryItem};
use eterpix_vrc_uploader::offline_queue::{queued_image_name, QueueCounts};
use eterpix_vrc_uploader::startup::{is_startup_registered, register_startup, startup_command, unregister_startup};
use eterpix_vrc_uploader::text::{decimal_string, str_eq};
use eterpix_vrc_uploader::worker::{
    is_screenshot_name, jpg_filename, resend_start, screenshot_action, HealthTimer, ResendStart,
    ScreenshotAction,
};

#[test]
fn default_config() {
    let c = AppConfig::default();
    assert_eq!(c.server_url, "https://www.eterpix.uk");
    assert_eq!(c.watch_folder, "");
    assert!(c.auto_upload);
    assert_eq!(c.jpeg_quality, 85);
    assert_eq!(c.default_visibility, "self");
    assert!(!c.watch_enabled && !c.osc_enabled);
    assert_eq!((c.osc_send_port, c.osc_recv_port), (9000, 9001));
    assert!(c.notifications_enabled);
    assert!(c.saved_token.is_none() && c.saved_username.is_none());
    assert_eq!(c.custom_watch_folder(), None);
}

fn empty_stored() -> StoredConfig {
    StoredConfig {
        server_url: None,
        watch_folder: None,
        auto_upload: None,
        jpeg_quality: None,
        default_visibility: None,
        watch_enabled: None,
        osc_enabled: None,
        osc_send_port: None,
        osc_recv_port: None,
        notifications_enabled: None,
        saved_token: None,
        saved_username: None,
    }
}

#[test]
fn missing_fields_take_defaults() {
    let mut s = empty_stored();
    s.jpeg_quality = Some(50);
    s.saved_username = Some("alice".to_string());
    s.watch_folder = Some("D:/shots".to_string());
    let c = AppConfig::from_stored(s);
    assert_eq!(c.jpeg_quality, 50);
    assert_eq!(c.saved_username, Some("alice".to_string()));
    assert_eq!(c.server_url, "https://www.eterpix.uk");
    assert_eq!(c.osc_recv_port, 9001);
    assert_eq!(c.custom_watch_folder(), Some("D:/shots".to_string()));
    let d = AppConfig::from_stored(empty_stored());
    assert_eq!(d.default_visibility, "self");
    assert!(d.auto_upload);
}

#[test]
fn settings_update() {
    let mut c = AppConfig::default();
    c.apply_settings(SettingsUpdate {
        server_url: Some("https://x".to_string()),
        watch_folder: None,
        default_visibility: Some("public".to_string()),
        auto_upload: Some(false),
        jpeg_quality: None,
        osc_send_port: Some(1),
        osc_recv_port: None,
    });
    assert_eq!(c.server_url, "https://x");
    assert_eq!(c.default_visibility, "public");
    assert!(!c.auto_upload);
    assert_eq!(c.jpeg_quality, 85);
    assert_eq!(c.osc_send_port, 1);
    assert_eq!(c.osc_recv_port, 9001);
    c.record_login(Some("t".to_string()), "bob".to_string());
    assert_eq!(c.saved_token, Some("t".to_string()));
    assert_eq!(c.saved_username, Some("bob".to_string()));
    c.clear_login();
    assert!(c.saved_token.is_none() && c.saved_username.is_none());
    assert_eq!(c.server_url, "https://x");
}

fn item(n: usize) -> UploadHistoryItem {
    UploadHistoryItem { filename: format!("{}.jpg", n), photo_uuid: None, time: "00:00:00".to_string() }
}

#[test]
fn history_keeps_ten_newest_first() {
    let mut h = Vec::new();
    for n in 0..12 {
        record_upload(&mut h, item(n));
        assert!(h.len() <= 10);
    }
    assert_eq!(h.len(), 10);
    assert_eq!(h[0].filename, "11.jpg");
    assert_eq!(h[9].filename, "2.jpg");
}

#[test]
fn health_check_every_600_ticks() {
    let mut t = HealthTimer::new();
    let mut fired = Vec::new();
    for n in 1..=1800u32 {
        if t.tick() {
            fired.push(n);
        }
    }
    assert_eq!(fired, vec![600, 1200, 1800]);
}

#[test]
fn screenshot_decisions() {
    assert_eq!(screenshot_action(false, true), ScreenshotAction::NotLoggedIn);
    assert_eq!(screenshot_action(true, false), ScreenshotAction::Ignore);
    assert_eq!(screenshot_action(true, true), ScreenshotAction::Upload);
    assert_eq!(jpg_filename("VRChat_2024.png"), "VRChat_2024.jpg");
    assert_eq!(jpg_filename("a.png.png"), "a.jpg.jpg");
    assert_eq!(jpg_filename("写真.png"), "写真.jpg");
    assert_eq!(jpg_filename("noext"), "noext");
    assert!(is_screenshot_name("VRChat_2024-01-01_00-00-00.000_1920x1080.png"));
    assert!(!is_screenshot_name("VRChat_debug.jpg"));
    assert!(!is_screenshot_name("VRChat_debug_1.png"));
    assert!(!is_screenshot_name("x_debug_.png"));
    assert!(!is_screenshot_name(""));
    assert!(is_screenshot_name(".png"));
}

#[test]
fn queue_counts_and_resend() {
    let c = QueueCounts::from_query_results(Some(2), None);
    assert_eq!((c.photos, c.worlds), (2, 0));
    assert_eq!(c.total(), 2);
    assert!(c.has_pending_data());
    let empty = QueueCounts::default();
    assert!(!empty.has_pending_data());
    assert_eq!(resend_start(false, &c), ResendStart::NotLoggedIn);
    assert_eq!(resend_start(true, &empty), ResendStart::NothingQueued);
    assert_eq!(resend_start(true, &c), ResendStart::CheckServer);
    assert_eq!(queued_image_name("abc"), "abc.jpg");
}

#[test]
fn startup_off_windows() {
    assert!(!is_startup_registered());
    assert!(!register_startup("C:/app.exe"));
    assert!(!unregister_startup());
    assert_eq!(startup_command("C:/app.exe"), "\"C:/app.exe\" --minimized");
}

#[test]
fn text_helpers() {
    assert_eq!(decimal_string(0), "0");
    assert_eq!(decimal_string(9000), "9000");
    assert_eq!(decimal_string(u64::MAX), u64::MAX.to_string());
    assert!(str_eq("あい", "あい"));
    assert!(!str_eq("a", "ab"));
}
