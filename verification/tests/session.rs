use eterpix_vrc_uploader::history::UploadHistoryItem;
use eterpix_vrc_uploader::log_parser::LogEvent;
use eterpix_vrc_uploader::session::{
    after_join_report, after_upload, on_log_event, plan_upload, record_accepted_upload, Connection,
    DrainStep, QueueDrain, WorldReport,
};
use eterpix_vrc_uploader::uploader::{ApiResponse, JsonValue};

fn success_with_uuid(uuid: &str) -> ApiResponse {
    ApiResponse {
        status: "success".to_string(),
        message: None,
        data: Some(JsonValue::Object(vec![(
            "photo_uuid".to_string(),
            JsonValue::Text(uuid.to_string()),
        )])),
    }
}

fn item(name: &str) -> UploadHistoryItem {
    UploadHistoryItem { filename: name.to_string(), photo_uuid: None, time: "00:00:00".to_string() }
}

#[test]
fn connection_reports_only_changes() {
    let mut c = Connection::at_start(true);
    assert!(c.is_offline);
    assert!(!c.set_offline(true));
    assert!(c.set_offline(false));
    assert!(!c.is_offline);
    assert!(!c.set_offline(false));
    assert!(!Connection::at_start(false).is_offline);
}

#[test]
fn drain_sends_joins_then_photos_in_order() {
    let mut d = QueueDrain::new(2);
    let mut steps = Vec::new();
    loop {
        let s = d.next_step();
        steps.push(s);
        match s {
            DrainStep::SendJoin(_) | DrainStep::SendPhoto(_) => d.record_send(true),
            DrainStep::LoadPhotos => d.photos_loaded(3),
            DrainStep::Finished | DrainStep::Stopped => break,
        }
    }
    assert_eq!(
        steps,
        vec![
            DrainStep::SendJoin(0),
            DrainStep::SendJoin(1),
            DrainStep::LoadPhotos,
            DrainStep::SendPhoto(0),
            DrainStep::SendPhoto(1),
            DrainStep::SendPhoto(2),
            DrainStep::Finished,
        ]
    );
}

#[test]
fn drain_of_empty_queue_only_reads_photos() {
    let mut d = QueueDrain::new(0);
    assert_eq!(d.next_step(), DrainStep::LoadPhotos);
    d.photos_loaded(0);
    assert_eq!(d.next_step(), DrainStep::Finished);
}

#[test]
fn drain_stops_at_first_failure() {
    let mut d = QueueDrain::new(3);
    assert_eq!(d.next_step(), DrainStep::SendJoin(0));
    d.record_send(true);
    assert_eq!(d.next_step(), DrainStep::SendJoin(1));
    d.record_send(false);
    assert_eq!(d.next_step(), DrainStep::Stopped);
    assert_eq!(d.sent_joins, 1);
    assert_eq!(d.photos, None);

    let mut d = QueueDrain::new(0);
    d.photos_loaded(2);
    assert_eq!(d.next_step(), DrainStep::SendPhoto(0));
    d.record_send(false);
    assert_eq!(d.next_step(), DrainStep::Stopped);
    assert_eq!(d.sent_photos, 0);
}

#[test]
fn log_events_track_the_world() {
    let mut world = None;
    let join = LogEvent::WorldJoined { world_id: "wrld_a".to_string(), instance_id: "12".to_string() };
    match on_log_event(&mut world, &join, true) {
        WorldReport::Join { world_id, instance_id } => {
            assert_eq!(world_id, "wrld_a");
            assert_eq!(instance_id, "12");
        }
        _ => panic!("expected a join report"),
    }
    assert_eq!(world, Some(("wrld_a".to_string(), "12".to_string())));

    let leave = LogEvent::WorldLeft { world_id: "wrld_a".to_string(), instance_id: "12".to_string() };
    assert!(matches!(on_log_event(&mut world, &leave, true), WorldReport::Leave));
    assert_eq!(world, None);

    assert!(matches!(on_log_event(&mut world, &join, false), WorldReport::Nothing));
    assert_eq!(world, Some(("wrld_a".to_string(), "12".to_string())));
    assert!(matches!(on_log_event(&mut world, &leave, false), WorldReport::Nothing));
    assert_eq!(world, None);
}

#[test]
fn failed_join_report_goes_offline_and_queues() {
    let mut c = Connection::at_start(false);
    let f = after_join_report(&mut c, false);
    assert!(f.mode_changed && f.queue_join && c.is_offline);
    let f = after_join_report(&mut c, false);
    assert!(!f.mode_changed && f.queue_join);
    let f = after_join_report(&mut c, true);
    assert!(f.mode_changed && !f.queue_join && !c.is_offline);
}

#[test]
fn upload_plan_from_session() {
    let world = Some(("wrld_x".to_string(), "99~private".to_string()));
    let online = Connection::at_start(false);
    let p = plan_upload(&world, "friends", true, "VRChat_2024.png", &online);
    assert_eq!(p.world_id.as_deref(), Some("wrld_x"));
    assert_eq!(p.instance_id.as_deref(), Some("99~private"));
    assert_eq!(p.visibility, "friends");
    assert_eq!(p.image_rotation, 1);
    assert_eq!(p.filename, "VRChat_2024.jpg");
    assert!(p.send_now);

    let offline = Connection::at_start(true);
    let p = plan_upload(&None, "self", false, "a.png.png", &offline);
    assert_eq!(p.world_id, None);
    assert_eq!(p.instance_id, None);
    assert_eq!(p.image_rotation, 0);
    assert_eq!(p.filename, "a.jpg.jpg");
    assert!(!p.send_now);
}

#[test]
fn accepted_upload_enters_history() {
    let mut conn = Connection::at_start(true);
    let mut hist: Vec<UploadHistoryItem> = (0..10).map(|i| item(&format!("old{}", i))).collect();
    let f = after_upload(&mut conn, &mut hist, &success_with_uuid("u-1"), "p.jpg", "12:34:56".to_string());
    assert!(f.mode_changed && !f.queue_photo && !conn.is_offline);
    assert_eq!(f.photo_uuid.as_deref(), Some("u-1"));
    assert_eq!(hist.len(), 10);
    assert_eq!(hist[0].filename, "p.jpg");
    assert_eq!(hist[0].photo_uuid.as_deref(), Some("u-1"));
    assert_eq!(hist[0].time, "12:34:56");
    assert_eq!(hist[1].filename, "old0");
    assert_eq!(hist[9].filename, "old8");
}

#[test]
fn refused_upload_goes_offline_and_queues() {
    let mut conn = Connection::at_start(false);
    let mut hist = vec![item("a")];
    let f = after_upload(&mut conn, &mut hist, &ApiResponse::error("down".to_string()), "p.jpg", "t".to_string());
    assert!(f.mode_changed && f.queue_photo && conn.is_offline);
    assert_eq!(f.photo_uuid, None);
    assert_eq!(hist.len(), 1);
    assert_eq!(hist[0].filename, "a");
}

#[test]
fn queued_upload_without_uuid() {
    let mut hist = Vec::new();
    let resp = ApiResponse { status: "success".to_string(), message: None, data: None };
    let uuid = record_accepted_upload(&mut hist, &resp, "q.jpg", "01:02:03".to_string());
    assert_eq!(uuid, None);
    assert_eq!(hist.len(), 1);
    assert_eq!(hist[0].photo_uuid, None);
}
