//! Decisions of an upload session: whether the server is taken to be
//! reachable, the world the player is in, what becomes of a converted
//! screenshot, and the order in which the offline queue is sent.

use vstd::prelude::*;
use crate::history::{
    history_after, history_view, lemma_history_view_after, record_upload,
    UploadHistoryItem,
};
use crate::image_processor::image_rotation_code;
use crate::log_parser::{world_view, LogEvent, LogEventView};
use crate::uploader::{json_str_member, ApiResponse};
use crate::worker::{jpg_filename, replace_all};

verus! {

// ------------------------------------------------------------------
// Online / offline
// ------------------------------------------------------------------

/// Whether the server is taken to be unreachable.
pub struct Connection {
    pub is_offline: bool,
}

impl Connection {
    /// At start the session is offline when something waits in the queue.
    pub fn at_start(has_pending: bool) -> (c: Self)
        ensures
            c.is_offline == has_pending,
    {
        Connection { is_offline: has_pending }
    }

    /// Sets the mode.  True when it changed: only then is the window told.
    pub fn set_offline(&mut self, offline: bool) -> (changed: bool)
        ensures
            final(self).is_offline == offline,
            changed == (old(self).is_offline != offline),
    {
        let changed = self.is_offline != offline;
        self.is_offline = offline;
        changed
    }
}

/// An optional text as plain text.
pub open spec fn opt_text(o: Option<String>) -> Option<Seq<char>> {
    match o {
        Some(s) => Some(s@),
        None => None,
    }
}

// ------------------------------------------------------------------
// The world the player is in
// ------------------------------------------------------------------

/// What to tell the server after a line of the game's log.
pub enum WorldReport {
    /// Report that the player joined this instance.
    Join { world_id: String, instance_id: String },
    /// Report that the player left.
    Leave,
    /// Nothing (no user is logged in).
    Nothing,
}

/// Follows a join or leave from the game's log: the current world becomes the
/// joined one, or none after leaving; a logged-in user's server hears of it.
pub fn on_log_event(current_world: &mut Option<(String, String)>, event: &LogEvent, logged_in: bool) -> (r: WorldReport)
    ensures
        match event@ {
            LogEventView::Joined { world_id, instance_id } => {
                &&& world_view(*final(current_world)) == Some((world_id, instance_id))
                &&& logged_in ==> (r matches WorldReport::Join { world_id: w, instance_id: i }
                    && w@ == world_id && i@ == instance_id)
                &&& !logged_in ==> r is Nothing
            },
            LogEventView::Left { .. } => {
                &&& (*final(current_world)) is None
                &&& logged_in ==> r is Leave
                &&& !logged_in ==> r is Nothing
            },
        },
{
    match event {
        LogEvent::WorldJoined { world_id, instance_id } => {
            *current_world = Some((world_id.clone(), instance_id.clone()));
            if logged_in {
                WorldReport::Join { world_id: world_id.clone(), instance_id: instance_id.clone() }
            } else {
                WorldReport::Nothing
            }
        },
        LogEvent::WorldLeft { .. } => {
            *current_world = None;
            if logged_in {
                WorldReport::Leave
            } else {
                WorldReport::Nothing
            }
        },
    }
}

/// What follows the report of a world join.
pub struct JoinFollowUp {
    /// The online/offline mode changed (the window is told).
    pub mode_changed: bool,
    /// The join is kept in the offline queue.
    pub queue_join: bool,
}

/// After reporting a join: when the server accepted it the session is online;
/// otherwise it goes offline and the join waits in the queue.
pub fn after_join_report(conn: &mut Connection, accepted: bool) -> (r: JoinFollowUp)
    ensures
        final(conn).is_offline == !accepted,
        r.queue_join == !accepted,
        r.mode_changed == (old(conn).is_offline != final(conn).is_offline),
{
    let mode_changed = conn.set_offline(!accepted);
    JoinFollowUp { mode_changed, queue_join: !accepted }
}

// ------------------------------------------------------------------
// Screenshots
// ------------------------------------------------------------------

/// How a converted screenshot is sent.
pub struct UploadPlan {
    pub world_id: Option<String>,
    pub instance_id: Option<String>,
    pub visibility: String,
    /// 1 for a portrait shot (turned upright before upload), else 0.
    pub image_rotation: i32,
    /// The name it is uploaded under.
    pub filename: String,
    /// Upload now; otherwise (offline) it goes straight to the queue.
    pub send_now: bool,
}

/// Plans the upload of a converted screenshot: the current world, the default
/// visibility, the rotation code, the `.jpg` name; offline, it is queued.
pub fn plan_upload(
    current_world: &Option<(String, String)>,
    visibility: &str,
    is_portrait: bool,
    file_name: &str,
    conn: &Connection,
) -> (p: UploadPlan)
    ensures
        match world_view(*current_world) {
            Some(w) => opt_text(p.world_id) == Some(w.0) && opt_text(p.instance_id) == Some(w.1),
            None => p.world_id is None && p.instance_id is None,
        },
        p.visibility@ == visibility@,
        p.image_rotation == (if is_portrait { 1i32 } else { 0i32 }),
        p.filename@ == replace_all(file_name@, ".png"@, ".jpg"@),
        p.send_now == !conn.is_offline,
{
    let (world_id, instance_id) = match current_world {
        Some((w, i)) => (Some(w.clone()), Some(i.clone())),
        None => (None, None),
    };
    UploadPlan {
        world_id,
        instance_id,
        visibility: visibility.to_string(),
        image_rotation: image_rotation_code(is_portrait),
        filename: jpg_filename(file_name),
        send_now: !conn.is_offline,
    }
}

/// Puts an upload the server accepted at the head of the history, with the
/// photo's id from the reply; gives that id.
pub fn record_accepted_upload(
    history: &mut Vec<UploadHistoryItem>,
    resp: &ApiResponse,
    filename: &str,
    time: String,
) -> (uuid: Option<String>)
    ensures
        opt_text(uuid) == json_str_member(resp.data, "photo_uuid"@),
        history_view(final(history)@) == history_after(
            history_view(old(history)@),
            (filename@, json_str_member(resp.data, "photo_uuid"@), time@),
        ),
{
    let uuid = resp.data_str("photo_uuid");
    let item = UploadHistoryItem { filename: filename.to_string(), photo_uuid: uuid.clone(), time };
    proof {
        lemma_history_view_after(old(history)@, item);
    }
    record_upload(history, item);
    uuid
}

/// What follows an upload attempt.
pub struct UploadFollowUp {
    /// The online/offline mode changed (the window is told).
    pub mode_changed: bool,
    /// The photo goes to the offline queue.
    pub queue_photo: bool,
    /// The photo's id on the server, after a success.
    pub photo_uuid: Option<String>,
}

/// After an upload: on success the session is online and the upload enters
/// the history; on failure the session goes offline and the photo is queued.
pub fn after_upload(
    conn: &mut Connection,
    history: &mut Vec<UploadHistoryItem>,
    resp: &ApiResponse,
    filename: &str,
    time: String,
) -> (r: UploadFollowUp)
    ensures
        r.mode_changed == (old(conn).is_offline != final(conn).is_offline),
        resp.status@ == "success"@ ==> {
            &&& !final(conn).is_offline
            &&& !r.queue_photo
            &&& opt_text(r.photo_uuid) == json_str_member(resp.data, "photo_uuid"@)
            &&& history_view(final(history)@) == history_after(
                history_view(old(history)@),
                (filename@, json_str_member(resp.data, "photo_uuid"@), time@),
            )
        },
        resp.status@ != "success"@ ==> {
            &&& final(conn).is_offline
            &&& r.queue_photo
            &&& r.photo_uuid is None
            &&& final(history)@ == old(history)@
        },
{
    if resp.is_success() {
        let mode_changed = conn.set_offline(false);
        let photo_uuid = record_accepted_upload(history, resp, filename, time);
        UploadFollowUp { mode_changed, queue_photo: false, photo_uuid }
    } else {
        let mode_changed = conn.set_offline(true);
        UploadFollowUp { mode_changed, queue_photo: true, photo_uuid: None }
    }
}

// ------------------------------------------------------------------
// Sending the offline queue
// ------------------------------------------------------------------

/// One step of sending the offline queue.
#[derive(Debug, Clone, Copy, PartialEq, Eq)]
pub enum DrainStep {
    /// Report the queued world join at this index.
    SendJoin(usize),
    /// Every queued join went through: read the queued photos.
    LoadPhotos,
    /// Upload the queued photo at this index.
    SendPhoto(usize),
    /// Everything went through: report what remains in the queue.
    Finished,
    /// A send failed: go offline and leave the rest queued.
    Stopped,
}

/// Progress through the offline queue: the queued world joins are reported
/// first, in order; then the queued photos are read and uploaded in order.
/// The first failure stops everything.
#[derive(Debug, Clone, Copy)]
pub struct QueueDrain {
    /// Number of queued world joins.
    pub joins: usize,
    /// Number of queued photos, once they have been read.
    pub photos: Option<usize>,
    /// World joins reported so far.
    pub sent_joins: usize,
    /// Photos uploaded so far.
    pub sent_photos: usize,
    /// A send failed.
    pub failed: bool,
}

/// The step sends something to the server.
pub open spec fn is_send(s: DrainStep) -> bool {
    s matches DrainStep::SendJoin(_) || s matches DrainStep::SendPhoto(_)
}

/// A drain that has sent nothing yet.
pub open spec fn drain_start(joins: usize) -> QueueDrain {
    QueueDrain { joins, photos: None, sent_joins: 0, sent_photos: 0, failed: false }
}

/// The drain once the photos have been read.
pub open spec fn drain_loaded(d: QueueDrain, photos: usize) -> QueueDrain {
    QueueDrain { photos: Some(photos), ..d }
}

/// The drain after the pending send went through (`success`) or failed.
pub open spec fn drain_after(d: QueueDrain, success: bool) -> QueueDrain {
    if !success {
        QueueDrain { failed: true, ..d }
    } else if d.sent_joins < d.joins {
        QueueDrain { sent_joins: (d.sent_joins + 1) as usize, ..d }
    } else {
        QueueDrain { sent_photos: (d.sent_photos + 1) as usize, ..d }
    }
}

/// The drain after `k` sends in a row went through.
pub open spec fn drain_after_successes(d: QueueDrain, k: nat) -> QueueDrain
    decreases k,
{
    if k == 0 {
        d
    } else {
        drain_after(drain_after_successes(d, (k - 1) as nat), true)
    }
}

impl QueueDrain {
    /// Counts stay within what is queued, and photos are read only after every
    /// join went through.
    pub open spec fn wf(&self) -> bool {
        &&& self.sent_joins <= self.joins
        &&& match self.photos {
            Some(n) => self.sent_joins == self.joins && self.sent_photos <= n,
            None => self.sent_photos == 0,
        }
    }

    /// What to do next.
    pub open spec fn step_spec(&self) -> DrainStep {
        if self.failed {
            DrainStep::Stopped
        } else if self.sent_joins < self.joins {
            DrainStep::SendJoin(self.sent_joins)
        } else {
            match self.photos {
                None => DrainStep::LoadPhotos,
                Some(n) => if self.sent_photos < n {
                    DrainStep::SendPhoto(self.sent_photos)
                } else {
                    DrainStep::Finished
                },
            }
        }
    }

    /// Starts sending a queue that holds `joins` world joins.
    pub fn new(joins: usize) -> (d: Self)
        ensures
            d == drain_start(joins),
            d.wf(),
    {
        QueueDrain { joins, photos: None, sent_joins: 0, sent_photos: 0, failed: false }
    }

    /// What to do next.
    pub fn next_step(&self) -> (s: DrainStep)
        ensures
            s == self.step_spec(),
    {
        if self.failed {
            DrainStep::Stopped
        } else if self.sent_joins < self.joins {
            DrainStep::SendJoin(self.sent_joins)
        } else {
            match self.photos {
                None => DrainStep::LoadPhotos,
                Some(n) => if self.sent_photos < n {
                    DrainStep::SendPhoto(self.sent_photos)
                } else {
                    DrainStep::Finished
                },
            }
        }
    }

    /// The queued photos have been read: there are `photos` of them.
    pub fn photos_loaded(&mut self, photos: usize)
        requires
            old(self).wf(),
            old(self).step_spec() == DrainStep::LoadPhotos,
        ensures
            *final(self) == drain_loaded(*old(self), photos),
            final(self).wf(),
    {
        self.photos = Some(photos);
    }

    /// The pending send went through (`success`) or failed.
    pub fn record_send(&mut self, success: bool)
        requires
            old(self).wf(),
            is_send(old(self).step_spec()),
        ensures
            *final(self) == drain_after(*old(self), success),
            final(self).wf(),
    {
        if !success {
            self.failed = true;
        } else if self.sent_joins < self.joins {
            self.sent_joins = self.sent_joins + 1;
        } else {
            self.sent_photos = self.sent_photos + 1;
        }
    }
}

/// `k` successful sends from the start report the first `k` joins.
proof fn lemma_joins_sent(joins: usize, k: nat)
    requires
        k <= joins,
    ensures
        drain_after_successes(drain_start(joins), k) == (QueueDrain {
            sent_joins: k as usize,
            ..drain_start(joins)
        }),
    decreases k,
{
    if k > 0 {
        lemma_joins_sent(joins, (k - 1) as nat);
    }
}

/// `k` successful sends after the photos were read upload the first `k`
/// photos.
proof fn lemma_photos_sent(d: QueueDrain, k: nat)
    requires
        d.sent_joins == d.joins,
        d.sent_photos == 0,
        !d.failed,
        (d.photos matches Some(n) && k <= n),
    ensures
        drain_after_successes(d, k) == (QueueDrain { sent_photos: k as usize, ..d }),
    decreases k,
{
    if k > 0 {
        lemma_photos_sent(d, (k - 1) as nat);
    }
}

/// When the server accepts every send, the queue goes out in order and each
/// item once: the `k`-th step reports the `k`-th queued join; once all joins
/// went through the photos are read; the `k`-th step after that uploads the
/// `k`-th photo; and after the last photo the drain is finished.
pub proof fn lemma_drain_in_order(joins: usize, photos: usize, k: nat)
    ensures
        k < joins ==> drain_after_successes(drain_start(joins), k).step_spec()
            == DrainStep::SendJoin(k as usize),
        drain_after_successes(drain_start(joins), joins as nat).step_spec()
            == DrainStep::LoadPhotos,
        k < photos ==> drain_after_successes(
            drain_loaded(drain_after_successes(drain_start(joins), joins as nat), photos),
            k,
        ).step_spec() == DrainStep::SendPhoto(k as usize),
        drain_after_successes(
            drain_loaded(drain_after_successes(drain_start(joins), joins as nat), photos),
            photos as nat,
        ).step_spec() == DrainStep::Finished,
{
    if k < joins {
        lemma_joins_sent(joins, k);
    }
    lemma_joins_sent(joins, joins as nat);
    let loaded = drain_loaded(drain_after_successes(drain_start(joins), joins as nat), photos);
    if k < photos {
        lemma_photos_sent(loaded, k);
    }
    lemma_photos_sent(loaded, photos as nat);
}

/// A failed send ends the drain: nothing else is sent, and what was not yet
/// sent stays queued; no photo is sent before every queued join went through.
pub proof fn lemma_drain_stops_on_failure(d: QueueDrain)
    requires
        d.wf(),
    ensures
        drain_after(d, false).step_spec() == DrainStep::Stopped,
        drain_after(d, false).sent_joins == d.sent_joins,
        drain_after(d, false).sent_photos == d.sent_photos,
        (d.step_spec() matches DrainStep::SendPhoto(_)) ==> d.sent_joins == d.joins,
{
}

} // verus!
