//! Records of the offline queue: uploads and world joins kept while the server
//! cannot be reached.  (The queue itself is an SQLite database kept by the
//! application.)

use vstd::prelude::*;

verus! {

/// A photo waiting to be uploaded.
#[derive(Debug, Clone)]
pub struct QueuedPhoto {
    pub id: String,
    pub filename: String,
    pub world_id: Option<String>,
    pub instance_id: Option<String>,
    pub visibility: String,
    pub taken_at: String,
    /// Camera data as JSON text.
    pub camera_data: Option<String>,
    pub image_rotation: i32,
    pub created_at: String,
}

/// A world join waiting to be reported.
#[derive(Debug, Clone)]
pub struct QueuedWorldJoin {
    pub id: String,
    pub world_id: String,
    pub instance_id: String,
    pub created_at: String,
}

/// How many items wait in each queue.
#[derive(Debug, Clone, Copy)]
pub struct QueueCounts {
    pub photos: usize,
    pub worlds: usize,
}

impl Default for QueueCounts {
    fn default() -> (r: Self)
        ensures
            r.photos == 0 && r.worlds == 0,
    {
        QueueCounts { photos: 0, worlds: 0 }
    }
}

impl QueueCounts {
    /// Counts from the two count queries; a failed query counts as 0.
    pub fn from_query_results(photos: Option<usize>, worlds: Option<usize>) -> (r: Self)
        ensures
            r.photos == (match photos {
                Some(n) => n,
                None => 0,
            }),
            r.worlds == (match worlds {
                Some(n) => n,
                None => 0,
            }),
    {
        let photos = match photos {
            Some(n) => n,
            None => 0,
        };
        let worlds = match worlds {
            Some(n) => n,
            None => 0,
        };
        QueueCounts { photos, worlds }
    }

    /// All waiting items.
    pub fn total(&self) -> (r: usize)
        requires
            self.photos + self.worlds <= usize::MAX,
        ensures
            r == self.photos + self.worlds,
    {
        self.photos + self.worlds
    }

    /// Something waits to be sent.
    pub fn has_pending_data(&self) -> (r: bool)
        ensures
            r == (self.photos > 0 || self.worlds > 0),
    {
        self.photos > 0 || self.worlds > 0
    }
}

/// File name under which the JPEG of a queued photo is kept.
pub fn queued_image_name(id: &str) -> (r: String)
    ensures
        r@ == id@ + ".jpg"@,
{
    let mut name = id.to_owned();
    name.append(".jpg");
    name
}

} // verus!
