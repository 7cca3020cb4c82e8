//! Application settings.

use vstd::prelude::*;

verus! {

/// The application's settings (saved as JSON by the application; fields missing
/// from the file take their default values).
#[derive(Debug, Clone)]
pub struct AppConfig {
    /// Server URL.
    pub server_url: String,
    /// Folder to watch; empty for the default folder.
    pub watch_folder: String,
    /// Upload new screenshots automatically.
    pub auto_upload: bool,
    /// JPEG quality (1-100).
    pub jpeg_quality: u8,
    /// Visibility given to uploads.
    pub default_visibility: String,
    /// Watching was on when last saved.
    pub watch_enabled: bool,
    /// OSC was on when last saved.
    pub osc_enabled: bool,
    /// Port VRChat listens on for OSC.
    pub osc_send_port: u16,
    /// Port this application listens on for OSC.
    pub osc_recv_port: u16,
    /// Show notifications.
    pub notifications_enabled: bool,
    /// Saved login token.
    pub saved_token: Option<String>,
    /// Saved user name.
    pub saved_username: Option<String>,
}

/// The settings of a fresh installation.
pub open spec fn is_default_config(c: AppConfig) -> bool {
    &&& c.server_url@ == "https://www.eterpix.uk"@
    &&& c.watch_folder@ == Seq::<char>::empty()
    &&& c.auto_upload
    &&& c.jpeg_quality == 85
    &&& c.default_visibility@ == "self"@
    &&& !c.watch_enabled
    &&& !c.osc_enabled
    &&& c.osc_send_port == 9000
    &&& c.osc_recv_port == 9001
    &&& c.notifications_enabled
    &&& c.saved_token is None
    &&& c.saved_username is None
}

impl Default for AppConfig {
    fn default() -> (r: Self)
        ensures
            is_default_config(r),
    {
        AppConfig {
            server_url: "https://www.eterpix.uk".to_owned(),
            watch_folder: String::new(),
            auto_upload: true,
            jpeg_quality: 85,
            default_visibility: "self".to_owned(),
            watch_enabled: false,
            osc_enabled: false,
            osc_send_port: 9000,
            osc_recv_port: 9001,
            notifications_enabled: true,
            saved_token: None,
            saved_username: None,
        }
    }
}


/// The settings as read from the settings file: a field missing from the file
/// is `None`.
pub struct StoredConfig {
    pub server_url: Option<String>,
    pub watch_folder: Option<String>,
    pub auto_upload: Option<bool>,
    pub jpeg_quality: Option<u8>,
    pub default_visibility: Option<String>,
    pub watch_enabled: Option<bool>,
    pub osc_enabled: Option<bool>,
    pub osc_send_port: Option<u16>,
    pub osc_recv_port: Option<u16>,
    pub notifications_enabled: Option<bool>,
    pub saved_token: Option<String>,
    pub saved_username: Option<String>,
}

/// A stored value, or the default when the field was missing.
pub open spec fn value_or<T>(stored: Option<T>, default: T) -> T {
    match stored {
        Some(v) => v,
        None => default,
    }
}

/// A stored text, or the default when the field was missing.
pub open spec fn text_or(stored: Option<String>, default: Seq<char>) -> Seq<char> {
    match stored {
        Some(v) => v@,
        None => default,
    }
}

impl AppConfig {
    /// The settings a file describes: each field found in the file is kept and
    /// each missing field takes its default value, so a file written by an
    /// older version does not reset the other settings.
    pub fn from_stored(stored: StoredConfig) -> (c: Self)
        ensures
            c.server_url@ == text_or(stored.server_url, "https://www.eterpix.uk"@),
            c.watch_folder@ == text_or(stored.watch_folder, Seq::<char>::empty()),
            c.auto_upload == value_or(stored.auto_upload, true),
            c.jpeg_quality == value_or(stored.jpeg_quality, 85u8),
            c.default_visibility@ == text_or(stored.default_visibility, "self"@),
            c.watch_enabled == value_or(stored.watch_enabled, false),
            c.osc_enabled == value_or(stored.osc_enabled, false),
            c.osc_send_port == value_or(stored.osc_send_port, 9000u16),
            c.osc_recv_port == value_or(stored.osc_recv_port, 9001u16),
            c.notifications_enabled == value_or(stored.notifications_enabled, true),
            c.saved_token == stored.saved_token,
            c.saved_username == stored.saved_username,
    {
        let d = AppConfig::default();
        AppConfig {
            server_url: match stored.server_url {
                Some(v) => v,
                None => d.server_url,
            },
            watch_folder: match stored.watch_folder {
                Some(v) => v,
                None => d.watch_folder,
            },
            auto_upload: match stored.auto_upload {
                Some(v) => v,
                None => d.auto_upload,
            },
            jpeg_quality: match stored.jpeg_quality {
                Some(v) => v,
                None => d.jpeg_quality,
            },
            default_visibility: match stored.default_visibility {
                Some(v) => v,
                None => d.default_visibility,
            },
            watch_enabled: match stored.watch_enabled {
                Some(v) => v,
                None => d.watch_enabled,
            },
            osc_enabled: match stored.osc_enabled {
                Some(v) => v,
                None => d.osc_enabled,
            },
            osc_send_port: match stored.osc_send_port {
                Some(v) => v,
                None => d.osc_send_port,
            },
            osc_recv_port: match stored.osc_recv_port {
                Some(v) => v,
                None => d.osc_recv_port,
            },
            notifications_enabled: match stored.notifications_enabled {
                Some(v) => v,
                None => d.notifications_enabled,
            },
            saved_token: stored.saved_token,
            saved_username: stored.saved_username,
        }
    }
}

/// Settings changed from the settings page; `None` leaves a setting as it is.
pub struct SettingsUpdate {
    pub server_url: Option<String>,
    pub watch_folder: Option<String>,
    pub default_visibility: Option<String>,
    pub auto_upload: Option<bool>,
    pub jpeg_quality: Option<u8>,
    pub osc_send_port: Option<u16>,
    pub osc_recv_port: Option<u16>,
}

/// A setting after an update: the new value if one was given.
pub open spec fn updated<T>(old: T, new: Option<T>) -> T {
    match new {
        Some(v) => v,
        None => old,
    }
}

/// The text of a string setting after an update.
pub open spec fn updated_text(old: String, new: Option<String>) -> Seq<char> {
    match new {
        Some(v) => v@,
        None => old@,
    }
}

impl AppConfig {
    /// Applies the settings page: each given value replaces the setting, the
    /// others stay.
    pub fn apply_settings(&mut self, update: SettingsUpdate)
        ensures
            final(self).server_url@ == updated_text(old(self).server_url, update.server_url),
            final(self).watch_folder@ == updated_text(old(self).watch_folder, update.watch_folder),
            final(self).default_visibility@ == updated_text(
                old(self).default_visibility,
                update.default_visibility,
            ),
            final(self).auto_upload == updated(old(self).auto_upload, update.auto_upload),
            final(self).jpeg_quality == updated(old(self).jpeg_quality, update.jpeg_quality),
            final(self).osc_send_port == updated(old(self).osc_send_port, update.osc_send_port),
            final(self).osc_recv_port == updated(old(self).osc_recv_port, update.osc_recv_port),
            final(self).watch_enabled == old(self).watch_enabled,
            final(self).osc_enabled == old(self).osc_enabled,
            final(self).notifications_enabled == old(self).notifications_enabled,
            final(self).saved_token == old(self).saved_token,
            final(self).saved_username == old(self).saved_username,
    {
        if let Some(url) = update.server_url {
            self.server_url = url;
        }
        if let Some(folder) = update.watch_folder {
            self.watch_folder = folder;
        }
        if let Some(vis) = update.default_visibility {
            self.default_visibility = vis;
        }
        if let Some(au) = update.auto_upload {
            self.auto_upload = au;
        }
        if let Some(q) = update.jpeg_quality {
            self.jpeg_quality = q;
        }
        if let Some(p) = update.osc_send_port {
            self.osc_send_port = p;
        }
        if let Some(p) = update.osc_recv_port {
            self.osc_recv_port = p;
        }
    }

    /// Remembers a successful login or registration.
    pub fn record_login(&mut self, token: Option<String>, username: String)
        ensures
            final(self).saved_token == token,
            final(self).saved_username matches Some(u) && u@ == username@,
            final(self).server_url == old(self).server_url,
            final(self).watch_folder == old(self).watch_folder,
            final(self).default_visibility == old(self).default_visibility,
            final(self).auto_upload == old(self).auto_upload,
            final(self).jpeg_quality == old(self).jpeg_quality,
            final(self).watch_enabled == old(self).watch_enabled,
            final(self).osc_enabled == old(self).osc_enabled,
            final(self).osc_send_port == old(self).osc_send_port,
            final(self).osc_recv_port == old(self).osc_recv_port,
            final(self).notifications_enabled == old(self).notifications_enabled,
    {
        self.saved_token = token;
        self.saved_username = Some(username);
    }

    /// Forgets the saved login.
    pub fn clear_login(&mut self)
        ensures
            final(self).saved_token is None,
            final(self).saved_username is None,
            final(self).server_url == old(self).server_url,
            final(self).watch_folder == old(self).watch_folder,
            final(self).default_visibility == old(self).default_visibility,
            final(self).auto_upload == old(self).auto_upload,
            final(self).jpeg_quality == old(self).jpeg_quality,
            final(self).watch_enabled == old(self).watch_enabled,
            final(self).osc_enabled == old(self).osc_enabled,
            final(self).osc_send_port == old(self).osc_send_port,
            final(self).osc_recv_port == old(self).osc_recv_port,
            final(self).notifications_enabled == old(self).notifications_enabled,
    {
        self.saved_token = None;
        self.saved_username = None;
    }

    /// The folder chosen by the user, if any (an empty setting means the
    /// default folder).
    pub fn custom_watch_folder(&self) -> (r: Option<String>)
        ensures
            self.watch_folder@.len() > 0 ==> (r matches Some(f) && f@ == self.watch_folder@),
            self.watch_folder@.len() == 0 ==> r is None,
    {
        if self.watch_folder.as_str().is_empty() {
            None
        } else {
            Some(self.watch_folder.clone())
        }
    }
}

} // verus!
