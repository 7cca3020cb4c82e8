//! Starting the application with the user's session.
//!
//! Registration is kept in the Windows registry; the registry access is made
//! by the application on Windows.  On other systems there is nothing to
//! register, and the functions below report so.

use vstd::prelude::*;

verus! {

/// Name of the registry value.
pub const APP_NAME: &'static str = "EterPixVRCUploader";

/// Registry key holding the programs started at logon.
pub const REG_KEY: &'static str = "Software\\Microsoft\\Windows\\CurrentVersion\\Run";

/// Whether the application is registered to start at logon (never, off Windows).
pub fn is_startup_registered() -> (r: bool)
    ensures
        !r,
{
    false
}

/// Registers the application to start at logon (impossible off Windows).
pub fn register_startup(exe_path: &str) -> (r: bool)
    ensures
        !r,
{
    false
}

/// Removes the start-at-logon registration (nothing to remove off Windows).
pub fn unregister_startup() -> (r: bool)
    ensures
        !r,
{
    false
}

/// The command registered to start the application minimized.
pub fn startup_command(exe_path: &str) -> (r: String)
    ensures
        r@ == "\""@ + exe_path@ + "\" --minimized"@,
{
    let mut cmd = "\"".to_owned();
    cmd.append(exe_path);
    cmd.append("\" --minimized");
    cmd
}

} // verus!
