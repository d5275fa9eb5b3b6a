//! The desktop app's session: who is logged in, which screen is shown, and
//! the decisions of the login and security-key screens.

use vstd::prelude::*;
use crate::app_preferences::Theme;
use crate::error_handler::{format_user_error, lowercase, user_error_message};
use crate::numeric::chars_of;
use crate::text::{push_all, string_from_chars};

verus! {

/// The screens of the desktop app.
#[derive(PartialEq, Eq, Structural, Debug, Clone, Copy)]
pub enum ActiveTab {
    CreateProfile,
    ProfileManager,
    Backup,
    Restore,
    BackupIntegrity,
    Verify,
    Prune,
    Schedule,
    RealtimeSync,
    Snapshots,
    Diagnostics,
    Fido2Manager,
    Integrations,
    Config,
}

/// The logged-in user and the screen chosen in the navigation.
pub struct AppShell {
    pub active_tab: ActiveTab,
    pub user: Option<String>,
}

impl AppShell {
    /// The app at start: nobody logged in, the backup screen chosen.
    pub fn new() -> (r: AppShell)
        ensures
            r.active_tab == ActiveTab::Backup,
            r.user is None,
    {
        AppShell { active_tab: ActiveTab::Backup, user: None }
    }

    /// `user` logged in; the chosen screen stays.
    pub fn login(&mut self, user: String)
        ensures
            final(self).user == Some(user),
            final(self).active_tab == old(self).active_tab,
    {
        self.user = Some(user);
    }

    /// The user logged out: nobody is logged in and the backup screen is
    /// chosen again.
    pub fn logout(&mut self)
        ensures
            final(self).user is None,
            final(self).active_tab == ActiveTab::Backup,
    {
        self.user = None;
        self.active_tab = ActiveTab::Backup;
    }

    /// The screen `tab` is chosen in the navigation.
    pub fn select(&mut self, tab: ActiveTab)
        ensures
            final(self).active_tab == tab,
            final(self).user == old(self).user,
    {
        self.active_tab = tab;
    }

    /// The screen shown: the chosen one when somebody is logged in, else
    /// none (the login screen).
    pub fn visible_screen(&self) -> (r: Option<ActiveTab>)
        ensures
            r == (if self.user is Some {
                Some(self.active_tab)
            } else {
                None
            }),
    {
        if self.user.is_some() {
            Some(self.active_tab)
        } else {
            None
        }
    }
}

/// The style class of the app's root for a theme.
pub fn theme_class(theme: Theme) -> (r: &'static str)
    ensures
        r@ == (if theme == Theme::Dark {
            "dark"@
        } else {
            ""@
        }),
{
    match theme {
        Theme::Dark => "dark",
        _ => "",
    }
}

fn three_part(a: &str, b: &str, c: &str) -> (r: String)
    ensures
        r@ == a@ + b@ + c@,
{
    let mut out = chars_of(a);
    push_all(&mut out, &chars_of(b));
    push_all(&mut out, &chars_of(c));
    string_from_chars(out)
}

/// Whether a security-key login may start for `user_id`; the refusal names
/// the field with `label`.
pub fn login_precheck(user_id: &str, label: &str) -> (r: Result<(), String>)
    ensures
        match r {
            Ok(()) => user_id@.len() > 0,
            Err(m) => user_id@.len() == 0 && m@ == "⚠️ "@ + label@ + " is required."@,
        },
{
    if user_id.unicode_len() == 0 {
        Err(three_part("⚠️ ", label, " is required."))
    } else {
        Ok(())
    }
}

/// The message once the credentials were looked up: the browser opens when
/// `user_id` has a registered key, else the login stops.
pub fn credential_check_message(user_id: &str, has_credential: bool) -> (r: Result<String, String>)
    ensures
        match r {
            Ok(m) => has_credential && m@ == "🌐 Browser is opening for authentication..."@,
            Err(m) => !has_credential && m@ == "❌ Identifier '"@ + user_id@ + "' not found."@,
        },
{
    if has_credential {
        Ok("🌐 Browser is opening for authentication...".to_string())
    } else {
        Err(three_part("❌ Identifier '", user_id, "' not found."))
    }
}

/// The end of a browser login: `user_id` is logged in, or the failure is
/// shown as a friendly message.
pub fn browser_login_result(user_id: String, outcome: Result<(), String>) -> (r: Result<String, String>)
    ensures
        match outcome {
            Ok(()) => r == Ok::<String, String>(user_id),
            Err(e) => r matches Err(m) && m@ == user_error_message(lowercase(e@)),
        },
{
    match outcome {
        Ok(()) => Ok(user_id),
        Err(e) => Err(format_user_error(e.as_str(), "fido2")),
    }
}

/// Whether a login with a recovery code may start: both the identifier and
/// the code are needed.
pub fn recovery_precheck(user_id: &str, code: &str) -> (r: Result<(), String>)
    ensures
        match r {
            Ok(()) => user_id@.len() > 0 && code@.len() > 0,
            Err(m) => (user_id@.len() == 0 || code@.len() == 0) && m@
                == "⚠️ Identifier and code are required."@,
        },
{
    if user_id.unicode_len() == 0 || code.unicode_len() == 0 {
        Err("⚠️ Identifier and code are required.".to_string())
    } else {
        Ok(())
    }
}

/// The end of a login with a recovery code: `user_id` is logged in when the
/// code was valid (and is then used up).
pub fn recovery_result(user_id: String, code_valid: bool) -> (r: Result<String, String>)
    ensures
        if code_valid {
            r == Ok::<String, String>(user_id)
        } else {
            r matches Err(m) && m@ == "❌ Código de recuperação inválido ou já utilizado."@
        },
{
    if code_valid {
        Ok(user_id)
    } else {
        Err("❌ Código de recuperação inválido ou já utilizado.".to_string())
    }
}

/// The message of the waiting overlay of the login screen.
pub fn login_overlay_message(recovery: bool) -> (r: String)
    ensures
        r@ == (if recovery {
            "Verifying recovery code..."@
        } else {
            "Authenticating with FIDO2..."@
        }),
{
    if recovery {
        "Verifying recovery code...".to_string()
    } else {
        "Authenticating with FIDO2...".to_string()
    }
}

/// Whether a new security key may be registered for `user_id`, with the
/// message shown while the browser registers it.
pub fn register_precheck(user_id: &str, label: &str) -> (r: Result<String, String>)
    ensures
        match r {
            Ok(m) => user_id@.len() > 0 && m@ == "🌐 Open the browser to register FIDO2 key..."@,
            Err(m) => user_id@.len() == 0 && m@ == "⚠️ "@ + label@ + " is required"@,
        },
{
    if user_id.unicode_len() == 0 {
        Err(three_part("⚠️ ", label, " is required"))
    } else {
        Ok("🌐 Open the browser to register FIDO2 key...".to_string())
    }
}

/// Whether recovery codes may be generated for `user_id`.
pub fn codes_precheck(user_id: &str, label: &str) -> (r: Result<(), String>)
    ensures
        match r {
            Ok(()) => user_id@.len() > 0,
            Err(m) => user_id@.len() == 0 && m@ == "⚠️ "@ + label@
                + " is required to generate recovery codes."@,
        },
{
    if user_id.unicode_len() == 0 {
        Err(three_part("⚠️ ", label, " is required to generate recovery codes."))
    } else {
        Ok(())
    }
}

} // verus!
