//! Smaller views of the desktop app: the snapshots browser, the Telegram
//! bot checker and the navigation buttons.

use vstd::prelude::*;
use crate::numeric::{chars_of, decimal, push_decimal};
use crate::text::{push_all, string_from_chars};

verus! {

/// What the snapshots browser shows.
#[derive(PartialEq, Eq, Structural, Debug, Clone, Copy)]
pub enum SnapshotMode {
    List,
    Diff,
    Details,
}

/// The state of the snapshots browser.
pub struct SnapshotsView {
    pub mode: SnapshotMode,
    pub selected: Option<String>,
    pub selected_from: Option<String>,
    pub selected_to: Option<String>,
    pub error: Option<String>,
}

impl SnapshotsView {
    /// The browser when it opens: the list, nothing selected, no error.
    pub fn new() -> (r: SnapshotsView)
        ensures
            r.mode == SnapshotMode::List,
            r.selected is None,
            r.selected_from is None,
            r.selected_to is None,
            r.error is None,
    {
        SnapshotsView { mode: SnapshotMode::List, selected: None, selected_from: None, selected_to: None, error: None }
    }

    /// The snapshots are loaded again: the error is cleared.
    pub fn reload(&mut self)
        ensures
            final(self).error is None,
            final(self).mode == old(self).mode,
            final(self).selected == old(self).selected,
            final(self).selected_from == old(self).selected_from,
            final(self).selected_to == old(self).selected_to,
    {
        self.error = None;
    }

    /// The snapshot `id` is shown in detail.
    pub fn show(&mut self, id: String)
        ensures
            final(self).mode == SnapshotMode::Details,
            final(self).selected == Some(id),
            final(self).selected_from == old(self).selected_from,
            final(self).selected_to == old(self).selected_to,
            final(self).error == old(self).error,
    {
        self.selected = Some(id);
        self.mode = SnapshotMode::Details;
    }

    /// Another view is chosen.
    pub fn set_mode(&mut self, mode: SnapshotMode)
        ensures
            final(self).mode == mode,
            final(self).selected == old(self).selected,
            final(self).selected_from == old(self).selected_from,
            final(self).selected_to == old(self).selected_to,
            final(self).error == old(self).error,
    {
        self.mode = mode;
    }

    /// The comparison is asked for: it is shown when both snapshots are
    /// chosen, else the user is asked to choose them.
    pub fn compare(&mut self)
        ensures
            final(self).selected == old(self).selected,
            final(self).selected_from == old(self).selected_from,
            final(self).selected_to == old(self).selected_to,
            if old(self).selected_from is Some && old(self).selected_to is Some {
                final(self).mode == SnapshotMode::Diff && final(self).error is None
            } else {
                &&& final(self).mode == old(self).mode
                &&& final(self).error matches Some(e) && e@ == "Selecione dois snapshots para comparar"@
            },
    {
        if self.selected_from.is_some() && self.selected_to.is_some() {
            self.mode = SnapshotMode::Diff;
            self.error = None;
        } else {
            self.error = Some("Selecione dois snapshots para comparar".to_string());
        }
    }

    /// The deletion of `id` is asked for; it is announced.
    pub fn delete(&mut self, id: &str)
        ensures
            final(self).error matches Some(e) && e@ == "Snapshot "@ + id@ + " será deletado"@,
            final(self).mode == old(self).mode,
            final(self).selected == old(self).selected,
            final(self).selected_from == old(self).selected_from,
            final(self).selected_to == old(self).selected_to,
    {
        let mut out = chars_of("Snapshot ");
        push_all(&mut out, &chars_of(id));
        push_all(&mut out, &chars_of(" será deletado"));
        self.error = Some(string_from_chars(out));
    }
}

/// Whether the bot token may be checked, with the message shown while it is.
pub fn telegram_precheck(bot_token: &str) -> (r: Result<String, String>)
    ensures
        match r {
            Ok(m) => bot_token@.len() > 0 && m@ == "🔄 Validating bot token..."@,
            Err(m) => bot_token@.len() == 0 && m@ == "❌ Please enter a bot token"@,
        },
{
    if bot_token.unicode_len() == 0 {
        Err("❌ Please enter a bot token".to_string())
    } else {
        Ok("🔄 Validating bot token...".to_string())
    }
}

/// The description of a valid bot.
pub fn bot_summary(first_name: &str, username: Option<&str>, id: &str) -> (r: String)
    ensures
        r@ == "✅ Bot válido: "@ + first_name@ + " (@"@ + match username {
            Some(u) => u@,
            None => "sem username"@,
        } + ")\nID: "@ + id@,
{
    let mut out = chars_of("✅ Bot válido: ");
    push_all(&mut out, &chars_of(first_name));
    push_all(&mut out, &chars_of(" (@"));
    match username {
        Some(u) => push_all(&mut out, &chars_of(u)),
        None => push_all(&mut out, &chars_of("sem username")),
    }
    push_all(&mut out, &chars_of(")\nID: "));
    push_all(&mut out, &chars_of(id));
    string_from_chars(out)
}

/// The lines of the chats found for a bot.
pub open spec fn chats_text(chats: Seq<(Seq<char>, Seq<char>)>) -> Seq<char>
    decreases chats.len(),
{
    if chats.len() == 0 {
        seq![]
    } else {
        chats_text(chats.drop_last()) + "  • Chat ID: "@ + chats.last().0 + " ("@ + chats.last().1
            + ")\n"@
    }
}

/// The text added for the chats (identifier and type) found for a bot.
pub fn chat_list_text(chats: &Vec<(String, String)>) -> (r: String)
    ensures
        r@ == "\n\n✅ Found "@ + decimal(chats@.len() as nat) + " chat(s):\n"@ + chats_text(
            crate::text_order::pair_texts(chats@),
        ),
{
    let ghost cv = crate::text_order::pair_texts(chats@);
    let mut out = chars_of("\n\n✅ Found ");
    push_decimal(&mut out, chats.len() as u64);
    push_all(&mut out, &chars_of(" chat(s):\n"));
    let ghost head = out@;
    let mut i: usize = 0;
    while i < chats.len()
        invariant
            i <= chats@.len(),
            cv == crate::text_order::pair_texts(chats@),
            out@ == head + chats_text(cv.take(i as int)),
        decreases chats@.len() - i,
    {
        push_all(&mut out, &chars_of("  • Chat ID: "));
        push_all(&mut out, &chars_of(chats[i].0.as_str()));
        push_all(&mut out, &chars_of(" ("));
        push_all(&mut out, &chars_of(chats[i].1.as_str()));
        push_all(&mut out, &chars_of(")\n"));
        proof {
            assert(cv.take(i + 1).drop_last() =~= cv.take(i as int));
        }
        i = i + 1;
    }
    assert(cv.take(chats@.len() as int) =~= cv);
    string_from_chars(out)
}

/// The text after the chats of a valid bot could not be read.
pub fn chat_ids_failure(previous: &str, error: &str) -> (r: String)
    ensures
        r@ == previous@ + "\n\n⚠️ Could not get chat IDs: "@ + error@
            + "\n\nSolution: Send /start to your bot and try again"@,
{
    let mut out = chars_of(previous);
    push_all(&mut out, &chars_of("\n\n⚠️ Could not get chat IDs: "));
    push_all(&mut out, &chars_of(error));
    push_all(&mut out, &chars_of("\n\nSolution: Send /start to your bot and try again"));
    string_from_chars(out)
}

/// The text when the bot token was refused.
pub fn validation_failure(error: &str) -> (r: String)
    ensures
        r@ == "❌ Validation failed:\n"@ + error@,
{
    let mut out = chars_of("❌ Validation failed:\n");
    push_all(&mut out, &chars_of(error));
    string_from_chars(out)
}

/// The style class of a navigation button.
pub fn nav_item_class(active: bool) -> (r: &'static str)
    ensures
        r@ == (if active {
            "nav-item active"@
        } else {
            "nav-item"@
        }),
{
    if active {
        "nav-item active"
    } else {
        "nav-item"
    }
}

} // verus!
