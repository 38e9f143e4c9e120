//! The system clipboard.
//!
//! Copy and cut go to the operating system's clipboard so text can move
//! between the editor and other programs. The [`Clipboard`] is created
//! once and kept for the life of the process: on Linux the clipboard
//! owner is asked for the contents whenever another program pastes, and
//! `arboard` serves those requests only while its handle is alive.
//!
//! When there is no system clipboard to talk to (no display server, an
//! SSH session, tests), the clipboard falls back to a plain string so
//! copy and paste still work within the editor.

use arboard::Clipboard as SystemClipboard;
use vstd::prelude::*;

verus! {

/// `arboard`'s handle on the system clipboard.
#[verifier::external_type_specification]
#[verifier::external_body]
pub struct ExSystemClipboard(SystemClipboard);

/// The handle on the system clipboard, with a record of the text last
/// handed to it. The record is kept by the calls that hand text over,
/// so that what the clipboard was asked to hold can be stated; what it
/// holds afterwards rests on the system and other programs.
pub struct SystemHandle {
    handle: SystemClipboard,
    sent: Ghost<Option<Seq<char>>>,
}

impl SystemHandle {
    /// The text last handed to the system clipboard, if any.
    pub closed spec fn sent_text(&self) -> Option<Seq<char>> {
        self.sent@
    }
}

/// `arboard::Clipboard::new`, its error dropped: a handle on the system
/// clipboard, or none when there is no clipboard to talk to. Whether
/// there is one depends on the machine, so nothing is claimed of it.
#[verifier::external_body]
fn connect() -> (system: Option<SystemClipboard>) {
    SystemClipboard::new().ok()
}

/// `arboard::Clipboard::set_text`, handing `text` to the system
/// clipboard: the record of what was handed over becomes `text`.
/// Whether the system clipboard took it rests on the system, so nothing
/// is claimed of the result.
#[verifier::external_body]
fn write_system(system: &mut SystemHandle, text: String) -> (written: bool)
    ensures
        final(system).sent_text() == Some(text@),
{
    system.handle.set_text(text).is_ok()
}

/// `arboard::Clipboard::get_text`, its error dropped: the text on the
/// system clipboard, if it has any to give. It hands nothing over, so
/// the record of what was handed stays; what comes back rests on the
/// system and on other programs, so nothing is claimed of it.
#[verifier::external_body]
fn read_system(system: &mut SystemHandle) -> (text: Option<String>)
    ensures
        final(system).sent_text() == old(system).sent_text(),
{
    system.handle.get_text().ok()
}

/// The text an optional string holds.
pub open spec fn text_of(text: Option<String>) -> Option<Seq<char>> {
    match text {
        Some(t) => Some(t@),
        None => None,
    }
}

/// What the clipboard keeps in-process after writing `text`, which the
/// system clipboard took (`written`) or not: nothing when it did, since
/// the system clipboard is authoritative then and a stale copy must not
/// shadow later changes made by other programs; else the text.
pub fn kept_after_write(text: String, written: bool) -> (local: Option<String>)
    ensures
        text_of(local) == (if written { None } else { Some(text@) }),
{
    if written {
        None
    } else {
        Some(text)
    }
}

/// What a read of the clipboard gives: the system clipboard's text when
/// it gave some, else the text kept in-process.
pub fn read_result(system: Option<String>, local: &Option<String>) -> (text: Option<String>)
    ensures
        text_of(text) == match system {
            Some(t) => Some(t@),
            None => text_of(*local),
        },
{
    match system {
        Some(t) => Some(t),
        None => match local {
            Some(t) => Some(t.clone()),
            None => None,
        },
    }
}

/// The application's clipboard, backed by the system clipboard when one
/// is available.
pub struct Clipboard {
    system: Option<SystemHandle>,
    /// Text kept in-process, used when the system clipboard is
    /// unavailable or refused the last write.
    local: Option<String>,
}

impl Clipboard {
    /// Whether the clipboard is backed by the system's.
    pub closed spec fn has_system(&self) -> bool {
        self.system is Some
    }

    /// The text kept in-process.
    pub closed spec fn local_text(&self) -> Option<Seq<char>> {
        text_of(self.local)
    }

    /// The text last handed to the system clipboard; none without one.
    pub closed spec fn sent_text(&self) -> Option<Seq<char>> {
        match self.system {
            Some(system) => system.sent_text(),
            None => None,
        }
    }

    /// What a write of `text` may leave: the same backing, with the text
    /// handed to the system clipboard when there is one; and the text kept
    /// in-process, or (when the system clipboard took it) nothing kept;
    /// without a system clipboard, always the text.
    pub open spec fn set_leaves(before: Clipboard, text: Seq<char>, after: Clipboard) -> bool {
        &&& after.has_system() == before.has_system()
        &&& after.sent_text() == (if before.has_system() { Some(text) } else { None })
        &&& (after.local_text() == Some(text) || (before.has_system() && after.local_text() is None))
    }

    /// What a read may give: without a system clipboard, the text kept
    /// in-process; with one, its text or, when it gave none, that.
    pub open spec fn get_gives(clipboard: Clipboard, result: Option<Seq<char>>) -> bool {
        if clipboard.has_system() {
            result is Some || result == clipboard.local_text()
        } else {
            result == clipboard.local_text()
        }
    }

    /// Connect to the system clipboard, or fall back to an in-process
    /// clipboard if none is available.
    pub fn new() -> (clipboard: Clipboard)
        ensures
            clipboard.local_text() is None,
            clipboard.sent_text() is None,
    {
        let system = match connect() {
            Some(handle) => Some(SystemHandle { handle, sent: Ghost(None) }),
            None => None,
        };
        Clipboard { system, local: None }
    }

    /// A clipboard with no system backing, so that what uses it doesn't
    /// touch (or depend on) the real clipboard.
    pub fn local_only() -> (clipboard: Clipboard)
        ensures
            !clipboard.has_system(),
            clipboard.local_text() is None,
            clipboard.sent_text() is None,
    {
        Clipboard { system: None, local: None }
    }

    /// Place `text` on the clipboard.
    pub fn set(&mut self, text: String)
        ensures
            Clipboard::set_leaves(*old(self), text@, *final(self)),
    {
        let written = match &mut self.system {
            Some(system) => write_system(system, text.clone()),
            None => false,
        };
        self.local = kept_after_write(text, written);
    }

    /// The text on the clipboard, if any.
    pub fn get(&mut self) -> (text: Option<String>)
        ensures
            final(self).has_system() == old(self).has_system(),
            final(self).local_text() == old(self).local_text(),
            final(self).sent_text() == old(self).sent_text(),
            Clipboard::get_gives(*old(self), text_of(text)),
    {
        let system = match &mut self.system {
            Some(system) => read_system(system),
            None => None,
        };
        read_result(system, &self.local)
    }
}

/// What is set is never lost: it is handed to the system clipboard when
/// there is one, and kept in-process unless the system clipboard took it.
pub proof fn what_is_set_is_handed_over_or_kept(before: Clipboard, text: Seq<char>, after: Clipboard)
    requires
        Clipboard::set_leaves(before, text, after),
    ensures
        after.sent_text() == Some(text) || after.local_text() == Some(text),
        !before.has_system() ==> after.local_text() == Some(text),
        before.has_system() ==> after.sent_text() == Some(text),
{
}

/// Without a system clipboard, what is set is what is got back.
pub proof fn without_a_system_what_is_set_is_got(
    before: Clipboard,
    text: Seq<char>,
    after: Clipboard,
    got: Option<Seq<char>>,
)
    requires
        !before.has_system(),
        Clipboard::set_leaves(before, text, after),
        Clipboard::get_gives(after, got),
    ensures
        got == Some(text),
{
}

} // verus!
