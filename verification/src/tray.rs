//! What the tray icon shows of the pipeline.

use crate::paths::extension_of;
use crate::paths::path_extension;
use crate::text::decimal;
use crate::text::decimal_text;
use crate::uploader::Board;
use crate::uploader::UploadManager;
use crate::uploader::UploadStatus;
use vstd::prelude::*;
use vstd::string::StringExecFns;
use vstd::utf8::decode_utf8;
use vstd::utf8::encode_utf8;
use vstd::utf8::encode_utf8_decode_utf8;
use vstd::utf8::is_char_boundary;

verus! {

/// The state the tray icon stands for.
#[derive(Clone, Copy, Debug, PartialEq, Eq, Structural)]
pub enum TrayState {
    /// Online, nothing to do.
    Connected,
    /// An upload is in flight; the number counts it and the files behind it.
    Syncing(usize),
    /// The server is out of reach.
    Offline,
    /// Files are waiting and none is in flight.
    Pending(usize),
    /// Nobody is signed in.
    NotAuthenticated,
}

/// The tray state that a board calls for: being offline comes first, then
/// an upload in flight, then files that wait.
pub open spec fn tray_state_of(board: Board) -> TrayState {
    if !board.online {
        TrayState::Offline
    } else if board.uploading {
        TrayState::Syncing(
            if board.queue.len() < usize::MAX {
                (board.queue.len() + 1) as usize
            } else {
                usize::MAX
            },
        )
    } else if board.queue.len() > 0 {
        TrayState::Pending(board.queue.len() as usize)
    } else {
        TrayState::Connected
    }
}

/// Name of the icon shown for a state.
pub open spec fn icon_of(state: TrayState) -> Seq<char> {
    match state {
        TrayState::Connected => "tray-default"@,
        TrayState::Syncing(_) => "tray-syncing"@,
        TrayState::Offline => "tray-offline"@,
        TrayState::Pending(_) => "tray-default"@,
        TrayState::NotAuthenticated => "tray-offline"@,
    }
}

/// Tooltip shown for a state.
pub open spec fn tooltip_of(state: TrayState) -> Seq<char> {
    match state {
        TrayState::Connected => "Inmobiliaria Inbox — Conectado"@,
        TrayState::Syncing(n) => "Inmobiliaria Inbox — Subiendo "@ + decimal(n as nat)
            + " archivo(s)..."@,
        TrayState::Offline => "Inmobiliaria Inbox — Sin conexión"@,
        TrayState::Pending(n) => "Inmobiliaria Inbox — "@ + decimal(n as nat) + " pendiente(s)"@,
        TrayState::NotAuthenticated => "Inmobiliaria Inbox — No autenticado"@,
    }
}

/// Status line of the menu for a state.
pub open spec fn status_line_of(state: TrayState) -> Seq<char> {
    match state {
        TrayState::Connected => "✓ Conectado"@,
        TrayState::Syncing(n) => "↑ Subiendo "@ + decimal(n as nat) + " archivo(s)..."@,
        TrayState::Offline => "✕ Sin conexión"@,
        TrayState::Pending(n) => "● "@ + decimal(n as nat) + " pendiente(s) de subida"@,
        TrayState::NotAuthenticated => "⚠ No autenticado"@,
    }
}

/// Mark shown before a recent upload of the given status.
pub open spec fn mark_of(status: UploadStatus) -> Seq<char> {
    match status {
        UploadStatus::Success => "✓"@,
        UploadStatus::Failed => "✕"@,
        UploadStatus::Pending => "●"@,
        UploadStatus::Uploading => "↑"@,
    }
}

/// The extension shown at the end of a shortened name; nothing where the
/// name has none.
pub open spec fn shown_extension(name: Seq<char>) -> Seq<char> {
    match path_extension(name) {
        Some(extension) => extension,
        None => Seq::empty(),
    }
}

/// Bytes of `name` that are kept in front when it is shortened to about
/// `max_len` bytes: what is left once the extension, the dots and a
/// separator are set aside.
pub open spec fn stem_budget(name: Seq<char>, extension: Seq<char>, max_len: nat) -> nat {
    let reserved = encode_utf8(extension).len() + 4;
    let budget = if max_len > reserved {
        (max_len - reserved) as nat
    } else {
        0
    };
    if budget < encode_utf8(name).len() {
        budget
    } else {
        encode_utf8(name).len()
    }
}

/// `name` as shown in at most about `max_len` bytes, `extension` being shown
/// at its end: a name that fits is shown whole; of a longer one the front is
/// kept, then three dots, then the extension. There is no way to show a
/// longer name whose cut would fall inside a character.
pub open spec fn shortened(name: Seq<char>, extension: Seq<char>, max_len: nat) -> Option<
    Seq<char>,
> {
    let bytes = encode_utf8(name);
    let cut = stem_budget(name, extension, max_len) as int;
    if bytes.len() <= max_len {
        Some(name)
    } else if is_char_boundary(bytes, cut) {
        Some(decode_utf8(bytes.subrange(0, cut)) + "..."@ + extension)
    } else {
        None
    }
}

/// A name can be shortened where it need not be, or where the cut falls
/// between two characters.
pub open spec fn can_truncate(name: Seq<char>, max_len: nat) -> bool {
    shortened(name, shown_extension(name), max_len) is Some
}

/// `name` as shown in at most about `max_len` bytes, with its own extension
/// at the end.
pub open spec fn truncated(name: Seq<char>, max_len: nat) -> Seq<char> {
    shortened(name, shown_extension(name), max_len).unwrap()
}

/// The state the tray icon is to show for the manager.
pub fn determine_state(upload_manager: &UploadManager) -> (state: TrayState)
    ensures
        state == tray_state_of(upload_manager@),
{
    if !upload_manager.is_online() {
        return TrayState::Offline;
    }
    if upload_manager.is_uploading() {
        return TrayState::Syncing(upload_manager.queue_size().saturating_add(1));
    }
    let queue_size = upload_manager.queue_size();
    if queue_size > 0 {
        return TrayState::Pending(queue_size);
    }
    TrayState::Connected
}

impl TrayState {
    /// Name of the icon shown for this state.
    pub fn icon_name(&self) -> (name: &'static str)
        ensures
            name@ == icon_of(*self),
    {
        match self {
            TrayState::Connected => "tray-default",
            TrayState::Syncing(_) => "tray-syncing",
            TrayState::Offline => "tray-offline",
            TrayState::Pending(_) => "tray-default",
            TrayState::NotAuthenticated => "tray-offline",
        }
    }

    /// Tooltip shown for this state.
    pub fn tooltip(&self) -> (text: String)
        ensures
            text@ == tooltip_of(*self),
    {
        match self {
            TrayState::Connected => String::from_str("Inmobiliaria Inbox — Conectado"),
            TrayState::Syncing(n) => String::from_str("Inmobiliaria Inbox — Subiendo ").concat(
                decimal_text(*n as u64).as_str(),
            ).concat(" archivo(s)..."),
            TrayState::Offline => String::from_str("Inmobiliaria Inbox — Sin conexión"),
            TrayState::Pending(n) => String::from_str("Inmobiliaria Inbox — ").concat(
                decimal_text(*n as u64).as_str(),
            ).concat(" pendiente(s)"),
            TrayState::NotAuthenticated => String::from_str("Inmobiliaria Inbox — No autenticado"),
        }
    }

    /// Status line of the menu for this state.
    pub fn status_line(&self) -> (text: String)
        ensures
            text@ == status_line_of(*self),
    {
        match self {
            TrayState::Connected => String::from_str("✓ Conectado"),
            TrayState::Syncing(n) => String::from_str("↑ Subiendo ").concat(
                decimal_text(*n as u64).as_str(),
            ).concat(" archivo(s)..."),
            TrayState::Offline => String::from_str("✕ Sin conexión"),
            TrayState::Pending(n) => String::from_str("● ").concat(
                decimal_text(*n as u64).as_str(),
            ).concat(" pendiente(s) de subida"),
            TrayState::NotAuthenticated => String::from_str("⚠ No autenticado"),
        }
    }
}

/// Mark shown before a recent upload of the given status.
pub fn status_mark(status: UploadStatus) -> (mark: &'static str)
    ensures
        mark@ == mark_of(status),
{
    match status {
        UploadStatus::Success => "✓",
        UploadStatus::Failed => "✕",
        UploadStatus::Pending => "●",
        UploadStatus::Uploading => "↑",
    }
}

fn shown_extension_of(name: &str) -> (extension: String)
    ensures
        extension@ == shown_extension(name@),
{
    match extension_of(name) {
        Some(extension) => extension,
        None => String::new(),
    }
}

/// Shortens `name` for display in about `max_len` bytes, with `extension`
/// shown at its end, or answers `None` where the cut would fall inside a
/// character.
pub fn shorten_name(name: &str, extension: &str, max_len: usize) -> (shown: Option<String>)
    ensures
        shown.deep_view() == shortened(name@, extension@, max_len as nat),
{
    let length: usize = name.as_bytes().len();
    if length <= max_len {
        return Some(String::from_str(name));
    }
    let reserved: usize = extension.as_bytes().len().saturating_add(4);
    let budget: usize = max_len.saturating_sub(reserved);
    let cut: usize = if budget < length {
        budget
    } else {
        length
    };
    if !name.is_char_boundary(cut) {
        return None;
    }
    let (stem, _) = name.split_at(cut);
    proof {
        encode_utf8_decode_utf8(stem@);
    }
    Some(String::from_str(stem).concat("...").concat(extension))
}

/// Shortens a file name for display in about `max_len` bytes. The name must
/// be one that [`can_truncate`] admits: the cut may not fall inside a
/// character.
pub fn truncate_name(name: &str, max_len: usize) -> (shown: String)
    requires
        can_truncate(name@, max_len as nat),
    ensures
        shown@ == truncated(name@, max_len as nat),
{
    let extension = shown_extension_of(name);
    let shown = shorten_name(name, extension.as_str(), max_len);
    shown.unwrap()
}

/// Shortens a file name for display in about `max_len` bytes, or answers
/// `None` where the cut would fall inside a character.
pub fn try_truncate_name(name: &str, max_len: usize) -> (shown: Option<String>)
    ensures
        shown.deep_view() == shortened(name@, shown_extension(name@), max_len as nat),
        can_truncate(name@, max_len as nat) ==> shown.deep_view() == Some(
            truncated(name@, max_len as nat),
        ),
        !can_truncate(name@, max_len as nat) ==> shown is None,
{
    let extension = shown_extension_of(name);
    if shorten_name(name, extension.as_str(), max_len).is_some() {
        Some(truncate_name(name, max_len))
    } else {
        None
    }
}

} // verus!
