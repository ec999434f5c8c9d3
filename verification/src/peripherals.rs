//! The peripheral status modules' boundary types.
//!
//! Beside the storage monitor, the program offers listeners over external
//! client libraries: a media player, an audio mixer, a compositor (windows,
//! workspaces, keyboard layout). Their connections, blocking wait-for-change
//! calls and payload queries live with those libraries, outside this crate;
//! what they share with the core — and what is verified here — is the
//! emission contract: on each relevant change, exactly one envelope line
//! with the freshly computed payload, or the absence marker when the query
//! failed.

use vstd::prelude::*;
use crate::emit;

verus! {

/// Which part of the compositor's state a listener follows.
#[derive(Clone, Copy, Debug, PartialEq, Eq)]
pub enum HyprlandOpts {
    Workspace,
    Window,
    Keyboard,
}

/// A compositor listener: the surrounding process subscribes to the
/// compositor's event socket and, on each relevant change, queries the
/// payload for the selected option and hands it to [`HyprlandListener::listen`].
pub struct HyprlandListener {
    pub opts: HyprlandOpts,
}

impl HyprlandListener {
    /// A listener for the selected option.
    pub fn new(opts: HyprlandOpts) -> (r: Self)
        ensures
            r.opts == opts,
    {
        HyprlandListener { opts }
    }

    /// The per-change step of the listening loop: turns one observation —
    /// the freshly rendered payload, or `None` when the query failed — into
    /// the one line to print.
    pub fn listen(&self, payload: Option<String>) -> (line: String)
        ensures
            line@ == emit::snapshot_line(payload.deep_view()),
    {
        match payload {
            Some(data) => emit::emit_line(Some(data.as_str())),
            None => emit::emit_line(None),
        }
    }
}

/// The media-player module: its connection and idle loop live with the
/// player's client library, outside this crate.
pub struct Mpd {}

/// The audio-mixer module: its context and subscription callbacks live with
/// the audio server's client library, outside this crate.
pub struct PulseAudio {}

/// The window-manager module: its IPC connection and event subscription live
/// with the compositor's client library, outside this crate.
pub struct Sway {}

} // verus!
