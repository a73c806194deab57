//! A server's settings and what it holds when it begins to listen.

use vstd::prelude::*;
use crate::codec::{DecodeError, DecodeErrorV};
use crate::layout::{dec_recording_text, decode_recording_text};
use crate::recording::RecordingV;
use crate::state::WSBridgeState;
use crate::ws_handler::{set_exit_after_serve, ReplayConfig};

verus! {

/// The settings of a server.
#[derive(Clone, Debug, PartialEq, Eq)]
pub struct WSBridgeArgs {
    /// The address that the server is reached at.
    pub address: String,
    /// The port that the server listens on.
    pub port: u16,
    /// The path of the recording file.
    pub input: String,
    /// Whether the server stops after its first complete replay.
    pub exit_after_serve: bool,
    /// Whether a browser is opened on the server once it listens.
    pub open_browser: bool,
}

/// The port that a server listens on where none is given.
pub const DEFAULT_PORT: u16 = 3031;

/// What a server holds when it begins to listen.
pub struct Startup {
    pub config: ReplayConfig,
    pub state: WSBridgeState,
}

/// Prepares a server from its settings and the text of its recording file:
/// the server stops after one replay exactly where the settings say so, and
/// holds the one recording of the file. A file that holds no recording
/// prepares nothing: the error says what is wrong with it.
pub fn start_server(args: &WSBridgeArgs, recording_text: &str) -> (r: Result<Startup, DecodeError>)
    ensures
        match r {
            Ok(startup) => {
                &&& startup.config.exit_after_serve == args.exit_after_serve
                &&& dec_recording_text(recording_text@) == Ok::<RecordingV, DecodeErrorV>(
                    startup.state.deep_view()[0],
                )
                &&& startup.state.deep_view().len() == 1
            },
            Err(error) => dec_recording_text(recording_text@) == Err::<RecordingV, DecodeErrorV>(
                error.deep_view(),
            ),
        },
{
    let mut config = ReplayConfig { exit_after_serve: false };
    set_exit_after_serve(&mut config, args.exit_after_serve);
    let mut state = WSBridgeState::new();
    match decode_recording_text(recording_text) {
        Ok(recording) => {
            state.add_recording(recording);
            Ok(Startup { config, state })
        },
        Err(error) => Err(error),
    }
}

/// The settings of a server for the recording file at `recording_path`, on
/// the local address.
pub fn start_server_with_recording(
    recording_path: String,
    port: u16,
    exit_after_serve: bool,
    open_browser: bool,
) -> (args: WSBridgeArgs)
    ensures
        args.address@ == "127.0.0.1"@,
        args.port == port,
        args.input@ == recording_path@,
        args.exit_after_serve == exit_after_serve,
        args.open_browser == open_browser,
{
    WSBridgeArgs {
        address: "127.0.0.1".to_owned(),
        port,
        input: recording_path,
        exit_after_serve,
        open_browser,
    }
}

} // verus!
