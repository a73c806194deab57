//! The producer's handle on the recording of its session.

use vstd::prelude::*;
use crate::json::Json;
use crate::layout::{enc_recording, encode_recording};
use crate::recording::{Recording, RecordingV};

verus! {

/// The length of a session identifier: 32 hexadecimal digits in five groups,
/// with a hyphen between two groups.
pub const SESSION_ID_LEN: usize = 36;

/// Whether `c` is a hexadecimal digit in lower case.
pub open spec fn is_hex_digit(c: char) -> bool {
    ('0' <= c && c <= '9') || ('a' <= c && c <= 'f')
}

/// Whether `id` has the form of a session identifier: groups of 8, 4, 4, 4
/// and 12 hexadecimal digits in lower case, with a hyphen between two
/// groups, and `4` as the first digit of the third group.
pub open spec fn is_session_id(id: Seq<char>) -> bool {
    &&& id.len() == SESSION_ID_LEN
    &&& forall|i: int|
        0 <= i < id.len() ==> if i == 8 || i == 13 || i == 18 || i == 23 {
            id[i] == '-'
        } else {
            is_hex_digit(#[trigger] id[i])
        }
    &&& id[14] == '4'
}

/// Calls `uuid::Uuid::new_v4` and writes the identifier as its `Display`
/// does: hyphenated, in lower case, with the version digit `4`. The
/// identifier is random, so only its form is claimed. The call panics where
/// the system hands out no random bytes.
#[verifier::external_body]
fn fresh_session_id() -> (id: String)
    ensures
        is_session_id(id@),
{
    uuid::Uuid::new_v4().to_string()
}

/// A producer's handle on the recording of its session.
pub struct Logger {
    pub name: String,
    pub session_id: String,
    pub recording: Recording,
}

impl Logger {
    /// A logger with a fresh session identifier and an empty recording under
    /// the same name and identifier.
    pub fn new(name: String) -> (logger: Self)
        ensures
            logger.name@ == name@,
            is_session_id(logger.session_id@),
            logger.recording.deep_view() == (RecordingV {
                name: name@,
                session_id: logger.session_id@,
                vizs: Seq::empty(),
            }),
    {
        let session_id = fresh_session_id();
        let recording = Recording::new(name.clone(), session_id.clone());
        Self { name, session_id, recording }
    }

    /// The document that is written where the recording is saved.
    pub fn save(&self) -> (doc: Json)
        ensures
            doc.deep_view() == enc_recording(self.recording.deep_view()),
    {
        encode_recording(&self.recording)
    }
}

} // verus!
