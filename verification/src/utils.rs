//! Names that depend on the aircraft that is loaded, and the text that goes to the
//! simulator's log.

use vstd::prelude::*;
use vstd::string::StringExecFns;

verus! {

/// Name of the directory of hint images inside an aircraft's directory.
pub const HINTS_DIRECTORY: &'static str = "hints";

/// Name of the directory, inside the simulator's preferences, that window states are kept in.
pub const SAVE_DIRECTORY: &'static str = "hints";

/// The ICAO type designator of the aircraft, as the simulator gives it: an empty text
/// stands for none.
#[must_use]
pub fn get_current_aircraft_icao(value: String) -> (icao: Option<String>)
    ensures
        icao is None <==> value@.len() == 0,
        icao matches Some(designator) ==> designator@ == value@,
{
    if value.as_str().is_empty() {
        None
    } else {
        Some(value)
    }
}

/// The name of an aircraft's file without its extension, as `std::path::PathBuf::set_extension`
/// leaves it when it is given the empty extension.
///
/// Which part of a name is its extension is left to the platform, so nothing is stated of the
/// result.
#[verifier::external_body]
fn without_extension(filename: &str) -> (stem: String) {
    let mut path = std::path::PathBuf::from(filename);
    path.set_extension("");
    path.to_string_lossy().into_owned()
}

/// The name by which an aircraft is known: its ICAO type designator where it has one, and
/// else the name of its file without the extension.
pub open spec fn aircraft_id_of(icao: Option<Seq<char>>, stem: Seq<char>) -> Seq<char> {
    match icao {
        Some(designator) => designator,
        None => stem,
    }
}

/// The name by which an aircraft is known, given the name `stem` of its file without the
/// extension.
pub fn aircraft_id(icao: Option<String>, stem: String) -> (id: String)
    ensures
        id@ == aircraft_id_of(
            match icao {
                Some(designator) => Some(designator@),
                None => None,
            },
            stem@,
        ),
{
    match icao {
        Some(designator) => designator,
        None => stem,
    }
}

/// The name by which an aircraft is known, given the name `filename` of its file: see
/// [`aircraft_id_of`].
pub fn get_current_aircraft_id(icao: Option<String>, filename: &str) -> (id: String)
    ensures
        icao matches Some(designator) ==> id@ == designator@,
{
    match icao {
        Some(designator) => designator,
        None => aircraft_id(None, without_extension(filename)),
    }
}

/// Name of the file that the window state of an aircraft is kept in.
pub fn state_file_name(aircraft_id: &str) -> (name: String)
    ensures
        name@ == aircraft_id@ + ".toml"@,
{
    let mut name = String::from_str(aircraft_id);
    name.append(".toml");
    name
}

/// The text that is logged in place of one that the simulator's log cannot take:
/// `Invalid message` and a line feed.
pub open spec fn invalid_message() -> Seq<u8> {
    seq![73u8, 110u8, 118u8, 97u8, 108u8, 105u8, 100u8, 32u8, 109u8, 101u8, 115u8, 115u8, 97u8, 103u8, 101u8, 10u8]
}

/// The text that goes to the simulator's log for `buf`: `buf` itself, unless it holds a zero
/// byte, which would end the text early.
pub open spec fn debug_message(buf: Seq<u8>) -> Seq<u8> {
    if buf.contains(0u8) {
        invalid_message()
    } else {
        buf
    }
}

/// The text that is logged in place of another holds no zero byte itself.
pub proof fn lemma_invalid_message_has_no_zero()
    ensures
        !invalid_message().contains(0u8),
{
    assert forall|i: int| 0 <= i < invalid_message().len() implies invalid_message()[i] != 0u8 by {
    }
}

/// A writer whose output goes to the simulator's log.
#[derive(Debug, Clone, Copy, PartialEq, Eq, Structural)]
pub struct XplmWrite;

impl XplmWrite {
    /// Takes `buf` for the log. Returns the number of bytes that were taken, which is all of
    /// them, and the text that is to be logged for them: see [`debug_message`].
    pub fn write(&mut self, buf: &[u8]) -> (written: (usize, Vec<u8>))
        ensures
            written.0 == buf@.len(),
            written.1@ == debug_message(buf@),
            !written.1@.contains(0u8),
    {
        let mut message: Vec<u8> = Vec::new();
        let mut i: usize = 0;
        while i < buf.len()
            invariant
                i <= buf@.len(),
                message@ == buf@.take(i as int),
                forall|j: int| 0 <= j < i ==> buf@[j] != 0u8,
            decreases buf@.len() - i,
        {
            if buf[i] == 0 {
                assert(buf@.contains(0u8));
                proof {
                    lemma_invalid_message_has_no_zero();
                }
                return (
                    buf.len(),
                    vec![73u8, 110u8, 118u8, 97u8, 108u8, 105u8, 100u8, 32u8, 109u8, 101u8, 115u8, 115u8, 97u8, 103u8, 101u8, 10u8],
                );
            }
            message.push(buf[i]);
            assert(message@ =~= buf@.take(i + 1));
            i += 1;
        }
        assert(buf@.take(i as int) =~= buf@);
        (buf.len(), message)
    }
}

} // verus!
