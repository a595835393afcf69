//! The effects that need no store, no index and no model, and are performed
//! on the spot.

use crate::effect::{Effect, Event, EventView};
use crate::value::{ScriptValue, Value};
use vstd::prelude::*;

verus! {

/// Whether `c` is a digit of a number written to the base sixteen, in lower
/// case.
pub open spec fn is_hex_digit(c: char) -> bool {
    ('0' <= c <= '9') || ('a' <= c <= 'f')
}

/// Whether place `i` of a unique id that is written out holds a hyphen.
pub open spec fn is_hyphen_place(i: int) -> bool {
    i == 8 || i == 13 || i == 18 || i == 23
}

/// The shape of a random unique id that is written out: thirty-six
/// characters, of which those at the places eight, thirteen, eighteen and
/// twenty-three are hyphens and the others digits to the base sixteen in
/// lower case. The digit after the second hyphen is the version, four, and
/// the digit after the third holds the variant, so it is one of `8`, `9`,
/// `a` and `b`.
pub open spec fn is_unique_id(text: Seq<char>) -> bool {
    &&& text.len() == 36
    &&& forall|i: int|
        0 <= i < 36 ==> if is_hyphen_place(i) {
            #[trigger] text[i] == '-'
        } else {
            is_hex_digit(text[i])
        }
    &&& text[14] == '4'
    &&& (text[19] == '8' || text[19] == '9' || text[19] == 'a' || text[19] == 'b')
}

/// Calls `uuid::Uuid::new_v4` and writes the id out with `to_string`. The id
/// is random, so the contract claims nothing of its digits but the two that
/// every such id has: `new_v4` sets the version to four and the variant to
/// the standard one. `to_string` writes the hyphenated form in lower case,
/// which has the shape stated.
#[verifier::external_body]
fn fresh_uuid() -> (out: String)
    ensures
        is_unique_id(out@),
{
    uuid::Uuid::new_v4().to_string()
}

/// Performs `effect` if it is one of those that are performed on the spot,
/// and gives what came of it. A fresh unique id is made here; every other
/// effect is left to the caller.
pub fn perform_local(effect: &Effect) -> (out: Option<Event>)
    ensures
        out is Some <==> effect@ is FreshUuid,
        out matches Some(event) ==> event@ matches EventView::Reply(Value::String(id))
            && is_unique_id(id),
{
    match effect {
        Effect::FreshUuid => Some(Event::Reply(ScriptValue::String(fresh_uuid()))),
        _ => None,
    }
}

} // verus!
