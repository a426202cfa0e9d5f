//! Stateless sanity check on the data-word family: only identifier bytes
//! whose top three bits name the inner or the outer barrel are valid.

use vstd::prelude::*;
use vstd::string::*;

use crate::textfmt::{hex_0x_upper, push_hex_0x_upper};
use crate::words::data_words::spec_is_data_word_id;

verus! {

/// The message reporting an identifier that names no data word.
pub open spec fn spec_invalid_data_word_msg(id: u8) -> Seq<char> {
    "ID is invalid: "@ + hex_0x_upper(id as nat)
}

/// Check that a 10-byte word carries a valid data-word identifier.
pub fn check_any(word: &[u8]) -> (r: Result<(), String>)
    requires
        word@.len() == 10,
    ensures
        r matches Ok(()) <==> spec_is_data_word_id(word@[9]),
        r matches Err(msg) ==> msg@ == spec_invalid_data_word_msg(word@[9]),
{
    let id = word[9];
    if id / 0x20 == 1 || id / 0x20 == 2 {
        Ok(())
    } else {
        let mut msg = String::new();
        msg.append("ID is invalid: ");
        push_hex_0x_upper(&mut msg, id as u64);
        proof {
            assert(msg@ =~= spec_invalid_data_word_msg(word@[9]));
        }
        Err(msg)
    }
}

} // verus!
