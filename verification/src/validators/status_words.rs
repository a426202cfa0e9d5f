//! Stateless sanity checks on the decoded status words.
//!
//! Each check returns `Ok` or one error string that concatenates a piece for
//! every violated constraint of that word, so a single bad word cannot mask
//! several violations.

use vstd::prelude::*;
use vstd::string::*;

use crate::textfmt::{hex_0x_upper, push_hex_0x_upper};
use crate::words::status_words::{ddw0_id, ihw_id, tdh_id, tdt_id, Ddw0, Ihw, Tdh, Tdt};

verus! {

/// The piece reporting a wrong identifier byte: which byte was expected and
/// which one stood there.
pub open spec fn spec_id_err_piece(expected: u8, found: u8) -> Seq<char> {
    "ID is not "@ + hex_0x_upper(expected as nat) + ": "@ + hex_0x_upper(found as nat) + " "@
}

/// The piece reporting non-zero reserved bits.
pub open spec fn spec_reserved_err_piece() -> Seq<char> {
    "reserved bits are not 0 "@
}

/// Append the wrong-identifier piece to `s`.
fn push_id_err_piece(s: &mut String, expected: u8, found: u8)
    ensures
        final(s)@ == old(s)@ + spec_id_err_piece(expected, found),
{
    s.append("ID is not ");
    push_hex_0x_upper(s, expected as u64);
    s.append(": ");
    push_hex_0x_upper(s, found as u64);
    s.append(" ");
    proof {
        assert(s@ =~= old(s)@ + spec_id_err_piece(expected, found));
    }
}

/// The full sanity message for a word with the given identifier findings.
pub open spec fn spec_word_sanity_msg(expected_id: u8, found_id: u8, reserved_zero: bool)
    -> Seq<char> {
    (if found_id != expected_id {
        spec_id_err_piece(expected_id, found_id)
    } else {
        Seq::empty()
    }) + (if !reserved_zero {
        spec_reserved_err_piece()
    } else {
        Seq::empty()
    })
}

/// Build the sanity result shared by all status words: an identifier check
/// followed by a reserved-bits check.
fn word_sanity_check(expected_id: u8, found_id: u8, reserved_zero: bool) -> (r: Result<
    (),
    String,
>)
    ensures
        r matches Ok(()) <==> (found_id == expected_id && reserved_zero),
        r matches Err(msg) ==> msg@ == spec_word_sanity_msg(expected_id, found_id, reserved_zero),
{
    if found_id == expected_id && reserved_zero {
        return Ok(());
    }
    let mut msg = String::new();
    if found_id != expected_id {
        push_id_err_piece(&mut msg, expected_id, found_id);
    }
    if !reserved_zero {
        msg.append("reserved bits are not 0 ");
    }
    proof {
        assert(msg@ =~= spec_word_sanity_msg(expected_id, found_id, reserved_zero));
    }
    Err(msg)
}

/// Whether an IHW satisfies every sanity constraint.
pub open spec fn spec_ihw_sane(ihw: Ihw) -> bool {
    ihw.id == ihw_id() && ihw.reserved == 0
}

/// The sanity message for an IHW.
pub open spec fn spec_ihw_sanity_msg(ihw: Ihw) -> Seq<char> {
    spec_word_sanity_msg(ihw_id(), ihw.id, ihw.reserved == 0)
}

/// Check an IHW: identifier 0xE0 and reserved bits 0.
pub fn sanity_check_ihw(ihw: &Ihw) -> (r: Result<(), String>)
    ensures
        r matches Ok(()) <==> spec_ihw_sane(*ihw),
        r matches Err(msg) ==> msg@ == spec_ihw_sanity_msg(*ihw),
{
    word_sanity_check(0xE0, ihw.id, ihw.reserved == 0)
}

/// Whether a TDH satisfies every sanity constraint.
pub open spec fn spec_tdh_sane(tdh: Tdh) -> bool {
    tdh.id == tdh_id() && tdh.reserved0 == 0 && tdh.reserved1 == 0 && tdh.reserved2 == 0
}

/// The sanity message for a TDH.
pub open spec fn spec_tdh_sanity_msg(tdh: Tdh) -> Seq<char> {
    spec_word_sanity_msg(
        tdh_id(),
        tdh.id,
        tdh.reserved0 == 0 && tdh.reserved1 == 0 && tdh.reserved2 == 0,
    )
}

/// Check a TDH: identifier 0xE8 and reserved bits 0.
pub fn sanity_check_tdh(tdh: &Tdh) -> (r: Result<(), String>)
    ensures
        r matches Ok(()) <==> spec_tdh_sane(*tdh),
        r matches Err(msg) ==> msg@ == spec_tdh_sanity_msg(*tdh),
{
    word_sanity_check(0xE8, tdh.id, tdh.reserved0 == 0 && tdh.reserved1 == 0 && tdh.reserved2 == 0)
}

/// Whether a TDT satisfies every sanity constraint.
pub open spec fn spec_tdt_sane(tdt: Tdt) -> bool {
    tdt.id == tdt_id() && tdt.reserved0 == 0
}

/// The sanity message for a TDT.
pub open spec fn spec_tdt_sanity_msg(tdt: Tdt) -> Seq<char> {
    spec_word_sanity_msg(tdt_id(), tdt.id, tdt.reserved0 == 0)
}

/// Check a TDT: identifier 0xF0 and reserved bits 0.
pub fn sanity_check_tdt(tdt: &Tdt) -> (r: Result<(), String>)
    ensures
        r matches Ok(()) <==> spec_tdt_sane(*tdt),
        r matches Err(msg) ==> msg@ == spec_tdt_sanity_msg(*tdt),
{
    word_sanity_check(0xF0, tdt.id, tdt.reserved0 == 0)
}

/// Whether a DDW0 satisfies every sanity constraint.
pub open spec fn spec_ddw0_sane(ddw0: Ddw0) -> bool {
    ddw0.id == ddw0_id() && ddw0.reserved0 == 0 && ddw0.reserved1 == 0
}

/// The sanity message for a DDW0.
pub open spec fn spec_ddw0_sanity_msg(ddw0: Ddw0) -> Seq<char> {
    spec_word_sanity_msg(ddw0_id(), ddw0.id, ddw0.reserved0 == 0 && ddw0.reserved1 == 0)
}

/// Check a DDW0: identifier 0xE4 and reserved bits 0.
pub fn sanity_check_ddw0(ddw0: &Ddw0) -> (r: Result<(), String>)
    ensures
        r matches Ok(()) <==> spec_ddw0_sane(*ddw0),
        r matches Err(msg) ==> msg@ == spec_ddw0_sanity_msg(*ddw0),
{
    word_sanity_check(0xE4, ddw0.id, ddw0.reserved0 == 0 && ddw0.reserved1 == 0)
}

} // verus!
