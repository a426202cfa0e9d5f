//! Text lines of the half-bunch-frame view: one line per RDH and one per
//! classified status word. Column widths are advisory; the decoded content
//! of each line is exact.

use vstd::prelude::*;
use vstd::string::*;

use crate::textfmt::{
    dec_digits, hex_byte_upper, hex_upper, push_dec, push_hex_byte_upper, push_hex_upper,
};
use crate::validators::its_payload_fsm_cont::PayloadWord;
use crate::words::rdh_cru::RdhCRU;
use crate::words::status_words::{Tdh, Tdt};

verus! {

/// The trigger category shown for an RDH: start-of-continuous beats
/// heartbeat beats physics.
pub open spec fn spec_rdh_trigger_type_str(trigger_type: u32) -> Seq<char> {
    if (trigger_type / 0x200) % 2 == 1 {
        "SOC  "@
    } else if (trigger_type / 2) % 2 == 1 {
        "HB   "@
    } else if (trigger_type / 0x10) % 2 == 1 {
        "PhT  "@
    } else {
        "Other"@
    }
}

/// The trigger category of an RDH as a fixed-width label.
pub fn rdh_trigger_type_as_string<Version>(rdh: &RdhCRU<Version>) -> (r: String)
    ensures
        r@ == spec_rdh_trigger_type_str(rdh.rdh2.trigger_type),
{
    let trigger_type = rdh.trigger_type();
    if (trigger_type / 0x200) % 2 == 1 {
        String::from_str("SOC  ")
    } else if (trigger_type / 2) % 2 == 1 {
        String::from_str("HB   ")
    } else if (trigger_type / 0x10) % 2 == 1 {
        String::from_str("PhT  ")
    } else {
        String::from_str("Other")
    }
}

/// The absolute memory position of the `word_idx`-th word (counted from 0)
/// of the payload whose RDH stands at `rdh_mem_pos`.
pub open spec fn spec_view_word_mem_pos(word_idx: nat, data_format: u8, rdh_mem_pos: u64) -> nat {
    (rdh_mem_pos + 64 + word_idx * (10 + (if data_format == 0 { 6int } else { 0int }))) as nat
}

/// Compute the memory position of one payload word for the view.
pub fn calc_current_word_mem_pos(word_idx: usize, data_format: u8, rdh_mem_pos: u64) -> (r: u64)
    requires
        word_idx <= 0xffff,
        rdh_mem_pos + 64 + 0x10_0000 <= u64::MAX,
    ensures
        r == spec_view_word_mem_pos(word_idx as nat, data_format, rdh_mem_pos),
{
    let gbt_word_padding: u64 = if data_format == 0 { 6 } else { 0 };
    let gbt_word_memory_size_bytes: u64 = 10 + gbt_word_padding;
    proof {
        assert(word_idx * (10 + gbt_word_padding) <= 0xffff * 16) by (nonlinear_arith)
            requires
                word_idx <= 0xffff,
                gbt_word_padding <= 6,
        ;
    }
    let relative_mem_pos = word_idx as u64 * gbt_word_memory_size_bytes;
    relative_mem_pos + rdh_mem_pos + 64
}

/// The ten bytes of a word, bracketed, two uppercase digits each.
pub open spec fn spec_word_slice_str(w: Seq<u8>) -> Seq<char>
    recommends
        w.len() == 10,
{
    "["@ + hex_byte_upper(w[0]) + " "@ + hex_byte_upper(w[1]) + " "@ + hex_byte_upper(w[2]) + " "@
        + hex_byte_upper(w[3]) + " "@ + hex_byte_upper(w[4]) + " "@ + hex_byte_upper(w[5]) + " "@
        + hex_byte_upper(w[6]) + " "@ + hex_byte_upper(w[7]) + " "@ + hex_byte_upper(w[8]) + " "@
        + hex_byte_upper(w[9]) + "]"@
}

/// Format a word's ten bytes for the view.
pub fn format_word_slice(word_slice: &[u8]) -> (r: String)
    requires
        word_slice@.len() == 10,
    ensures
        r@ == spec_word_slice_str(word_slice@),
{
    let mut s = String::new();
    s.append("[");
    push_hex_byte_upper(&mut s, word_slice[0]);
    s.append(" ");
    push_hex_byte_upper(&mut s, word_slice[1]);
    s.append(" ");
    push_hex_byte_upper(&mut s, word_slice[2]);
    s.append(" ");
    push_hex_byte_upper(&mut s, word_slice[3]);
    s.append(" ");
    push_hex_byte_upper(&mut s, word_slice[4]);
    s.append(" ");
    push_hex_byte_upper(&mut s, word_slice[5]);
    s.append(" ");
    push_hex_byte_upper(&mut s, word_slice[6]);
    s.append(" ");
    push_hex_byte_upper(&mut s, word_slice[7]);
    s.append(" ");
    push_hex_byte_upper(&mut s, word_slice[8]);
    s.append(" ");
    push_hex_byte_upper(&mut s, word_slice[9]);
    s.append("]");
    proof {
        assert(s@ =~= spec_word_slice_str(word_slice@));
    }
    s
}

/// The two header lines above the view's table.
pub open spec fn spec_hbf_header_text() -> Seq<char> {
    "Memory    Word  Trig.  Packet  Expect  Link  Lane\n"@
        + "Position  type  type   status  Data?   ID    faults\n"@
}

/// The column headers of the view.
pub fn start_of_hbf_header_text() -> (r: String)
    ensures
        r@ == spec_hbf_header_text(),
{
    let mut s = String::new();
    s.append("Memory    Word  Trig.  Packet  Expect  Link  Lane\n");
    s.append("Position  type  type   status  Data?   ID    faults\n");
    proof {
        assert(s@ =~= spec_hbf_header_text());
    }
    s
}

/// The view line of one RDH: its memory position, version, trigger category
/// and link id.
pub open spec fn spec_rdh_hbf_view_line<Version>(rdh: RdhCRU<Version>, rdh_mem_pos: u64)
    -> Seq<char> {
    hex_upper(rdh_mem_pos as nat) + ": RDH v"@ + dec_digits(rdh.rdh0.header_id as nat) + "  "@
        + spec_rdh_trigger_type_str(rdh.rdh2.trigger_type) + "  #"@ + dec_digits(
        rdh.link_id as nat,
    ) + "\n"@
}

/// Format the view line of one RDH.
pub fn rdh_hbf_view_line<Version>(rdh: &RdhCRU<Version>, rdh_mem_pos: u64) -> (r: String)
    ensures
        r@ == spec_rdh_hbf_view_line(*rdh, rdh_mem_pos),
{
    let mut s = String::new();
    push_hex_upper(&mut s, rdh_mem_pos);
    s.append(": RDH v");
    push_dec(&mut s, rdh.version() as u64);
    s.append("  ");
    let trig = rdh_trigger_type_as_string(rdh);
    s.append(trig.as_str());
    s.append("  #");
    push_dec(&mut s, rdh.link_id() as u64);
    s.append("\n");
    proof {
        assert(s@ =~= spec_rdh_hbf_view_line(*rdh, rdh_mem_pos));
    }
    s
}

/// The TDH flags shown in the view.
pub open spec fn spec_tdh_trigger_str(tdh: Tdh) -> Seq<char> {
    if tdh.internal_trigger == 1 {
        "Internal"@
    } else {
        "External"@
    }
}

pub open spec fn spec_tdh_continuation_str(tdh: Tdh) -> Seq<char> {
    if tdh.continuation == 1 {
        "Cont."@
    } else {
        "     "@
    }
}

pub open spec fn spec_tdh_no_data_str(tdh: Tdh) -> Seq<char> {
    if tdh.no_data == 1 {
        "No data"@
    } else {
        "Data!  "@
    }
}

/// The packet status shown for a TDT.
pub open spec fn spec_tdt_packet_done_str(tdt: Tdt) -> Seq<char> {
    if tdt.packet_done == 1 {
        "Complete"@
    } else {
        "Split   "@
    }
}

/// The view line of one classified payload word, or nothing for a CDW or a
/// plain data word.
pub open spec fn spec_payload_word_view_line(
    w: Seq<u8>,
    word_type: PayloadWord,
    mem_pos_str: Seq<char>,
) -> Seq<char>
    recommends
        w.len() == 10,
{
    match word_type {
        PayloadWord::IHW | PayloadWord::IHW_continuation => mem_pos_str + " IHW "@
            + spec_word_slice_str(w) + "\n"@,
        PayloadWord::TDH | PayloadWord::TDH_after_packet_done => mem_pos_str + " TDH "@
            + spec_word_slice_str(w) + " "@ + spec_tdh_trigger_str(Tdh::spec_load(w)) + "  "@
            + spec_tdh_continuation_str(Tdh::spec_load(w)) + "  "@ + spec_tdh_no_data_str(
            Tdh::spec_load(w),
        ) + "\n"@,
        PayloadWord::TDH_continuation => mem_pos_str + " TDH "@ + spec_word_slice_str(w) + " "@
            + spec_tdh_trigger_str(Tdh::spec_load(w)) + "  "@ + spec_tdh_continuation_str(
            Tdh::spec_load(w),
        ) + "\n"@,
        PayloadWord::TDT => mem_pos_str + " TDT "@ + spec_word_slice_str(w) + " "@
            + spec_tdt_packet_done_str(Tdt::spec_load(w)) + "  lane status: 0x"@ + hex_upper(
            Tdt::spec_load(w).lane_status as nat,
        ) + "\n"@,
        PayloadWord::DDW0 => mem_pos_str + " DDW "@ + spec_word_slice_str(w)
            + "  lane status: 0x"@ + hex_upper(
            crate::words::status_words::Ddw0::spec_load(w).lane_status as nat,
        ) + "\n"@,
        PayloadWord::CDW | PayloadWord::DataWord => Seq::empty(),
    }
}

/// Format the view line of one classified payload word; CDWs and plain data
/// words are not shown.
pub fn generate_payload_word_view(
    gbt_word_slice: &[u8],
    word_type: PayloadWord,
    mem_pos_str: &str,
) -> (r: String)
    requires
        gbt_word_slice@.len() == 10,
    ensures
        r@ == spec_payload_word_view_line(gbt_word_slice@, word_type, mem_pos_str@),
{
    let word_slice_str = format_word_slice(gbt_word_slice);
    let mut s = String::new();
    match word_type {
        PayloadWord::IHW | PayloadWord::IHW_continuation => {
            s.append(mem_pos_str);
            s.append(" IHW ");
            s.append(word_slice_str.as_str());
            s.append("\n");
        },
        PayloadWord::TDH | PayloadWord::TDH_after_packet_done => {
            let tdh = Tdh::load(gbt_word_slice);
            s.append(mem_pos_str);
            s.append(" TDH ");
            s.append(word_slice_str.as_str());
            s.append(" ");
            if tdh.internal_trigger() == 1 {
                s.append("Internal");
            } else {
                s.append("External");
            }
            s.append("  ");
            if tdh.continuation() == 1 {
                s.append("Cont.");
            } else {
                s.append("     ");
            }
            s.append("  ");
            if tdh.no_data() == 1 {
                s.append("No data");
            } else {
                s.append("Data!  ");
            }
            s.append("\n");
        },
        PayloadWord::TDH_continuation => {
            let tdh = Tdh::load(gbt_word_slice);
            s.append(mem_pos_str);
            s.append(" TDH ");
            s.append(word_slice_str.as_str());
            s.append(" ");
            if tdh.internal_trigger() == 1 {
                s.append("Internal");
            } else {
                s.append("External");
            }
            s.append("  ");
            if tdh.continuation() == 1 {
                s.append("Cont.");
            } else {
                s.append("     ");
            }
            s.append("\n");
        },
        PayloadWord::TDT => {
            let tdt = Tdt::load(gbt_word_slice);
            s.append(mem_pos_str);
            s.append(" TDT ");
            s.append(word_slice_str.as_str());
            s.append(" ");
            if tdt.packet_done() {
                s.append("Complete");
            } else {
                s.append("Split   ");
            }
            s.append("  lane status: 0x");
            push_hex_upper(&mut s, tdt.lane_status);
            s.append("\n");
        },
        PayloadWord::DDW0 => {
            let ddw0 = crate::words::status_words::Ddw0::load(gbt_word_slice);
            s.append(mem_pos_str);
            s.append(" DDW ");
            s.append(word_slice_str.as_str());
            s.append("  lane status: 0x");
            push_hex_upper(&mut s, ddw0.lane_status);
            s.append("\n");
        },
        PayloadWord::CDW | PayloadWord::DataWord => {},
    }
    proof {
        assert(s@ =~= spec_payload_word_view_line(gbt_word_slice@, word_type, mem_pos_str@));
    }
    s
}

} // verus!
