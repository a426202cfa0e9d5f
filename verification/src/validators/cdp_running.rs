//! The running validator: consumes one RDH and then its classified GBT words
//! one at a time, runs the per-word sanity checks, and enforces the
//! cross-word rules that correlate RDH fields with payload words.
//!
//! Every violation is kept as one formatted line
//! `<hex mem pos>: <code> <message> [<10 hex bytes>]` in `errors`, in the
//! order found; the caller forwards them to the statistics sink.

use vstd::prelude::*;
use vstd::string::*;

use crate::textfmt::{
    dec_digits, hex_0x_upper, hex_byte_upper, push_dec, push_hex_0x_upper, push_hex_byte_upper,
};
use crate::validators::its_payload_fsm_cont::{
    spec_advance, FsmState, ItsPayloadFsmContinuous, PayloadWord,
};
use crate::validators::status_words::{
    sanity_check_ddw0, sanity_check_ihw, sanity_check_tdh, sanity_check_tdt, spec_ddw0_sane,
    spec_ddw0_sanity_msg, spec_ihw_sane, spec_ihw_sanity_msg, spec_tdh_sane, spec_tdh_sanity_msg,
    spec_tdt_sane, spec_tdt_sanity_msg,
};
use crate::words::data_words::{
    spec_is_data_word_id, spec_is_ib_data_word_id, spec_is_ob_data_word_id,
    spec_ib_data_word_id_to_lane, spec_ob_data_word_id_to_input_number_connector,
    spec_ob_data_word_id_to_lane,
};
use crate::words::rdh_cru::RdhCRU;
use crate::words::status_words::{spec_is_lane_active, Cdw, Ddw0, Ihw, Tdh, Tdt};

verus! {

/// The absolute memory position of the word the validator is looking at,
/// after the word counter was advanced to `counter`: the first payload byte
/// stands at `payload_mem_pos`, and each earlier word took `10 + padding`
/// bytes.
pub open spec fn spec_word_mem_pos(payload_mem_pos: u64, counter: u16, padding: u8) -> nat
    recommends
        counter >= 1,
{
    (payload_mem_pos + (counter - 1) * (10 + padding)) as nat
}

/// One reported line: the memory position in uppercase hexadecimal, the
/// message, and the word's ten bytes.
pub open spec fn spec_report_line(mem_pos: nat, error: Seq<char>, w: Seq<u8>) -> Seq<char>
    recommends
        w.len() == 10,
{
    hex_0x_upper(mem_pos) + ": "@ + error + " ["@ + hex_byte_upper(w[0]) + " "@ + hex_byte_upper(
        w[1],
    ) + " "@ + hex_byte_upper(w[2]) + " "@ + hex_byte_upper(w[3]) + " "@ + hex_byte_upper(w[4])
        + " "@ + hex_byte_upper(w[5]) + " "@ + hex_byte_upper(w[6]) + " "@ + hex_byte_upper(w[7])
        + " "@ + hex_byte_upper(w[8]) + " "@ + hex_byte_upper(w[9]) + "]"@
}

/// Checks the words of a CDP payload against its RDH and reports every
/// violation. `Version` is the RDH version tag.
pub struct CdpRunningValidator<Version> {
    /// Whether the cross-word rules run; the sanity checks always run.
    pub running_checks: bool,
    /// The payload classifier.
    pub its_state_machine: ItsPayloadFsmContinuous,
    /// By-value copy of the RDH whose payload is being checked.
    pub current_rdh: Option<RdhCRU<Version>>,
    /// The IHW of the current half-bunch frame.
    pub current_ihw: Option<Ihw>,
    /// The TDH most recently seen.
    pub current_tdh: Option<Tdh>,
    /// The TDH seen before that one; outlives chunk boundaries.
    pub previous_tdh: Option<Tdh>,
    /// The TDT most recently seen.
    pub current_tdt: Option<Tdt>,
    /// The DDW0 most recently seen.
    pub current_ddw0: Option<Ddw0>,
    /// The CDW seen before the current one; outlives chunk boundaries.
    pub previous_cdw: Option<Cdw>,
    /// Words seen in the current CDP, the current one included.
    pub gbt_word_counter: u16,
    /// Every violation found so far, as formatted lines in order.
    pub errors: Vec<String>,
    /// Absolute position of the first payload byte: the RDH's position + 64.
    pub payload_mem_pos: u64,
    /// 6 for data format 0, else 0.
    pub gbt_word_padding_size_bytes: u8,
    /// True until the first data word or CDW of a new payload was seen.
    pub is_new_data: bool,
}

impl<Version> CdpRunningValidator<Version> {
    /// Positions computed for this payload stay below `u64::MAX`: the word
    /// counter is 16 bits and a padded word takes 16 bytes.
    pub open spec fn spec_mem_in_bounds(&self) -> bool {
        self.payload_mem_pos + 0x10_0000 <= u64::MAX && self.gbt_word_padding_size_bytes <= 6
    }

    pub fn new(running_checks: bool) -> (r: CdpRunningValidator<Version>)
        ensures
            r.running_checks == running_checks,
            r.its_state_machine.state == FsmState::Initial,
            r.current_rdh is None,
            r.current_ihw is None,
            r.current_tdh is None,
            r.previous_tdh is None,
            r.current_tdt is None,
            r.current_ddw0 is None,
            r.previous_cdw is None,
            r.gbt_word_counter == 0,
            r.errors@ == Seq::<String>::empty(),
            r.payload_mem_pos == 0,
            r.gbt_word_padding_size_bytes == 0,
            r.is_new_data == false,
    {
        CdpRunningValidator {
            running_checks,
            its_state_machine: ItsPayloadFsmContinuous::new(),
            current_rdh: None,
            current_ihw: None,
            current_tdh: None,
            previous_tdh: None,
            current_tdt: None,
            current_ddw0: None,
            previous_cdw: None,
            gbt_word_counter: 0,
            errors: Vec::new(),
            payload_mem_pos: 0,
            gbt_word_padding_size_bytes: 0,
            is_new_data: false,
        }
    }

    /// Turn the cross-word rules on or off.
    pub fn set_config(&mut self, running_checks: bool)
        ensures
            *final(self) == (CdpRunningValidator { running_checks, ..*old(self) }),
    {
        self.running_checks = running_checks;
    }

    /// Force the payload classifier back to its initial state, as after a
    /// payload whose format could not be parsed.
    pub fn reset_fsm(&mut self)
        ensures
            final(self).its_state_machine.state == FsmState::Initial,
            *final(self) == (CdpRunningValidator {
                its_state_machine: final(self).its_state_machine,
                ..*old(self)
            }),
    {
        self.its_state_machine.reset_fsm();
    }

    /// Start a new CDP: keep a copy of its RDH, derive the padding from its
    /// data format, and reset the word counter.
    pub fn set_current_rdh(&mut self, rdh: &RdhCRU<Version>, rdh_mem_pos: u64)
        requires
            rdh_mem_pos + 64 + 0x10_0000 <= u64::MAX,
        ensures
            final(self).current_rdh == Some(*rdh),
            final(self).payload_mem_pos == rdh_mem_pos + 64,
            final(self).gbt_word_padding_size_bytes == (if rdh.spec_data_format() == 0 {
                6u8
            } else {
                0u8
            }),
            final(self).is_new_data == true,
            final(self).gbt_word_counter == 0,
            final(self).spec_mem_in_bounds(),
            final(self).running_checks == old(self).running_checks,
            final(self).its_state_machine == old(self).its_state_machine,
            final(self).current_ihw == old(self).current_ihw,
            final(self).current_tdh == old(self).current_tdh,
            final(self).previous_tdh == old(self).previous_tdh,
            final(self).current_tdt == old(self).current_tdt,
            final(self).current_ddw0 == old(self).current_ddw0,
            final(self).previous_cdw == old(self).previous_cdw,
            final(self).errors == old(self).errors,
    {
        self.current_rdh = Some(rdh.clone());
        self.payload_mem_pos = rdh_mem_pos + 64;
        if rdh.data_format() == 0 {
            self.gbt_word_padding_size_bytes = 6;
        } else {
            self.gbt_word_padding_size_bytes = 0;
        }
        self.is_new_data = true;
        self.gbt_word_counter = 0;
    }

    /// The memory position of the word the counter stands on.
    fn calc_current_word_mem_pos(&self) -> (r: u64)
        requires
            self.gbt_word_counter >= 1,
            self.spec_mem_in_bounds(),
        ensures
            r == spec_word_mem_pos(
                self.payload_mem_pos,
                self.gbt_word_counter,
                self.gbt_word_padding_size_bytes,
            ),
    {
        let gbt_word_memory_size_bytes: u64 = 10 + self.gbt_word_padding_size_bytes as u64;
        proof {
            assert((self.gbt_word_counter - 1) * (10 + self.gbt_word_padding_size_bytes)
                <= 0xffff * 16) by (nonlinear_arith)
                requires
                    1 <= self.gbt_word_counter <= 0xffff,
                    self.gbt_word_padding_size_bytes <= 6,
            ;
        }
        let relative_mem_pos = (self.gbt_word_counter - 1) as u64 * gbt_word_memory_size_bytes;
        relative_mem_pos + self.payload_mem_pos
    }

    /// Format one violation as a line and keep it: the current memory
    /// position in hexadecimal, the message, and the word's ten bytes.
    fn report_error(&mut self, error: &str, word_slice: &[u8])
        requires
            word_slice@.len() == 10,
            old(self).gbt_word_counter >= 1,
            old(self).spec_mem_in_bounds(),
        ensures
            final(self).errors.deep_view() == old(self).errors.deep_view().push(
                spec_report_line(
                    spec_word_mem_pos(
                        old(self).payload_mem_pos,
                        old(self).gbt_word_counter,
                        old(self).gbt_word_padding_size_bytes,
                    ),
                    error@,
                    word_slice@,
                ),
            ),
            *final(self) == (CdpRunningValidator { errors: final(self).errors, ..*old(self) }),
    {
        let mem_pos = self.calc_current_word_mem_pos();
        let mut line = String::new();
        push_hex_0x_upper(&mut line, mem_pos);
        line.append(": ");
        line.append(error);
        line.append(" [");
        push_hex_byte_upper(&mut line, word_slice[0]);
        line.append(" ");
        push_hex_byte_upper(&mut line, word_slice[1]);
        line.append(" ");
        push_hex_byte_upper(&mut line, word_slice[2]);
        line.append(" ");
        push_hex_byte_upper(&mut line, word_slice[3]);
        line.append(" ");
        push_hex_byte_upper(&mut line, word_slice[4]);
        line.append(" ");
        push_hex_byte_upper(&mut line, word_slice[5]);
        line.append(" ");
        push_hex_byte_upper(&mut line, word_slice[6]);
        line.append(" ");
        push_hex_byte_upper(&mut line, word_slice[7]);
        line.append(" ");
        push_hex_byte_upper(&mut line, word_slice[8]);
        line.append(" ");
        push_hex_byte_upper(&mut line, word_slice[9]);
        line.append("]");
        proof {
            assert(line@ =~= spec_report_line(
                spec_word_mem_pos(
                    self.payload_mem_pos,
                    self.gbt_word_counter,
                    self.gbt_word_padding_size_bytes,
                ),
                error@,
                word_slice@,
            ));
        }
        let ghost old_dv = self.errors.deep_view();
        self.errors.push(line);
        proof {
            assert(self.errors.deep_view() =~= old_dv.push(line@));
        }
    }
}

/// How one `check` call changes the validator: the word is classified from
/// the state before the call, every reported line is appended in order, the
/// classifier advances, and the slot for the classified kind takes the
/// decoded word.
pub open spec fn spec_check_transition<Version>(
    pre: CdpRunningValidator<Version>,
    post: CdpRunningValidator<Version>,
    w: Seq<u8>,
) -> bool {
    let label = spec_advance(pre.its_state_machine.state, w).0;
    &&& post.errors.deep_view() == pre.errors.deep_view() + spec_check_errs(pre, w)
    &&& post.gbt_word_counter == pre.gbt_word_counter + 1
    &&& post.its_state_machine.state == spec_advance(pre.its_state_machine.state, w).1
    &&& post.running_checks == pre.running_checks
    &&& post.current_rdh == pre.current_rdh
    &&& post.payload_mem_pos == pre.payload_mem_pos
    &&& post.gbt_word_padding_size_bytes == pre.gbt_word_padding_size_bytes
    &&& post.current_ihw == (if label is IHW || label is IHW_continuation {
        Some(Ihw::spec_load(w))
    } else {
        pre.current_ihw
    })
    &&& post.current_tdh == (if label is TDH || label is TDH_continuation
        || label is TDH_after_packet_done {
        Some(Tdh::spec_load(w))
    } else {
        pre.current_tdh
    })
    &&& post.previous_tdh == (if label is TDH || label is TDH_continuation
        || label is TDH_after_packet_done {
        pre.current_tdh
    } else {
        pre.previous_tdh
    })
    &&& post.current_tdt == (if label is TDT {
        Some(Tdt::spec_load(w))
    } else {
        pre.current_tdt
    })
    &&& post.current_ddw0 == (if label is DDW0 {
        Some(Ddw0::spec_load(w))
    } else {
        pre.current_ddw0
    })
    &&& post.previous_cdw == (if (label is CDW || label is DataWord) && pre.is_new_data && w[9]
        == 0xF8 && pre.running_checks {
        Some(Cdw::spec_load(w))
    } else {
        pre.previous_cdw
    })
    &&& post.is_new_data == (if label is CDW || label is DataWord {
        false
    } else {
        pre.is_new_data
    })
}

impl<Version> CdpRunningValidator<Version> {
    /// The preconditions shared by `check` and its helpers: an RDH was set,
    /// the word counter already stands on the current word, and positions
    /// stay in bounds.
    pub open spec fn spec_checking_word(&self) -> bool {
        &&& self.current_rdh is Some
        &&& self.gbt_word_counter >= 1
        &&& self.spec_mem_in_bounds()
    }

    /// The memory position of the word the counter stands on.
    pub open spec fn spec_current_mem_pos(&self) -> nat {
        spec_word_mem_pos(
            self.payload_mem_pos,
            self.gbt_word_counter,
            self.gbt_word_padding_size_bytes,
        )
    }

    /// E12: an initial IHW is only valid while the RDH stop bit is 0.
    fn check_rdh_at_initial_ihw(&mut self, ihw_slice: &[u8])
        requires
            ihw_slice@.len() == 10,
            old(self).spec_checking_word(),
        ensures
            final(self).errors.deep_view() == old(self).errors.deep_view()
                + spec_rdh_at_initial_ihw_errs(
                old(self).running_checks,
                old(self).current_rdh->0,
                ihw_slice@,
                old(self).spec_current_mem_pos(),
            ),
            *final(self) == (CdpRunningValidator { errors: final(self).errors, ..*old(self) }),
    {
        let ghost old_dv = self.errors.deep_view();
        if !self.running_checks {
            proof {
                assert(self.errors.deep_view() =~= old_dv + spec_rdh_at_initial_ihw_errs(
                    self.running_checks,
                    self.current_rdh->0,
                    ihw_slice@,
                    self.spec_current_mem_pos(),
                ));
            }
            return ;
        }
        if self.current_rdh.as_ref().unwrap().stop_bit() != 0 {
            self.report_error("[E12] IHW observed but RDH stop bit is not 0", ihw_slice);
        }
        proof {
            assert(self.errors.deep_view() =~= old_dv + spec_rdh_at_initial_ihw_errs(
                old(self).running_checks,
                old(self).current_rdh->0,
                ihw_slice@,
                old(self).spec_current_mem_pos(),
            ));
        }
    }

    /// E11: a DDW0 is only valid on a stopped page with a non-zero page
    /// counter.
    fn check_rdh_at_ddw0(&mut self, ddw0_slice: &[u8])
        requires
            ddw0_slice@.len() == 10,
            old(self).spec_checking_word(),
        ensures
            final(self).errors.deep_view() == old(self).errors.deep_view()
                + spec_rdh_at_ddw0_errs(
                old(self).running_checks,
                old(self).current_rdh->0,
                ddw0_slice@,
                old(self).spec_current_mem_pos(),
            ),
            *final(self) == (CdpRunningValidator { errors: final(self).errors, ..*old(self) }),
    {
        let ghost old_dv = self.errors.deep_view();
        if !self.running_checks {
            proof {
                assert(self.errors.deep_view() =~= old_dv + spec_rdh_at_ddw0_errs(
                    self.running_checks,
                    self.current_rdh->0,
                    ddw0_slice@,
                    self.spec_current_mem_pos(),
                ));
            }
            return ;
        }
        if self.current_rdh.as_ref().unwrap().stop_bit() != 1 {
            self.report_error("[E11] DDW0 observed but RDH stop bit is not 1", ddw0_slice);
        }
        if self.current_rdh.as_ref().unwrap().pages_counter() == 0 {
            self.report_error("[E11] DDW0 observed but RDH page counter is 0", ddw0_slice);
        }
        proof {
            assert(self.errors.deep_view() =~= old_dv + spec_rdh_at_ddw0_errs(
                old(self).running_checks,
                old(self).current_rdh->0,
                ddw0_slice@,
                old(self).spec_current_mem_pos(),
            ));
        }
    }

    /// E42/E44: a TDH right after an IHW must open a trigger that matches
    /// the RDH.
    fn check_tdh_no_continuation(&mut self, tdh_slice: &[u8])
        requires
            tdh_slice@.len() == 10,
            old(self).spec_checking_word(),
            old(self).current_tdh is Some,
        ensures
            final(self).errors.deep_view() == old(self).errors.deep_view()
                + spec_tdh_no_cont_errs(
                old(self).running_checks,
                old(self).current_rdh->0,
                old(self).current_tdh->0,
                tdh_slice@,
                old(self).spec_current_mem_pos(),
            ),
            *final(self) == (CdpRunningValidator { errors: final(self).errors, ..*old(self) }),
    {
        let ghost old_dv = self.errors.deep_view();
        let ghost expect = spec_tdh_no_cont_errs(
            self.running_checks,
            self.current_rdh->0,
            self.current_tdh->0,
            tdh_slice@,
            self.spec_current_mem_pos(),
        );
        if !self.running_checks {
            proof {
                assert(self.errors.deep_view() =~= old_dv + expect);
            }
            return ;
        }
        let tdh_continuation = self.current_tdh.as_ref().unwrap().continuation();
        let tdh_trigger_orbit = self.current_tdh.as_ref().unwrap().trigger_orbit;
        let tdh_trigger_bc = self.current_tdh.as_ref().unwrap().trigger_bc();
        let tdh_trigger_type = self.current_tdh.as_ref().unwrap().trigger_type();
        let tdh_internal = self.current_tdh.as_ref().unwrap().internal_trigger();
        let rdh_orbit = self.current_rdh.as_ref().unwrap().rdh1.orbit;
        let rdh_bc = self.current_rdh.as_ref().unwrap().rdh1.bc();
        let rdh_trigger = self.current_rdh.as_ref().unwrap().rdh2.trigger_type;
        let rdh_pages = self.current_rdh.as_ref().unwrap().pages_counter();
        let rdh_is_pht = self.current_rdh.as_ref().unwrap().rdh2.is_pht_trigger();
        if tdh_continuation != 0 {
            self.report_error("[E42] TDH continuation is not 0", tdh_slice);
        }
        if tdh_trigger_orbit != rdh_orbit {
            self.report_error("[E44] TDH trigger_orbit is not equal to RDH orbit", tdh_slice);
        }
        if rdh_pages == 0 && (tdh_internal == 1 || rdh_is_pht) {
            if rdh_bc != tdh_trigger_bc {
                let mut m = String::new();
                m.append("[E44] TDH trigger_bc is not equal to RDH bc, TDH: ");
                push_hex_0x_upper(&mut m, tdh_trigger_bc as u64);
                m.append(", RDH: ");
                push_hex_0x_upper(&mut m, rdh_bc as u64);
                m.append(".");
                proof {
                    assert(m@ =~= spec_e44_bc_msg(
                        old(self).current_tdh->0.trigger_bc,
                        old(self).current_rdh->0.rdh1.spec_bc(),
                    ));
                }
                self.report_error(m.as_str(), tdh_slice);
            }
            if (rdh_trigger % 0x1000) as u16 != tdh_trigger_type {
                let mut m = String::new();
                m.append("[E44] TDH trigger_type is not equal to RDH trigger_type, TDH: ");
                push_hex_0x_upper(&mut m, tdh_trigger_type as u64);
                m.append(", RDH: ");
                push_hex_0x_upper(&mut m, (rdh_trigger % 0x1_0000) as u64);
                proof {
                    assert(m@ =~= spec_e44_type_msg(
                        old(self).current_tdh->0.trigger_type,
                        (old(self).current_rdh->0.rdh2.trigger_type % 0x1_0000) as u16,
                    ));
                }
                self.report_error(m.as_str(), tdh_slice);
            }
        }
        proof {
            assert(self.errors.deep_view() =~= old_dv + expect);
        }
    }

    /// E41/E44: a TDH continuing a trigger must repeat its predecessor's
    /// trigger fields.
    fn check_tdh_continuation(&mut self, tdh_slice: &[u8])
        requires
            tdh_slice@.len() == 10,
            old(self).spec_checking_word(),
            old(self).current_tdh is Some,
        ensures
            final(self).errors.deep_view() == old(self).errors.deep_view() + spec_tdh_cont_errs(
                old(self).running_checks,
                old(self).previous_tdh,
                old(self).current_tdh->0,
                tdh_slice@,
                old(self).spec_current_mem_pos(),
            ),
            *final(self) == (CdpRunningValidator { errors: final(self).errors, ..*old(self) }),
    {
        let ghost old_dv = self.errors.deep_view();
        let ghost expect = spec_tdh_cont_errs(
            self.running_checks,
            self.previous_tdh,
            self.current_tdh->0,
            tdh_slice@,
            self.spec_current_mem_pos(),
        );
        if !self.running_checks {
            proof {
                assert(self.errors.deep_view() =~= old_dv + expect);
            }
            return ;
        }
        if self.current_tdh.as_ref().unwrap().continuation() != 1 {
            self.report_error("[E41] TDH continuation is not 1", tdh_slice);
        }
        match self.previous_tdh {
            Some(previous_tdh) => {
                if previous_tdh.trigger_bc != self.current_tdh.as_ref().unwrap().trigger_bc() {
                    self.report_error("[E44] TDH trigger_bc is not the same", tdh_slice);
                }
                if previous_tdh.trigger_orbit != self.current_tdh.as_ref().unwrap().trigger_orbit {
                    self.report_error("[E44] TDH trigger_orbit is not the same", tdh_slice);
                }
                if previous_tdh.trigger_type != self.current_tdh.as_ref().unwrap().trigger_type() {
                    self.report_error("[E44] TDH trigger_type is not the same", tdh_slice);
                }
            },
            None => {},
        }
        proof {
            assert(self.errors.deep_view() =~= old_dv + expect);
        }
    }

    /// E43/E44: after a TDT with packet_done = 1, the next TDH opens a fresh
    /// internal trigger with a non-decreasing bunch crossing.
    fn check_tdh_by_was_tdt_packet_done_true(&mut self, tdh_slice: &[u8])
        requires
            tdh_slice@.len() == 10,
            old(self).spec_checking_word(),
            old(self).current_tdh is Some,
        ensures
            final(self).errors.deep_view() == old(self).errors.deep_view()
                + spec_tdh_after_done_errs(
                old(self).running_checks,
                old(self).previous_tdh,
                old(self).current_tdh->0,
                tdh_slice@,
                old(self).spec_current_mem_pos(),
            ),
            *final(self) == (CdpRunningValidator { errors: final(self).errors, ..*old(self) }),
    {
        let ghost old_dv = self.errors.deep_view();
        let ghost expect = spec_tdh_after_done_errs(
            self.running_checks,
            self.previous_tdh,
            self.current_tdh->0,
            tdh_slice@,
            self.spec_current_mem_pos(),
        );
        if !self.running_checks {
            proof {
                assert(self.errors.deep_view() =~= old_dv + expect);
            }
            return ;
        }
        if self.current_tdh.as_ref().unwrap().internal_trigger() != 1 {
            self.report_error("[E43] TDH internal trigger is not 1", tdh_slice);
        }
        match self.previous_tdh {
            Some(previous_tdh) => {
                let current_bc = self.current_tdh.as_ref().unwrap().trigger_bc();
                if previous_tdh.trigger_bc > current_bc {
                    let mut m = String::new();
                    m.append("[E44] TDH trigger_bc is not increasing, previous: ");
                    push_hex_0x_upper(&mut m, previous_tdh.trigger_bc as u64);
                    m.append(", current: ");
                    push_hex_0x_upper(&mut m, current_bc as u64);
                    m.append(".");
                    proof {
                        assert(m@ =~= spec_e44_increasing_msg(
                            old(self).previous_tdh->0.trigger_bc,
                            old(self).current_tdh->0.trigger_bc,
                        ));
                    }
                    self.report_error(m.as_str(), tdh_slice);
                }
            },
            None => {},
        }
        proof {
            assert(self.errors.deep_view() =~= old_dv + expect);
        }
    }

    /// E72: an inner-barrel data word's lane must be active in the current
    /// IHW. Without an IHW there is nothing to compare against.
    fn process_ib_data_word(&mut self, ib_slice: &[u8])
        requires
            ib_slice@.len() == 10,
            old(self).spec_checking_word(),
        ensures
            final(self).errors.deep_view() == old(self).errors.deep_view() + spec_ib_errs(
                old(self).running_checks,
                old(self).current_ihw,
                ib_slice@,
                old(self).spec_current_mem_pos(),
            ),
            *final(self) == (CdpRunningValidator { errors: final(self).errors, ..*old(self) }),
    {
        let ghost old_dv = self.errors.deep_view();
        let ghost expect = spec_ib_errs(
            self.running_checks,
            self.current_ihw,
            ib_slice@,
            self.spec_current_mem_pos(),
        );
        if !self.running_checks {
            proof {
                assert(self.errors.deep_view() =~= old_dv + expect);
            }
            return ;
        }
        match self.current_ihw {
            Some(ihw) => {
                let lane_id = crate::words::data_words::ib_data_word_id_to_lane(ib_slice[9]);
                let active_lanes = ihw.active_lanes;
                if !crate::words::status_words::is_lane_active(lane_id, active_lanes) {
                    let mut m = String::new();
                    m.append("[E72] IB lane ");
                    push_dec(&mut m, lane_id as u64);
                    m.append(" is not active according to IHW active_lanes: ");
                    push_hex_0x_upper(&mut m, active_lanes as u64);
                    m.append(".");
                    proof {
                        assert(m@ =~= spec_e72_msg(
                            spec_ib_data_word_id_to_lane(ib_slice@[9]),
                            old(self).current_ihw->0.active_lanes,
                        ));
                    }
                    self.report_error(m.as_str(), ib_slice);
                }
            },
            None => {},
        }
        proof {
            assert(self.errors.deep_view() =~= old_dv + expect);
        }
    }

    /// E71/E73: an outer-barrel data word's lane must be active in the
    /// current IHW and its input connector at most 6.
    fn process_ob_data_word(&mut self, ob_slice: &[u8])
        requires
            ob_slice@.len() == 10,
            old(self).spec_checking_word(),
        ensures
            final(self).errors.deep_view() == old(self).errors.deep_view() + spec_ob_errs(
                old(self).running_checks,
                old(self).current_ihw,
                ob_slice@,
                old(self).spec_current_mem_pos(),
            ),
            *final(self) == (CdpRunningValidator { errors: final(self).errors, ..*old(self) }),
    {
        let ghost old_dv = self.errors.deep_view();
        let ghost expect = spec_ob_errs(
            self.running_checks,
            self.current_ihw,
            ob_slice@,
            self.spec_current_mem_pos(),
        );
        if !self.running_checks {
            proof {
                assert(self.errors.deep_view() =~= old_dv + expect);
            }
            return ;
        }
        match self.current_ihw {
            Some(ihw) => {
                let lane_id = crate::words::data_words::ob_data_word_id_to_lane(ob_slice[9]);
                let active_lanes = ihw.active_lanes;
                if !crate::words::status_words::is_lane_active(lane_id, active_lanes) {
                    let mut m = String::new();
                    m.append("[E71] OB lane ");
                    push_dec(&mut m, lane_id as u64);
                    m.append(" is not active according to IHW active_lanes: ");
                    push_hex_0x_upper(&mut m, active_lanes as u64);
                    m.append(".");
                    proof {
                        assert(m@ =~= spec_e71_msg(
                            spec_ob_data_word_id_to_lane(ob_slice@[9]),
                            old(self).current_ihw->0.active_lanes,
                        ));
                    }
                    self.report_error(m.as_str(), ob_slice);
                }
            },
            None => {},
        }
        let input_number_connector =
            crate::words::data_words::ob_data_word_id_to_input_number_connector(ob_slice[9]);
        if input_number_connector > 6 {
            let mut m = String::new();
            m.append("[E73] OB Data Word has input connector ");
            push_dec(&mut m, input_number_connector as u64);
            m.append(" > 6.");
            proof {
                assert(m@ =~= spec_e73_msg(
                    spec_ob_data_word_id_to_input_number_connector(ob_slice@[9]),
                ));
            }
            self.report_error(m.as_str(), ob_slice);
        }
        proof {
            assert(self.errors.deep_view() =~= old_dv + expect);
        }
    }

    /// E81: a CDW whose user fields differ from the previous CDW's must
    /// restart its word index at 0. Remembers the CDW for the next payload.
    fn process_cdw(&mut self, cdw_slice: &[u8])
        requires
            cdw_slice@.len() == 10,
            old(self).spec_checking_word(),
        ensures
            final(self).errors.deep_view() == old(self).errors.deep_view() + spec_cdw_errs(
                old(self).running_checks,
                old(self).previous_cdw,
                cdw_slice@,
                old(self).spec_current_mem_pos(),
            ),
            final(self).previous_cdw == (if old(self).running_checks {
                Some(Cdw::spec_load(cdw_slice@))
            } else {
                old(self).previous_cdw
            }),
            *final(self) == (CdpRunningValidator {
                errors: final(self).errors,
                previous_cdw: final(self).previous_cdw,
                ..*old(self)
            }),
    {
        let ghost old_dv = self.errors.deep_view();
        let ghost expect = spec_cdw_errs(
            self.running_checks,
            self.previous_cdw,
            cdw_slice@,
            self.spec_current_mem_pos(),
        );
        if !self.running_checks {
            proof {
                assert(self.errors.deep_view() =~= old_dv + expect);
            }
            return ;
        }
        let cdw = Cdw::load(cdw_slice);
        match self.previous_cdw {
            Some(previous_cdw) => {
                if previous_cdw.calibration_user_fields() != cdw.calibration_user_fields()
                    && cdw.calibration_word_index() != 0 {
                    self.report_error("[E81] CDW index is not 0", cdw_slice);
                }
            },
            None => {},
        }
        self.previous_cdw = Some(cdw);
        proof {
            assert(self.errors.deep_view() =~= old_dv + expect);
        }
    }

    /// A word classified as CDW or data word: a CDW opening a new payload is
    /// checked as a CDW, anything else as a data word (E70 identifier
    /// sanity, then the lane rules). Clears the new-payload flag.
    fn process_data_word(&mut self, data_word_slice: &[u8])
        requires
            data_word_slice@.len() == 10,
            old(self).spec_checking_word(),
        ensures
            final(self).errors.deep_view() == old(self).errors.deep_view() + spec_data_word_errs(
                old(self).running_checks,
                old(self).is_new_data,
                old(self).previous_cdw,
                old(self).current_ihw,
                data_word_slice@,
                old(self).spec_current_mem_pos(),
            ),
            final(self).previous_cdw == (if old(self).is_new_data && data_word_slice@[9] == 0xF8
                && old(self).running_checks {
                Some(Cdw::spec_load(data_word_slice@))
            } else {
                old(self).previous_cdw
            }),
            final(self).is_new_data == false,
            *final(self) == (CdpRunningValidator {
                errors: final(self).errors,
                previous_cdw: final(self).previous_cdw,
                is_new_data: false,
                ..*old(self)
            }),
    {
        let ghost old_dv = self.errors.deep_view();
        let ghost expect = spec_data_word_errs(
            self.running_checks,
            self.is_new_data,
            self.previous_cdw,
            self.current_ihw,
            data_word_slice@,
            self.spec_current_mem_pos(),
        );
        if self.is_new_data && data_word_slice[9] == 0xF8 {
            self.process_cdw(data_word_slice);
        } else {
            match crate::validators::data_words::check_any(data_word_slice) {
                Ok(_) => {},
                Err(e) => {
                    let mut m = String::new();
                    m.append("[E70] ");
                    m.append(e.as_str());
                    proof {
                        assert(m@ =~= "[E70] "@
                            + crate::validators::data_words::spec_invalid_data_word_msg(
                            data_word_slice@[9],
                        ));
                    }
                    self.report_error(m.as_str(), data_word_slice);
                },
            }
            let id = data_word_slice[9];
            if id / 0x20 == 1 {
                self.process_ib_data_word(data_word_slice);
            } else if id / 0x20 == 2 {
                self.process_ob_data_word(data_word_slice);
            }
        }
        self.is_new_data = false;
        proof {
            assert(self.errors.deep_view() =~= old_dv + expect);
        }
    }

    /// Handle one classified status word: decode it, run its sanity check,
    /// report the finding, and keep the decoded word in its slot. For a
    /// DDW0 the RDH coherence rules run too.
    fn process_status_word(&mut self, status_word: StatusWordKind<'_>)
        requires
            old(self).spec_checking_word(),
            (status_word matches StatusWordKind::Ihw(s) ==> s@.len() == 10),
            (status_word matches StatusWordKind::Tdh(s) ==> s@.len() == 10),
            (status_word matches StatusWordKind::Tdt(s) ==> s@.len() == 10),
            (status_word matches StatusWordKind::Ddw0(s) ==> s@.len() == 10),
        ensures
            (status_word matches StatusWordKind::Ihw(s) ==> final(self).errors.deep_view()
                == old(self).errors.deep_view() + spec_ihw_errs(
                s@,
                old(self).spec_current_mem_pos(),
            ) && final(self).current_ihw == Some(Ihw::spec_load(s@)) && *final(self) == (
            CdpRunningValidator {
                errors: final(self).errors,
                current_ihw: final(self).current_ihw,
                ..*old(self)
            })),
            (status_word matches StatusWordKind::Tdh(s) ==> final(self).errors.deep_view()
                == old(self).errors.deep_view() + spec_tdh_errs(
                s@,
                old(self).spec_current_mem_pos(),
            ) && final(self).current_tdh == Some(Tdh::spec_load(s@)) && final(self).previous_tdh
                == old(self).current_tdh && *final(self) == (CdpRunningValidator {
                errors: final(self).errors,
                current_tdh: final(self).current_tdh,
                previous_tdh: final(self).previous_tdh,
                ..*old(self)
            })),
            (status_word matches StatusWordKind::Tdt(s) ==> final(self).errors.deep_view()
                == old(self).errors.deep_view() + spec_tdt_errs(
                s@,
                old(self).spec_current_mem_pos(),
            ) && final(self).current_tdt == Some(Tdt::spec_load(s@)) && *final(self) == (
            CdpRunningValidator {
                errors: final(self).errors,
                current_tdt: final(self).current_tdt,
                ..*old(self)
            })),
            (status_word matches StatusWordKind::Ddw0(s) ==> final(self).errors.deep_view()
                == old(self).errors.deep_view() + spec_ddw0_sanity_errs(
                s@,
                old(self).spec_current_mem_pos(),
            ) + spec_rdh_at_ddw0_errs(
                old(self).running_checks,
                old(self).current_rdh->0,
                s@,
                old(self).spec_current_mem_pos(),
            ) && final(self).current_ddw0 == Some(Ddw0::spec_load(s@)) && *final(self) == (
            CdpRunningValidator {
                errors: final(self).errors,
                current_ddw0: final(self).current_ddw0,
                ..*old(self)
            })),
    {
        let ghost old_dv = self.errors.deep_view();
        match status_word {
            StatusWordKind::Ihw(ihw_as_slice) => {
                let ihw = Ihw::load(ihw_as_slice);
                match sanity_check_ihw(&ihw) {
                    Ok(_) => {},
                    Err(e) => {
                        let mut m = String::new();
                        m.append("[E30] ");
                        m.append(e.as_str());
                        proof {
                            assert(m@ =~= "[E30] "@ + spec_ihw_sanity_msg(
                                Ihw::spec_load(ihw_as_slice@),
                            ));
                        }
                        self.report_error(m.as_str(), ihw_as_slice);
                    },
                }
                self.current_ihw = Some(ihw);
                proof {
                    assert(self.errors.deep_view() =~= old_dv + spec_ihw_errs(
                        ihw_as_slice@,
                        old(self).spec_current_mem_pos(),
                    ));
                }
            },
            StatusWordKind::Tdh(tdh_as_slice) => {
                let tdh = Tdh::load(tdh_as_slice);
                match sanity_check_tdh(&tdh) {
                    Ok(_) => {},
                    Err(e) => {
                        let mut m = String::new();
                        m.append("[E40] ");
                        m.append(e.as_str());
                        proof {
                            assert(m@ =~= "[E40] "@ + spec_tdh_sanity_msg(
                                Tdh::spec_load(tdh_as_slice@),
                            ));
                        }
                        self.report_error(m.as_str(), tdh_as_slice);
                    },
                }
                self.previous_tdh = self.current_tdh;
                self.current_tdh = Some(tdh);
                proof {
                    assert(self.errors.deep_view() =~= old_dv + spec_tdh_errs(
                        tdh_as_slice@,
                        old(self).spec_current_mem_pos(),
                    ));
                }
            },
            StatusWordKind::Tdt(tdt_as_slice) => {
                let tdt = Tdt::load(tdt_as_slice);
                match sanity_check_tdt(&tdt) {
                    Ok(_) => {},
                    Err(e) => {
                        let mut m = String::new();
                        m.append("[E50] ");
                        m.append(e.as_str());
                        proof {
                            assert(m@ =~= "[E50] "@ + spec_tdt_sanity_msg(
                                Tdt::spec_load(tdt_as_slice@),
                            ));
                        }
                        self.report_error(m.as_str(), tdt_as_slice);
                    },
                }
                self.current_tdt = Some(tdt);
                proof {
                    assert(self.errors.deep_view() =~= old_dv + spec_tdt_errs(
                        tdt_as_slice@,
                        old(self).spec_current_mem_pos(),
                    ));
                }
            },
            StatusWordKind::Ddw0(ddw0_as_slice) => {
                let ddw0 = Ddw0::load(ddw0_as_slice);
                match sanity_check_ddw0(&ddw0) {
                    Ok(_) => {},
                    Err(e) => {
                        let mut m = String::new();
                        m.append("[E60] ");
                        m.append(e.as_str());
                        proof {
                            assert(m@ =~= "[E60] "@ + spec_ddw0_sanity_msg(
                                Ddw0::spec_load(ddw0_as_slice@),
                            ));
                        }
                        self.report_error(m.as_str(), ddw0_as_slice);
                    },
                }
                self.check_rdh_at_ddw0(ddw0_as_slice);
                self.current_ddw0 = Some(ddw0);
                proof {
                    assert(self.errors.deep_view() =~= old_dv + spec_ddw0_sanity_errs(
                        ddw0_as_slice@,
                        old(self).spec_current_mem_pos(),
                    ) + spec_rdh_at_ddw0_errs(
                        old(self).running_checks,
                        old(self).current_rdh->0,
                        ddw0_as_slice@,
                        old(self).spec_current_mem_pos(),
                    ));
                }
            },
        }
    }

    /// Check one GBT word: advance the word counter, classify the word from
    /// the state so far, run its sanity check, and apply the cross-word
    /// rules of its classification. Every finding is appended to `errors`.
    #[verifier::rlimit(100)]
    #[verifier::spinoff_prover]
    pub fn check(&mut self, gbt_word: &[u8])
        requires
            gbt_word@.len() == 10,
            old(self).current_rdh is Some,
            old(self).gbt_word_counter < 0xffff,
            old(self).spec_mem_in_bounds(),
        ensures
            spec_check_transition(*old(self), *final(self), gbt_word@),
    {
        self.gbt_word_counter = self.gbt_word_counter + 1;
        let current_word = self.its_state_machine.advance(gbt_word);
        let ghost pre = *old(self);
        match current_word {
            PayloadWord::IHW => {
                self.process_status_word(StatusWordKind::Ihw(gbt_word));
                self.check_rdh_at_initial_ihw(gbt_word);
            },
            PayloadWord::IHW_continuation => {
                self.process_status_word(StatusWordKind::Ihw(gbt_word));
            },
            PayloadWord::TDH => {
                self.process_status_word(StatusWordKind::Tdh(gbt_word));
                self.check_tdh_no_continuation(gbt_word);
            },
            PayloadWord::TDH_continuation => {
                self.process_status_word(StatusWordKind::Tdh(gbt_word));
                self.check_tdh_continuation(gbt_word);
            },
            PayloadWord::TDH_after_packet_done => {
                self.process_status_word(StatusWordKind::Tdh(gbt_word));
                self.check_tdh_by_was_tdt_packet_done_true(gbt_word);
            },
            PayloadWord::TDT => {
                self.process_status_word(StatusWordKind::Tdt(gbt_word));
            },
            PayloadWord::CDW | PayloadWord::DataWord => {
                self.process_data_word(gbt_word);
            },
            PayloadWord::DDW0 => {
                self.process_status_word(StatusWordKind::Ddw0(gbt_word));
            },
        }
        proof {
            assert(self.errors.deep_view() =~= pre.errors.deep_view() + spec_check_errs(
                pre,
                gbt_word@,
            ));
        }
    }
}

/// The kinds of status word the running validator distinguishes, each
/// wrapping the raw 10-byte slice.
pub enum StatusWordKind<'a> {
    Ihw(&'a [u8]),
    Tdh(&'a [u8]),
    Tdt(&'a [u8]),
    Ddw0(&'a [u8]),
}

/// The reported lines for an IHW's sanity check: one E30 line, or none.
pub open spec fn spec_ihw_errs(w: Seq<u8>, mem: nat) -> Seq<Seq<char>> {
    if !spec_ihw_sane(Ihw::spec_load(w)) {
        seq![spec_report_line(mem, "[E30] "@ + spec_ihw_sanity_msg(Ihw::spec_load(w)), w)]
    } else {
        Seq::empty()
    }
}

/// The reported lines for a TDH's sanity check: one E40 line, or none.
pub open spec fn spec_tdh_errs(w: Seq<u8>, mem: nat) -> Seq<Seq<char>> {
    if !spec_tdh_sane(Tdh::spec_load(w)) {
        seq![spec_report_line(mem, "[E40] "@ + spec_tdh_sanity_msg(Tdh::spec_load(w)), w)]
    } else {
        Seq::empty()
    }
}

/// The reported lines for a TDT's sanity check: one E50 line, or none.
pub open spec fn spec_tdt_errs(w: Seq<u8>, mem: nat) -> Seq<Seq<char>> {
    if !spec_tdt_sane(Tdt::spec_load(w)) {
        seq![spec_report_line(mem, "[E50] "@ + spec_tdt_sanity_msg(Tdt::spec_load(w)), w)]
    } else {
        Seq::empty()
    }
}

/// The reported lines for a DDW0's sanity check: one E60 line, or none.
pub open spec fn spec_ddw0_sanity_errs(w: Seq<u8>, mem: nat) -> Seq<Seq<char>> {
    if !spec_ddw0_sane(Ddw0::spec_load(w)) {
        seq![spec_report_line(mem, "[E60] "@ + spec_ddw0_sanity_msg(Ddw0::spec_load(w)), w)]
    } else {
        Seq::empty()
    }
}

/// E12: an initial IHW demands RDH stop bit 0. At most one line.
pub open spec fn spec_rdh_at_initial_ihw_errs<Version>(
    running: bool,
    rdh: RdhCRU<Version>,
    w: Seq<u8>,
    mem: nat,
) -> Seq<Seq<char>> {
    if running && rdh.rdh2.stop_bit != 0 {
        seq![spec_report_line(mem, "[E12] IHW observed but RDH stop bit is not 0"@, w)]
    } else {
        Seq::empty()
    }
}

/// E11: a DDW0 demands RDH stop bit 1 and a non-zero page counter. At most
/// one line per rule.
pub open spec fn spec_rdh_at_ddw0_errs<Version>(
    running: bool,
    rdh: RdhCRU<Version>,
    w: Seq<u8>,
    mem: nat,
) -> Seq<Seq<char>> {
    (if running && rdh.rdh2.stop_bit != 1 {
        seq![spec_report_line(mem, "[E11] DDW0 observed but RDH stop bit is not 1"@, w)]
    } else {
        Seq::empty()
    }) + (if running && rdh.rdh2.pages_counter == 0 {
        seq![spec_report_line(mem, "[E11] DDW0 observed but RDH page counter is 0"@, w)]
    } else {
        Seq::empty()
    })
}

/// The E44 message comparing a TDH's bunch crossing with the RDH's.
pub open spec fn spec_e44_bc_msg(tdh_bc: u16, rdh_bc: u16) -> Seq<char> {
    "[E44] TDH trigger_bc is not equal to RDH bc, TDH: "@ + hex_0x_upper(tdh_bc as nat)
        + ", RDH: "@ + hex_0x_upper(rdh_bc as nat) + "."@
}

/// The E44 message comparing a TDH's trigger type with the RDH's low 16
/// bits.
pub open spec fn spec_e44_type_msg(tdh_type: u16, rdh_type16: u16) -> Seq<char> {
    "[E44] TDH trigger_type is not equal to RDH trigger_type, TDH: "@ + hex_0x_upper(
        tdh_type as nat,
    ) + ", RDH: "@ + hex_0x_upper(rdh_type16 as nat)
}

/// The E44 message for a bunch crossing that went backwards.
pub open spec fn spec_e44_increasing_msg(prev_bc: u16, cur_bc: u16) -> Seq<char> {
    "[E44] TDH trigger_bc is not increasing, previous: "@ + hex_0x_upper(prev_bc as nat)
        + ", current: "@ + hex_0x_upper(cur_bc as nat) + "."@
}

/// E42/E44: rules for a TDH right after an IHW. At most one line per rule.
pub open spec fn spec_tdh_no_cont_errs<Version>(
    running: bool,
    rdh: RdhCRU<Version>,
    tdh: Tdh,
    w: Seq<u8>,
    mem: nat,
) -> Seq<Seq<char>> {
    if !running {
        Seq::empty()
    } else {
        (if tdh.continuation != 0 {
            seq![spec_report_line(mem, "[E42] TDH continuation is not 0"@, w)]
        } else {
            Seq::empty()
        }) + (if tdh.trigger_orbit != rdh.rdh1.orbit {
            seq![spec_report_line(mem, "[E44] TDH trigger_orbit is not equal to RDH orbit"@, w)]
        } else {
            Seq::empty()
        }) + (if rdh.rdh2.pages_counter == 0 && (tdh.internal_trigger == 1
            || rdh.rdh2.spec_is_pht_trigger()) {
            (if rdh.rdh1.spec_bc() != tdh.trigger_bc {
                seq![
                    spec_report_line(
                        mem,
                        spec_e44_bc_msg(tdh.trigger_bc, rdh.rdh1.spec_bc()),
                        w,
                    ),
                ]
            } else {
                Seq::empty()
            }) + (if rdh.rdh2.trigger_type % 0x1000 != tdh.trigger_type {
                seq![
                    spec_report_line(
                        mem,
                        spec_e44_type_msg(
                            tdh.trigger_type,
                            (rdh.rdh2.trigger_type % 0x1_0000) as u16,
                        ),
                        w,
                    ),
                ]
            } else {
                Seq::empty()
            })
        } else {
            Seq::empty()
        })
    }
}

/// E41/E44: rules for a TDH continuing a trigger. At most one line per rule.
pub open spec fn spec_tdh_cont_errs(
    running: bool,
    prev_tdh: Option<Tdh>,
    tdh: Tdh,
    w: Seq<u8>,
    mem: nat,
) -> Seq<Seq<char>> {
    if !running {
        Seq::empty()
    } else {
        (if tdh.continuation != 1 {
            seq![spec_report_line(mem, "[E41] TDH continuation is not 1"@, w)]
        } else {
            Seq::empty()
        }) + (match prev_tdh {
            Some(p) => (if p.trigger_bc != tdh.trigger_bc {
                seq![spec_report_line(mem, "[E44] TDH trigger_bc is not the same"@, w)]
            } else {
                Seq::empty()
            }) + (if p.trigger_orbit != tdh.trigger_orbit {
                seq![spec_report_line(mem, "[E44] TDH trigger_orbit is not the same"@, w)]
            } else {
                Seq::empty()
            }) + (if p.trigger_type != tdh.trigger_type {
                seq![spec_report_line(mem, "[E44] TDH trigger_type is not the same"@, w)]
            } else {
                Seq::empty()
            }),
            None => Seq::empty(),
        })
    }
}

/// E43/E44: rules for a TDH after a TDT with packet_done = 1. At most one
/// line per rule.
pub open spec fn spec_tdh_after_done_errs(
    running: bool,
    prev_tdh: Option<Tdh>,
    tdh: Tdh,
    w: Seq<u8>,
    mem: nat,
) -> Seq<Seq<char>> {
    if !running {
        Seq::empty()
    } else {
        (if tdh.internal_trigger != 1 {
            seq![spec_report_line(mem, "[E43] TDH internal trigger is not 1"@, w)]
        } else {
            Seq::empty()
        }) + (match prev_tdh {
            Some(p) => if p.trigger_bc > tdh.trigger_bc {
                seq![spec_report_line(mem, spec_e44_increasing_msg(p.trigger_bc, tdh.trigger_bc), w)]
            } else {
                Seq::empty()
            },
            None => Seq::empty(),
        })
    }
}

/// The E72 message naming an inactive inner-barrel lane.
pub open spec fn spec_e72_msg(lane: u8, active_lanes: u32) -> Seq<char> {
    "[E72] IB lane "@ + dec_digits(lane as nat)
        + " is not active according to IHW active_lanes: "@ + hex_0x_upper(active_lanes as nat)
        + "."@
}

/// The E71 message naming an inactive outer-barrel lane.
pub open spec fn spec_e71_msg(lane: u8, active_lanes: u32) -> Seq<char> {
    "[E71] OB lane "@ + dec_digits(lane as nat)
        + " is not active according to IHW active_lanes: "@ + hex_0x_upper(active_lanes as nat)
        + "."@
}

/// The E73 message naming an out-of-range input connector.
pub open spec fn spec_e73_msg(connector: u8) -> Seq<char> {
    "[E73] OB Data Word has input connector "@ + dec_digits(connector as nat) + " > 6."@
}

/// E72: an inner-barrel lane must be active in the current IHW. The check
/// needs an IHW to compare against. At most one line.
pub open spec fn spec_ib_errs(
    running: bool,
    ihw: Option<Ihw>,
    w: Seq<u8>,
    mem: nat,
) -> Seq<Seq<char>> {
    match ihw {
        Some(i) => if running && !spec_is_lane_active(
            spec_ib_data_word_id_to_lane(w[9]),
            i.active_lanes,
        ) {
            seq![
                spec_report_line(mem, spec_e72_msg(spec_ib_data_word_id_to_lane(w[9]), i.active_lanes), w),
            ]
        } else {
            Seq::empty()
        },
        None => Seq::empty(),
    }
}

/// E71/E73: an outer-barrel lane must be active and its input connector at
/// most 6. At most one line per rule.
pub open spec fn spec_ob_errs(
    running: bool,
    ihw: Option<Ihw>,
    w: Seq<u8>,
    mem: nat,
) -> Seq<Seq<char>> {
    (match ihw {
        Some(i) => if running && !spec_is_lane_active(
            spec_ob_data_word_id_to_lane(w[9]),
            i.active_lanes,
        ) {
            seq![
                spec_report_line(mem, spec_e71_msg(spec_ob_data_word_id_to_lane(w[9]), i.active_lanes), w),
            ]
        } else {
            Seq::empty()
        },
        None => Seq::empty(),
    }) + (if running && spec_ob_data_word_id_to_input_number_connector(w[9]) > 6 {
        seq![
            spec_report_line(
                mem,
                spec_e73_msg(spec_ob_data_word_id_to_input_number_connector(w[9])),
                w,
            ),
        ]
    } else {
        Seq::empty()
    })
}

/// E81: within a calibration sequence whose user fields changed, the word
/// index must restart at 0. At most one line.
pub open spec fn spec_cdw_errs(
    running: bool,
    prev_cdw: Option<Cdw>,
    w: Seq<u8>,
    mem: nat,
) -> Seq<Seq<char>> {
    match prev_cdw {
        Some(p) => if running && p.calibration_user_fields != Cdw::spec_load(
            w,
        ).calibration_user_fields && Cdw::spec_load(w).calibration_word_index != 0 {
            seq![spec_report_line(mem, "[E81] CDW index is not 0"@, w)]
        } else {
            Seq::empty()
        },
        None => Seq::empty(),
    }
}

/// The lines for a word classified as CDW or data word: a CDW at the start
/// of a new payload follows the calibration rule; anything else is checked
/// as a data word (E70 identifier sanity, then the lane rules).
pub open spec fn spec_data_word_errs(
    running: bool,
    is_new_data: bool,
    prev_cdw: Option<Cdw>,
    ihw: Option<Ihw>,
    w: Seq<u8>,
    mem: nat,
) -> Seq<Seq<char>> {
    if is_new_data && w[9] == 0xF8 {
        spec_cdw_errs(running, prev_cdw, w, mem)
    } else {
        (if !spec_is_data_word_id(w[9]) {
            seq![
                spec_report_line(
                    mem,
                    "[E70] "@ + crate::validators::data_words::spec_invalid_data_word_msg(w[9]),
                    w,
                ),
            ]
        } else {
            Seq::empty()
        }) + (if spec_is_ib_data_word_id(w[9]) {
            spec_ib_errs(running, ihw, w, mem)
        } else if spec_is_ob_data_word_id(w[9]) {
            spec_ob_errs(running, ihw, w, mem)
        } else {
            Seq::empty()
        })
    }
}

/// Every line that one `check` call reports, as a function of the
/// validator's state before the call and the word alone.
pub open spec fn spec_check_errs<Version>(
    v: CdpRunningValidator<Version>,
    w: Seq<u8>,
) -> Seq<Seq<char>>
    recommends
        v.current_rdh is Some,
        w.len() == 10,
{
    let mem = spec_word_mem_pos(
        v.payload_mem_pos,
        (v.gbt_word_counter + 1) as u16,
        v.gbt_word_padding_size_bytes,
    );
    let rdh = v.current_rdh->0;
    match spec_advance(v.its_state_machine.state, w).0 {
        PayloadWord::IHW => spec_ihw_errs(w, mem) + spec_rdh_at_initial_ihw_errs(
            v.running_checks,
            rdh,
            w,
            mem,
        ),
        PayloadWord::IHW_continuation => spec_ihw_errs(w, mem),
        PayloadWord::TDH => spec_tdh_errs(w, mem) + spec_tdh_no_cont_errs(
            v.running_checks,
            rdh,
            Tdh::spec_load(w),
            w,
            mem,
        ),
        PayloadWord::TDH_continuation => spec_tdh_errs(w, mem) + spec_tdh_cont_errs(
            v.running_checks,
            v.current_tdh,
            Tdh::spec_load(w),
            w,
            mem,
        ),
        PayloadWord::TDH_after_packet_done => spec_tdh_errs(w, mem) + spec_tdh_after_done_errs(
            v.running_checks,
            v.current_tdh,
            Tdh::spec_load(w),
            w,
            mem,
        ),
        PayloadWord::TDT => spec_tdt_errs(w, mem),
        PayloadWord::DDW0 => spec_ddw0_sanity_errs(w, mem) + spec_rdh_at_ddw0_errs(
            v.running_checks,
            rdh,
            w,
            mem,
        ),
        PayloadWord::CDW | PayloadWord::DataWord => spec_data_word_errs(
            v.running_checks,
            v.is_new_data,
            v.previous_cdw,
            v.current_ihw,
            w,
            mem,
        ),
    }
}

impl<Version> Default for CdpRunningValidator<Version> {
    /// A validator with the cross-word rules off.
    fn default() -> (r: CdpRunningValidator<Version>)
        ensures
            r.running_checks == false,
            r.its_state_machine.state == FsmState::Initial,
            r.current_rdh is None,
            r.current_ihw is None,
            r.current_tdh is None,
            r.previous_tdh is None,
            r.current_tdt is None,
            r.current_ddw0 is None,
            r.previous_cdw is None,
            r.gbt_word_counter == 0,
            r.errors@ == Seq::<String>::empty(),
            r.payload_mem_pos == 0,
            r.gbt_word_padding_size_bytes == 0,
            r.is_new_data == false,
    {
        CdpRunningValidator::new(false)
    }
}

/// Memory positions reported for the words of one payload: the i-th word
/// (counted from 1) stands exactly at
/// `rdh_mem_pos + 64 + (i - 1) * stride(data_format)`.
pub proof fn lemma_word_mem_pos_formula(rdh_mem_pos: u64, data_format: u8, padding: u8, i: u16)
    requires
        i >= 1,
        padding == (if data_format == 0 { 6u8 } else { 0u8 }),
        rdh_mem_pos + 64 <= u64::MAX,
    ensures
        spec_word_mem_pos((rdh_mem_pos + 64) as u64, i, padding) == rdh_mem_pos + 64 + (i - 1)
            * crate::words::data_words::spec_stride(data_format),
{
}

/// Memory positions strictly increase across the words of one payload.
pub proof fn lemma_word_mem_pos_strictly_increasing(
    payload_mem_pos: u64,
    padding: u8,
    i: u16,
    j: u16,
)
    requires
        1 <= i < j,
        payload_mem_pos + 0x10_0000 <= u64::MAX,
        padding <= 6,
    ensures
        spec_word_mem_pos(payload_mem_pos, i, padding) < spec_word_mem_pos(
            payload_mem_pos,
            j,
            padding,
        ),
{
    assert((i - 1) * (10 + padding) < (j - 1) * (10 + padding)) by (nonlinear_arith)
        requires
            1 <= i < j,
            padding >= 0,
    ;
    assert((j - 1) * (10 + padding) <= 0xfffe * 16) by (nonlinear_arith)
        requires
            j <= 0xffff,
            padding <= 6,
    ;
}

/// Beyond the sanity checks, each cross-word rule reports at most one line
/// per word: every summand of the rule specifications is a conditional
/// singleton, so no rule can report twice for the same word. The sanity
/// checks report at most one line per word too.
pub proof fn lemma_at_most_one_violation_per_rule<Version>(
    running: bool,
    rdh: RdhCRU<Version>,
    prev_tdh: Option<Tdh>,
    prev_cdw: Option<Cdw>,
    ihw: Option<Ihw>,
    tdh: Tdh,
    w: Seq<u8>,
    mem: nat,
)
    ensures
        spec_ihw_errs(w, mem).len() <= 1,
        spec_tdh_errs(w, mem).len() <= 1,
        spec_tdt_errs(w, mem).len() <= 1,
        spec_ddw0_sanity_errs(w, mem).len() <= 1,
        spec_rdh_at_initial_ihw_errs(running, rdh, w, mem).len() <= 1,
        spec_rdh_at_ddw0_errs(running, rdh, w, mem).len() <= 2,
        spec_tdh_no_cont_errs(running, rdh, tdh, w, mem).len() <= 4,
        spec_tdh_cont_errs(running, prev_tdh, tdh, w, mem).len() <= 4,
        spec_tdh_after_done_errs(running, prev_tdh, tdh, w, mem).len() <= 2,
        spec_ib_errs(running, ihw, w, mem).len() <= 1,
        spec_ob_errs(running, ihw, w, mem).len() <= 2,
        spec_cdw_errs(running, prev_cdw, w, mem).len() <= 1,
{
}

} // verus!
