//! The payload state machine: a deterministic classifier that labels each
//! 10-byte GBT word by its position in the packet and the history of trigger
//! and termination words.

use vstd::prelude::*;

use crate::words::data_words::spec_is_data_word_id;
use crate::words::status_words::{cdw_id, ddw0_id, ihw_id, tdt_id};

verus! {

/// The label the state machine gives to one payload word.
#[allow(non_camel_case_types)]
#[derive(Clone, Copy, Debug, PartialEq, Eq, Structural)]
pub enum PayloadWord {
    /// The initial header word of a half-bunch frame.
    IHW,
    /// An IHW opening a continuation page.
    IHW_continuation,
    /// The TDH right after an IHW.
    TDH,
    /// A TDH continuing a trigger whose TDT had packet_done = 0.
    TDH_continuation,
    /// A TDH opening a fresh trigger after a TDT with packet_done = 1.
    TDH_after_packet_done,
    /// A trigger data terminator.
    TDT,
    /// The diagnostic word closing a half-bunch frame.
    DDW0,
    /// A calibration data word.
    CDW,
    /// An inner- or outer-barrel data word.
    DataWord,
}

/// The states of the payload classifier.
#[derive(Clone, Copy, Debug, PartialEq, Eq, Structural)]
pub enum FsmState {
    /// Start of a payload stream: an IHW is expected, though a CDW or a data
    /// word may open a new payload.
    Initial,
    /// An IHW was seen: a TDH is expected, or another IHW after a page
    /// rollover.
    AfterIhw,
    /// Inside a trigger: data words, a CDW or the closing TDT.
    Data,
    /// A TDT with packet_done = 0 was seen: the next TDH continues it.
    AfterTdtNotDone,
    /// A TDT with packet_done = 1 was seen: the next TDH opens a new trigger.
    AfterTdtPacketDone,
}

/// One step of the classifier: the label given to `word` in state `s`, and
/// the state after it. A pure function of the state and the word alone.
pub open spec fn spec_advance(s: FsmState, word: Seq<u8>) -> (PayloadWord, FsmState)
    recommends
        word.len() == 10,
{
    let id = word[9];
    let packet_done = word[8] % 2 == 1;
    match s {
        FsmState::Initial => {
            if id == cdw_id() {
                (PayloadWord::CDW, FsmState::Data)
            } else if spec_is_data_word_id(id) {
                (PayloadWord::DataWord, FsmState::Data)
            } else {
                (PayloadWord::IHW, FsmState::AfterIhw)
            }
        },
        FsmState::AfterIhw => {
            if id == ihw_id() {
                (PayloadWord::IHW_continuation, FsmState::AfterIhw)
            } else {
                (PayloadWord::TDH, FsmState::Data)
            }
        },
        FsmState::Data => {
            if id == tdt_id() {
                if packet_done {
                    (PayloadWord::TDT, FsmState::AfterTdtPacketDone)
                } else {
                    (PayloadWord::TDT, FsmState::AfterTdtNotDone)
                }
            } else if id == cdw_id() {
                (PayloadWord::CDW, FsmState::Data)
            } else {
                (PayloadWord::DataWord, FsmState::Data)
            }
        },
        FsmState::AfterTdtNotDone => {
            if id == ihw_id() {
                (PayloadWord::IHW_continuation, FsmState::AfterTdtNotDone)
            } else if id == ddw0_id() {
                (PayloadWord::DDW0, FsmState::Initial)
            } else {
                (PayloadWord::TDH_continuation, FsmState::Data)
            }
        },
        FsmState::AfterTdtPacketDone => {
            if id == ihw_id() {
                (PayloadWord::IHW_continuation, FsmState::AfterTdtPacketDone)
            } else if id == ddw0_id() {
                (PayloadWord::DDW0, FsmState::Initial)
            } else {
                (PayloadWord::TDH_after_packet_done, FsmState::Data)
            }
        },
    }
}

/// The label sequence the classifier gives a word sequence from state `s`.
pub open spec fn spec_run(s: FsmState, words: Seq<Seq<u8>>) -> Seq<PayloadWord>
    decreases words.len(),
{
    if words.len() == 0 {
        Seq::empty()
    } else {
        seq![spec_advance(s, words[0]).0] + spec_run(spec_advance(s, words[0]).1, words.drop_first())
    }
}

/// The classifier labels every word: the label sequence is exactly as long
/// as the word sequence.
pub proof fn lemma_run_labels_every_word(s: FsmState, words: Seq<Seq<u8>>)
    ensures
        spec_run(s, words).len() == words.len(),
    decreases words.len(),
{
    if words.len() > 0 {
        lemma_run_labels_every_word(spec_advance(s, words[0]).1, words.drop_first());
    }
}

/// The label sequence is a deterministic function of the initial state and
/// the word sequence alone: two classifiers started in the same state and fed
/// the same words give the same labels, whatever else happened before.
pub proof fn lemma_fsm_deterministic(s1: FsmState, s2: FsmState, ws1: Seq<Seq<u8>>, ws2: Seq<
    Seq<u8>,
>)
    requires
        s1 == s2,
        ws1 == ws2,
    ensures
        spec_run(s1, ws1) == spec_run(s2, ws2),
{
}

/// The continuous payload classifier.
pub struct ItsPayloadFsmContinuous {
    /// Current state; starts at `Initial`.
    pub state: FsmState,
}

impl ItsPayloadFsmContinuous {
    pub fn new() -> (r: ItsPayloadFsmContinuous)
        ensures
            r.state == FsmState::Initial,
    {
        ItsPayloadFsmContinuous { state: FsmState::Initial }
    }

    /// Force the classifier back to the initial state, as after a payload
    /// whose format could not be parsed.
    pub fn reset_fsm(&mut self)
        ensures
            final(self).state == FsmState::Initial,
    {
        self.state = FsmState::Initial;
    }

    /// Classify one word and advance the state.
    pub fn advance(&mut self, gbt_word: &[u8]) -> (w: PayloadWord)
        requires
            gbt_word@.len() == 10,
        ensures
            w == spec_advance(old(self).state, gbt_word@).0,
            final(self).state == spec_advance(old(self).state, gbt_word@).1,
    {
        let id = gbt_word[9];
        let packet_done = gbt_word[8] % 2 == 1;
        let (word, next) = match self.state {
            FsmState::Initial => {
                if id == 0xF8 {
                    (PayloadWord::CDW, FsmState::Data)
                } else if id / 0x20 == 1 || id / 0x20 == 2 {
                    (PayloadWord::DataWord, FsmState::Data)
                } else {
                    (PayloadWord::IHW, FsmState::AfterIhw)
                }
            },
            FsmState::AfterIhw => {
                if id == 0xE0 {
                    (PayloadWord::IHW_continuation, FsmState::AfterIhw)
                } else {
                    (PayloadWord::TDH, FsmState::Data)
                }
            },
            FsmState::Data => {
                if id == 0xF0 {
                    if packet_done {
                        (PayloadWord::TDT, FsmState::AfterTdtPacketDone)
                    } else {
                        (PayloadWord::TDT, FsmState::AfterTdtNotDone)
                    }
                } else if id == 0xF8 {
                    (PayloadWord::CDW, FsmState::Data)
                } else {
                    (PayloadWord::DataWord, FsmState::Data)
                }
            },
            FsmState::AfterTdtNotDone => {
                if id == 0xE0 {
                    (PayloadWord::IHW_continuation, FsmState::AfterTdtNotDone)
                } else if id == 0xE4 {
                    (PayloadWord::DDW0, FsmState::Initial)
                } else {
                    (PayloadWord::TDH_continuation, FsmState::Data)
                }
            },
            FsmState::AfterTdtPacketDone => {
                if id == 0xE0 {
                    (PayloadWord::IHW_continuation, FsmState::AfterTdtPacketDone)
                } else if id == 0xE4 {
                    (PayloadWord::DDW0, FsmState::Initial)
                } else {
                    (PayloadWord::TDH_after_packet_done, FsmState::Data)
                }
            },
        };
        self.state = next;
        word
    }
}

impl Default for ItsPayloadFsmContinuous {
    fn default() -> (r: ItsPayloadFsmContinuous)
        ensures
            r.state == FsmState::Initial,
    {
        ItsPayloadFsmContinuous { state: FsmState::Initial }
    }
}

} // verus!
