//! Validators: the stateless sanity checks on RDHs and GBT words, the payload
//! state machine, and the running validator that ties them together.

pub mod cdp_running;
pub mod data_words;
pub mod its_payload_fsm_cont;
pub mod rdh;
pub mod status_words;
