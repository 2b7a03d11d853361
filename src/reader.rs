//! The three module operations the scanner needs, each one exchange: configure the
//! security access module, detect a passive target, and exchange data with the
//! detected target (used here to read its memory pages).
use vstd::prelude::*;
use crate::command::{BusAction, BusActionView, Call, CallPhase};
use crate::frame::{command_frame, copy_range};
use crate::transport::{wire, write_request};

verus! {

pub const CMD_SAMCONFIGURATION: u8 = 0x14;
pub const CMD_INLISTPASSIVETARGET: u8 = 0x4A;
pub const CMD_INDATAEXCHANGE: u8 = 0x40;
/// The tag's own memory-read command, sent through a data exchange.
pub const NTAG_CMD_READ: u8 = 0x30;
/// Timeout of each readiness wait while configuring.
pub const SAM_CONFIG_TIMEOUT_MS: u64 = 1000;
/// Timeout of each readiness wait while reading tag memory.
pub const PAGE_READ_TIMEOUT_MS: u64 = 500;
/// Expected payload length of a target detection.
pub const TARGET_RESPONSE_LEN: usize = 19;
/// Expected payload length of a page-group read: status byte and 16 data bytes.
pub const PAGE_RESPONSE_LEN: usize = 17;

/// The exchange that `c` and `a` start: command `cmd` with `params`.
pub open spec fn starts_call(
    c: Call,
    a: BusAction,
    cmd: u8,
    params: Seq<u8>,
    response_len: usize,
    timeout_ms: u64,
) -> bool {
    &&& c == (Call { cmd, response_len, timeout_ms, waited_ms: 0, phase: CallPhase::Writing })
    &&& a@ == (BusActionView::Transfer {
        pause_ms: 0,
        tx: wire(write_request(command_frame(cmd, params))),
    })
    &&& c.wf()
}

/// The parameters of the security-module configuration: normal mode, a timeout of
/// 20 units of 50 ms, and the interrupt line in use.
pub open spec fn sam_config_params() -> Seq<u8> {
    seq![0x01u8, 0x14u8, 0x01u8]
}

/// The parameters of a passive target detection: at most one target, of the
/// 106 kbps type-A kind.
pub open spec fn detect_params() -> Seq<u8> {
    seq![0x01u8, 0x00u8]
}

/// The data-exchange parameters that read the four pages starting at `page` from
/// target 1.
pub open spec fn page_read_params(page: u8) -> Seq<u8> {
    seq![0x01u8, NTAG_CMD_READ, page]
}

/// The UID in the payload `p` of a target detection: the first byte counts the
/// targets found and must be 1, the UID length stands at index 5 and the UID
/// follows it.
pub open spec fn uid_of(p: Seq<u8>) -> Option<Seq<u8>> {
    if p.len() > 5 && p[0] == 1 && p.len() >= 6 + p[5] {
        Some(p.subrange(6, 6 + p[5]))
    } else {
        None
    }
}

/// The data in the payload `p` of a data exchange: the first byte is the target's
/// status and must be 0.
pub open spec fn target_data_of(p: Seq<u8>) -> Option<Seq<u8>> {
    if p.len() > 0 && p[0] == 0 {
        Some(p.subrange(1, p.len() as int))
    } else {
        None
    }
}

/// Starts the configuration of the security access module.
pub fn configure_security_module() -> (r: (Call, BusAction))
    ensures
        starts_call(r.0, r.1, CMD_SAMCONFIGURATION, sam_config_params(), 0, SAM_CONFIG_TIMEOUT_MS),
{
    let params: [u8; 3] = [0x01, 0x14, 0x01];
    assert(params@ =~= sam_config_params());
    Call::start(CMD_SAMCONFIGURATION, &params, 0, SAM_CONFIG_TIMEOUT_MS)
}

/// Starts a detection of one passive target, waiting up to `timeout_ms` for each
/// readiness.
pub fn detect_target(timeout_ms: u64) -> (r: (Call, BusAction))
    ensures
        starts_call(
            r.0,
            r.1,
            CMD_INLISTPASSIVETARGET,
            detect_params(),
            TARGET_RESPONSE_LEN,
            timeout_ms,
        ),
{
    let params: [u8; 2] = [0x01, 0x00];
    assert(params@ =~= detect_params());
    Call::start(CMD_INLISTPASSIVETARGET, &params, TARGET_RESPONSE_LEN, timeout_ms)
}

/// The UID of the detected target in the payload of a target detection.
pub fn target_uid(p: &[u8]) -> (r: Option<Vec<u8>>)
    ensures
        crate::frame::opt_view(r) == uid_of(p@),
{
    if p.len() > 5 && p[0] == 0x01 {
        let uid_len = p[5] as usize;
        if p.len() - 6 >= uid_len {
            return Some(copy_range(p, 6, 6 + uid_len));
        }
    }
    None
}

/// Starts a data exchange with the detected target carrying `params`.
pub fn exchange_with_target(params: &[u8], response_len: usize, timeout_ms: u64) -> (r: (
    Call,
    BusAction,
))
    requires
        params@.len() <= crate::frame::MAX_PARAMS,
        response_len <= usize::MAX - 2 - crate::command::FRAME_OVERHEAD - 1,
    ensures
        starts_call(r.0, r.1, CMD_INDATAEXCHANGE, params@, response_len, timeout_ms),
{
    Call::start(CMD_INDATAEXCHANGE, params, response_len, timeout_ms)
}

/// The data in the payload of a data exchange, where the target reports success.
pub fn target_data(p: &[u8]) -> (r: Option<Vec<u8>>)
    ensures
        crate::frame::opt_view(r) == target_data_of(p@),
{
    if p.len() > 0 && p[0] == 0x00 {
        Some(copy_range(p, 1, p.len()))
    } else {
        None
    }
}

/// The 16 bytes of four pages in the payload `p` of a page-group read: the
/// target's status byte must be 0 and exactly 16 bytes must follow it.
pub open spec fn page_data_of(p: Seq<u8>) -> Option<Seq<u8>> {
    if p.len() == PAGE_RESPONSE_LEN && p[0] == 0 {
        Some(p.subrange(1, PAGE_RESPONSE_LEN as int))
    } else {
        None
    }
}

/// The page data in the payload of a page-group read.
pub fn page_data(p: &[u8]) -> (r: Option<Vec<u8>>)
    ensures
        crate::frame::opt_view(r) == page_data_of(p@),
        r is Some ==> r->Some_0@.len() == 16,
{
    if p.len() == PAGE_RESPONSE_LEN && p[0] == 0x00 {
        Some(copy_range(p, 1, PAGE_RESPONSE_LEN))
    } else {
        None
    }
}

/// Starts a read of the four memory pages starting at `page`.
pub fn read_page_group(page: u8) -> (r: (Call, BusAction))
    ensures
        starts_call(
            r.0,
            r.1,
            CMD_INDATAEXCHANGE,
            page_read_params(page),
            PAGE_RESPONSE_LEN,
            PAGE_READ_TIMEOUT_MS,
        ),
{
    let params: [u8; 3] = [0x01, NTAG_CMD_READ, page];
    assert(params@ =~= page_read_params(page));
    exchange_with_target(&params, PAGE_RESPONSE_LEN, PAGE_READ_TIMEOUT_MS)
}

} // verus!
