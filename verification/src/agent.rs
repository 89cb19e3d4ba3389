//! The runner agent's decisions: which board and clock it serves, how the
//! device's status bytes read as statuses, which messages it sends back for
//! a job, the cycle counts it fabricates on an emulator, and where the
//! emulator's serial port is announced.

use crate::proto::{
    board_name, board_name_roundtrip, board_named, Board, CaseInput, CaseStatus, RunStatus,
    RunnerToServer, ServerToRunner,
};
use crate::text::{
    chars_of, first_occurrence, first_occurrence_unique, find_chars, leading_non_space, occurs_at,
    str_eq, string_of, take_non_space,
};
use sha2::{Digest, Sha256};
use siphasher::sip::SipHasher24;
use std::hash::Hasher;
use uuid::Uuid;
use vstd::prelude::*;

verus! {

/// The board served when none is named: the emulated board under the
/// emulator, the LPC1768 on real hardware.
pub fn default_board(qemu: bool) -> (b: Board)
    ensures
        b == (if qemu { Board::Lm3s6965evb } else { Board::Lpc1768 }),
{
    if qemu {
        Board::Lm3s6965evb
    } else {
        Board::Lpc1768
    }
}

/// A board name that names no board.
#[derive(Debug)]
pub struct UnknownBoard {
    pub name: String,
}

/// Reads a board from its wire name.
pub fn parse_board(s: &str) -> (r: Result<Board, UnknownBoard>)
    ensures
        match board_named(s@) {
            Some(b) => r matches Ok(x) && x == b,
            None => r matches Err(e) && e.name@ == s@,
        },
{
    if str_eq(s, "lm3s6965evb") {
        Ok(Board::Lm3s6965evb)
    } else if str_eq(s, "lpc1768") {
        Ok(Board::Lpc1768)
    } else if str_eq(s, "stm32f429zi") {
        Ok(Board::Stm32f429zi)
    } else {
        Err(UnknownBoard { name: s.to_owned() })
    }
}

/// A board name written by `board_str` reads back as the same board.
pub proof fn parse_board_reads_board_str(b: Board)
    ensures
        board_named(board_name(b)) == Some(b),
{
    board_name_roundtrip(b);
}

/// The core clock a board reports when none is given.
pub open spec fn default_clock(b: Board) -> u64 {
    match b {
        Board::Lm3s6965evb => 12_000_000,
        Board::Lpc1768 => 96_000_000,
        Board::Stm32f429zi => 168_000_000,
    }
}

/// The core clock a board reports when none is given.
pub fn default_cclk_hz(b: Board) -> (hz: u64)
    ensures
        hz == default_clock(b),
{
    match b {
        Board::Lm3s6965evb => 12_000_000,
        Board::Lpc1768 => 96_000_000,
        Board::Stm32f429zi => 168_000_000,
    }
}

/// The status bytes of the device's wire protocol.
#[derive(Debug, Clone, Copy)]
pub struct StatusCodes {
    pub ok: u8,
    pub timeout: u8,
    pub memfault: u8,
    pub busfault: u8,
    pub usagefault: u8,
    pub load_error: u8,
}

/// The case status a status byte reads as: the first code it equals, and a
/// load error for a byte that is no code.
pub open spec fn case_status_for(byte: u8, c: StatusCodes) -> CaseStatus {
    if byte == c.ok {
        CaseStatus::Okay
    } else if byte == c.timeout {
        CaseStatus::Timeout
    } else if byte == c.memfault {
        CaseStatus::Memfault
    } else if byte == c.busfault {
        CaseStatus::Busfault
    } else if byte == c.usagefault {
        CaseStatus::Usagefault
    } else {
        CaseStatus::LoadError
    }
}

/// The run status a status byte reads as.
pub open spec fn run_status_for(byte: u8, c: StatusCodes) -> RunStatus {
    if byte == c.ok {
        RunStatus::Okay
    } else if byte == c.timeout {
        RunStatus::Timeout
    } else if byte == c.memfault {
        RunStatus::Memfault
    } else if byte == c.busfault {
        RunStatus::Busfault
    } else if byte == c.usagefault {
        RunStatus::Usagefault
    } else {
        RunStatus::LoadError
    }
}

/// The run status of the same name as a case status.
pub open spec fn run_status_named_as(s: CaseStatus) -> RunStatus {
    match s {
        CaseStatus::Okay => RunStatus::Okay,
        CaseStatus::Timeout => RunStatus::Timeout,
        CaseStatus::Memfault => RunStatus::Memfault,
        CaseStatus::Busfault => RunStatus::Busfault,
        CaseStatus::Usagefault => RunStatus::Usagefault,
        CaseStatus::LoadError => RunStatus::LoadError,
    }
}

/// Reads a per-case status byte.
pub fn map_case_status(byte: u8, c: &StatusCodes) -> (s: CaseStatus)
    ensures
        s == case_status_for(byte, *c),
{
    if byte == c.ok {
        CaseStatus::Okay
    } else if byte == c.timeout {
        CaseStatus::Timeout
    } else if byte == c.memfault {
        CaseStatus::Memfault
    } else if byte == c.busfault {
        CaseStatus::Busfault
    } else if byte == c.usagefault {
        CaseStatus::Usagefault
    } else {
        CaseStatus::LoadError
    }
}

/// Reads an overall run status byte.
pub fn map_run_status_from_byte(byte: u8, c: &StatusCodes) -> (s: RunStatus)
    ensures
        s == run_status_for(byte, *c),
{
    if byte == c.ok {
        RunStatus::Okay
    } else if byte == c.timeout {
        RunStatus::Timeout
    } else if byte == c.memfault {
        RunStatus::Memfault
    } else if byte == c.busfault {
        RunStatus::Busfault
    } else if byte == c.usagefault {
        RunStatus::Usagefault
    } else {
        RunStatus::LoadError
    }
}

/// A byte reads as the same status whether it reports one case or a run.
pub proof fn case_and_run_status_agree(byte: u8, c: StatusCodes)
    ensures
        run_status_for(byte, c) == run_status_named_as(case_status_for(byte, c)),
{
}

// ---- Synthetic cycle counts -------------------------------------------------

/// What SHA-256 gives for a byte string.
pub uninterp spec fn sha256_of(bytes: Seq<u8>) -> Seq<u8>;

/// `sha2::Sha256`: the 32-byte SHA-256 digest of `bin`. The contract names
/// the digest and states nothing more of it.
#[verifier::external_body]
pub fn sha256(bin: &[u8]) -> (r: [u8; 32])
    ensures
        r@ == sha256_of(bin@),
{
    let mut h = Sha256::new();
    h.update(bin);
    let out = h.finalize();
    let mut arr = [0u8; 32];
    arr.copy_from_slice(&out);
    arr
}

/// What SipHash-2-4 under the keys `(k0, k1)` gives for a message.
pub uninterp spec fn siphash24_of(k0: u64, k1: u64, msg: Seq<u8>) -> u64;

/// `siphasher::sip::SipHasher24`: keyed with `(k0, k1)`, fed `msg`,
/// finished. The contract names the hash and states nothing more of it.
#[verifier::external_body]
fn siphash24(k0: u64, k1: u64, msg: &[u8]) -> (r: u64)
    ensures
        r == siphash24_of(k0, k1, msg@),
{
    let mut h = SipHasher24::new_with_keys(k0, k1);
    h.write(msg);
    h.finish()
}

/// The domain string that prefixes every synthetic-cycle message.
pub open spec fn synthetic_domain() -> Seq<u8> {
    seq![101u8, 120, 97, 99, 116, 45, 115, 121, 110, 116, 104, 101, 116, 105, 99]
}

/// Fewest synthetic cycles.
pub const MIN_CYCLES: u64 = 5_000;

/// Width of the synthetic cycle range.
pub const SPREAD: u64 = 50_000;

/// The synthetic cycle count of one case: SipHash-2-4 keyed by the first
/// sixteen bytes of the binary's digest (two little-endian words), over the
/// domain string followed by the case input, folded into the range.
pub open spec fn synthetic_cycles_of(bin_sha: Seq<u8>, input: Seq<u8>) -> u64 {
    let k0 = vstd::bytes::spec_u64_from_le_bytes(bin_sha.subrange(0, 8));
    let k1 = vstd::bytes::spec_u64_from_le_bytes(bin_sha.subrange(8, 16));
    (MIN_CYCLES + siphash24_of(k0, k1, synthetic_domain() + input) % SPREAD) as u64
}

/// A deterministic cycle count for `(binary, case input)` on boards whose
/// emulator counts no cycles.
pub fn synthetic_cycles(bin_sha: &[u8; 32], case_input: &[u8]) -> (c: u64)
    requires
        case_input@.len() + 15 <= usize::MAX,
    ensures
        c == synthetic_cycles_of(bin_sha@, case_input@),
        MIN_CYCLES <= c < MIN_CYCLES + SPREAD,
{
    let sha = vstd::array::array_as_slice(bin_sha);
    let k0 = vstd::bytes::u64_from_le_bytes(vstd::slice::slice_subrange(sha, 0, 8));
    let k1 = vstd::bytes::u64_from_le_bytes(vstd::slice::slice_subrange(sha, 8, 16));
    let mut msg: Vec<u8> = vec![101u8, 120, 97, 99, 116, 45, 115, 121, 110, 116, 104, 101, 116, 105, 99];
    assert(msg@ == synthetic_domain());
    for i in 0..case_input.len()
        invariant
            msg@ == synthetic_domain() + case_input@.take(i as int),
    {
        msg.push(case_input[i]);
        assert(case_input@.take(i + 1) == case_input@.take(i as int).push(case_input@[i as int]));
    }
    assert(case_input@.take(case_input@.len() as int) == case_input@);
    let h = siphash24(k0, k1, msg.as_slice());
    MIN_CYCLES + h % SPREAD
}

/// Synthetic cycle counts depend only on the first sixteen bytes of the
/// binary's digest and on the case input: two digests that agree there give
/// every input the same count.
pub proof fn synthetic_cycles_depend_on_key_and_input(a1: Seq<u8>, a2: Seq<u8>, input: Seq<u8>)
    requires
        a1.len() == 32,
        a2.len() == 32,
        a1.take(16) == a2.take(16),
    ensures
        synthetic_cycles_of(a1, input) == synthetic_cycles_of(a2, input),
{
    assert(a1.subrange(0, 8) =~= a1.take(16).subrange(0, 8));
    assert(a2.subrange(0, 8) =~= a2.take(16).subrange(0, 8));
    assert(a1.subrange(8, 16) =~= a1.take(16).subrange(8, 16));
    assert(a2.subrange(8, 16) =~= a2.take(16).subrange(8, 16));
}

// ---- Session --------------------------------------------------------------

/// The greeting the agent sends first on every connection.
pub fn hello_message(device_id: &str, board: Board, cclk_hz: u64, version: &str) -> (m:
    RunnerToServer)
    ensures
        m matches RunnerToServer::Hello { device_id: d, board: b, cclk_hz: c, version: v } && d@
            == device_id@ && b == board && c == cclk_hz && v@ == version@,
{
    RunnerToServer::Hello {
        device_id: device_id.to_owned(),
        board,
        cclk_hz,
        version: version.to_owned(),
    }
}

/// One job handed to the device worker.
#[derive(Debug)]
pub struct JobReq {
    pub job_id: Uuid,
    pub bin: Vec<u8>,
    pub cases: Vec<CaseInput>,
    /// Already baked into the binary's header by the build worker.
    pub total_timeout_ms: u32,
    /// Whether the agent fabricates cycle counts for this job.
    pub synthetic: bool,
}

/// Whether the agent fabricates cycle counts on a board: only the emulated
/// board lacks a cycle counter.
pub open spec fn board_is_synthetic(b: Board) -> bool {
    b == Board::Lm3s6965evb
}

/// Whether the agent fabricates cycle counts on a board.
pub fn is_synthetic_board(b: Board) -> (r: bool)
    ensures
        r == board_is_synthetic(b),
{
    b == Board::Lm3s6965evb
}

/// What the agent does with one message from the API.
#[derive(Debug)]
pub enum SessionStep {
    /// Hand this job to the device worker.
    Run(JobReq),
    /// A cancel request, which the agent does not act on.
    IgnoreCancel(Uuid),
    /// Nothing to do.
    Idle,
}

/// The agent's response to one message from the API.
pub fn on_server_message(board: Board, msg: ServerToRunner) -> (step: SessionStep)
    ensures
        match msg {
            ServerToRunner::AssignJob { job_id, bin, cases, total_timeout_ms } => step matches
                SessionStep::Run(r) && r.job_id == job_id && r.bin == bin && r.cases == cases
                && r.total_timeout_ms == total_timeout_ms && r.synthetic == board_is_synthetic(
                board),
            ServerToRunner::Cancel { job_id } => step matches SessionStep::IgnoreCancel(j) && j
                == job_id,
            ServerToRunner::Ping => step is Idle,
        },
{
    match msg {
        ServerToRunner::AssignJob { job_id, bin, cases, total_timeout_ms } => {
            let synthetic = is_synthetic_board(board);
            SessionStep::Run(JobReq { job_id, bin, cases, total_timeout_ms, synthetic })
        },
        ServerToRunner::Cancel { job_id } => SessionStep::IgnoreCancel(job_id),
        ServerToRunner::Ping => SessionStep::Idle,
    }
}

// ---- Running one job ---------------------------------------------------------

/// The per-case report of the device for one case.
#[derive(Debug, Clone, Copy)]
pub struct CaseFrame {
    pub status: u8,
    pub exit_code: u32,
    pub cycles: u64,
}

/// The inputs and ordinals of a job's cases, in order.
pub fn job_case_parts(cases: Vec<CaseInput>) -> (r: (Vec<Vec<u8>>, Vec<u32>))
    ensures
        r.0@.len() == cases@.len(),
        r.1@.len() == cases@.len(),
        forall|k: int| 0 <= k < cases@.len() ==> r.0@[k] == #[trigger] cases@[k].input,
        forall|k: int| 0 <= k < cases@.len() ==> r.1@[k] == #[trigger] cases@[k].ord,
{
    let ghost all = cases@;
    let mut inputs: Vec<Vec<u8>> = Vec::new();
    let mut ords: Vec<u32> = Vec::new();
    for c in it: cases
        invariant
            it.seq() == all,
            inputs@.len() == it.index(),
            ords@.len() == it.index(),
            forall|k: int| 0 <= k < it.index() ==> inputs@[k] == #[trigger] all[k].input,
            forall|k: int| 0 <= k < it.index() ==> ords@[k] == #[trigger] all[k].ord,
    {
        ords.push(c.ord);
        inputs.push(c.input);
    }
    (inputs, ords)
}

/// The digest the synthetic cycle counts of a job are keyed by, when the
/// job asks for them.
pub fn job_digest(req: &JobReq) -> (d: Option<[u8; 32]>)
    ensures
        match d {
            Some(sha) => req.synthetic && sha@ == sha256_of(req.bin@),
            None => !req.synthetic,
        },
{
    if req.synthetic {
        Some(sha256(req.bin.as_slice()))
    } else {
        None
    }
}

/// The ordinal reported for the `i`-th case: its own, or `i` when the job
/// carries none for it.
pub open spec fn case_ord_at(ords: Seq<u32>, i: usize) -> u32 {
    if i < ords.len() {
        ords[i as int]
    } else {
        i as u32
    }
}

/// The cycle count reported for the `i`-th case.
pub open spec fn reported_cycles(
    inputs: Seq<Vec<u8>>,
    i: usize,
    frame_cycles: u64,
    bin_sha: Option<[u8; 32]>,
) -> u64 {
    match bin_sha {
        Some(sha) => synthetic_cycles_of(
            sha@,
            if i < inputs.len() {
                inputs[i as int]@
            } else {
                Seq::empty()
            },
        ),
        None => frame_cycles,
    }
}

/// The message reporting the `i`-th case of a job.
pub fn case_result_message(
    job_id: Uuid,
    ords: &Vec<u32>,
    inputs: &Vec<Vec<u8>>,
    i: usize,
    frame: CaseFrame,
    output: &[u8],
    bin_sha: &Option<[u8; 32]>,
    codes: &StatusCodes,
) -> (m: RunnerToServer)
    requires
        forall|k: int| 0 <= k < inputs@.len() ==> #[trigger] inputs@[k]@.len() + 15 <= usize::MAX,
    ensures
        m matches RunnerToServer::CaseResult {
            job_id: j,
            case_ord,
            status,
            exit_code,
            cycles,
            output: o,
            synthetic,
        } && j == job_id && case_ord == case_ord_at(ords@, i) && status == case_status_for(
            frame.status,
            *codes,
        ) && exit_code == frame.exit_code && cycles == reported_cycles(
            inputs@,
            i,
            frame.cycles,
            *bin_sha,
        ) && o@ == output@ && synthetic == bin_sha.is_some(),
{
    let case_ord = if i < ords.len() {
        ords[i]
    } else {
        i as u32
    };
    let status = map_case_status(frame.status, codes);
    let cycles = match bin_sha {
        Some(sha) => {
            if i < inputs.len() {
                synthetic_cycles(sha, inputs[i].as_slice())
            } else {
                let none: Vec<u8> = Vec::new();
                synthetic_cycles(sha, none.as_slice())
            }
        },
        None => frame.cycles,
    };
    let mut out: Vec<u8> = Vec::new();
    for k in 0..output.len()
        invariant
            out@ == output@.take(k as int),
    {
        out.push(output[k]);
        assert(output@.take(k + 1) == output@.take(k as int).push(output@[k as int]));
    }
    assert(output@.take(output@.len() as int) == output@);
    RunnerToServer::CaseResult {
        job_id,
        case_ord,
        status,
        exit_code: frame.exit_code,
        cycles,
        output: out,
        synthetic: bin_sha.is_some(),
    }
}

/// The message closing a job the device finished.
pub fn run_result_message(job_id: Uuid, overall_status: u8, cclk_hz: u32, codes: &StatusCodes) -> (m:
    RunnerToServer)
    ensures
        m matches RunnerToServer::RunResult { job_id: j, overall, cclk_hz: c } && j == job_id
            && overall == run_status_for(overall_status, *codes) && c == cclk_hz,
{
    RunnerToServer::RunResult {
        job_id,
        overall: map_run_status_from_byte(overall_status, codes),
        cclk_hz,
    }
}

/// The message closing a job the device could not run.
pub fn run_error_message(job_id: Uuid, reason: String) -> (m: RunnerToServer)
    ensures
        m matches RunnerToServer::Error { job_id: j, reason: r } && j == Some(job_id) && r
            == reason,
{
    RunnerToServer::Error { job_id: Some(job_id), reason }
}

// ---- Device transport --------------------------------------------------------

/// How the agent reaches its device.
#[derive(Debug)]
pub enum TransportPlan<P> {
    /// Start the emulator on this kernel and use the serial port it announces.
    Emulator { kernel: P },
    /// Open this serial port.
    Serial { port: String },
}

/// Why no transport can be chosen.
#[derive(Debug, PartialEq, Eq, Structural)]
pub enum TransportError {
    /// The emulator was asked for without a kernel.
    MissingKernel,
    /// Real hardware was asked for without a serial port.
    MissingSerialPort,
}

/// Chooses the transport: the emulator needs a kernel, real hardware a
/// serial port.
pub fn choose_transport<P>(qemu: bool, kernel: Option<P>, serial_port: Option<String>) -> (r:
    Result<TransportPlan<P>, TransportError>)
    ensures
        qemu ==> match kernel {
            Some(k) => r matches Ok(TransportPlan::Emulator { kernel: x }) && x == k,
            None => r == Err::<TransportPlan<P>, TransportError>(TransportError::MissingKernel),
        },
        !qemu ==> match serial_port {
            Some(p) => r matches Ok(TransportPlan::Serial { port: x }) && x == p,
            None => r == Err::<TransportPlan<P>, TransportError>(
                TransportError::MissingSerialPort,
            ),
        },
{
    if qemu {
        match kernel {
            Some(k) => Ok(TransportPlan::Emulator { kernel: k }),
            None => Err(TransportError::MissingKernel),
        }
    } else {
        match serial_port {
            Some(p) => Ok(TransportPlan::Serial { port: p }),
            None => Err(TransportError::MissingSerialPort),
        }
    }
}

// ---- Emulator serial port ----------------------------------------------------

/// The text the emulator prints before the path of its serial port.
pub open spec fn pty_announcement() -> Seq<char> {
    "char device redirected to "@
}

/// The serial port path a line of emulator output announces: the run of
/// non-space characters after the first announcement, when there is one and
/// it is not empty.
pub open spec fn pty_path_in(line: Seq<char>) -> Option<Seq<char>> {
    if exists|i: int| first_occurrence(line, pty_announcement(), i) {
        let i = choose|i: int| first_occurrence(line, pty_announcement(), i);
        let p = leading_non_space(line.skip(i + pty_announcement().len()));
        if p.len() == 0 {
            None
        } else {
            Some(p)
        }
    } else {
        None
    }
}

/// The serial port path a line of emulator output announces, if any.
pub fn extract_pty(line: &str) -> (r: Option<String>)
    ensures
        match pty_path_in(line@) {
            Some(p) => r matches Some(s) && s@ == p,
            None => r is None,
        },
{
    let needle = "char device redirected to ";
    let hay = chars_of(line);
    let pat = chars_of(needle);
    match find_chars(&hay, &pat) {
        None => {
            assert(!exists|i: int| first_occurrence(line@, pty_announcement(), i));
            None
        },
        Some(idx) => {
            proof {
                let j = choose|i: int| first_occurrence(line@, pty_announcement(), i);
                first_occurrence_unique(line@, pty_announcement(), j, idx as int);
            }
            let hay_len = hay.len();
            assert(idx + pat@.len() <= hay_len);
            let path = take_non_space(&hay, idx + pat.len());
            if path.len() == 0 {
                None
            } else {
                Some(string_of(path.as_slice()))
            }
        },
    }
}

} // verus!
