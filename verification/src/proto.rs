//! Wire types shared by the API service and the runner agent.

use uuid::Uuid;
use vstd::prelude::*;

verus! {

/// Which Cortex-M board a submission targets.
#[derive(Debug, Clone, Copy, PartialEq, Eq, Hash, Structural)]
pub enum Board {
    Lm3s6965evb,
    Lpc1768,
    Stm32f429zi,
}

/// Per-case status reported by the kernel.
#[derive(Debug, Clone, Copy, PartialEq, Eq, Structural)]
pub enum CaseStatus {
    Okay,
    Timeout,
    Memfault,
    Busfault,
    Usagefault,
    LoadError,
}

/// Overall run status.
#[derive(Debug, Clone, Copy, PartialEq, Eq, Structural)]
pub enum RunStatus {
    Okay,
    Timeout,
    Memfault,
    Busfault,
    Usagefault,
    LoadError,
}

/// One case's input bytes plus its ordinal.
#[derive(Debug, Clone)]
pub struct CaseInput {
    pub ord: u32,
    pub input: Vec<u8>,
}

/// Messages the runner sends up to the API over its persistent socket.
#[derive(Debug, Clone)]
pub enum RunnerToServer {
    /// Sent immediately after the socket connects.
    Hello { device_id: String, board: Board, cclk_hz: u64, version: String },
    Heartbeat,
    CaseOutput { job_id: Uuid, case_ord: u32, output: Vec<u8> },
    CaseResult {
        job_id: Uuid,
        case_ord: u32,
        status: CaseStatus,
        exit_code: u32,
        cycles: u64,
        output: Vec<u8>,
        /// True if the runner fabricated `cycles`.
        synthetic: bool,
    },
    RunResult { job_id: Uuid, overall: RunStatus, cclk_hz: u32 },
    Error { job_id: Option<Uuid>, reason: String },
}

/// Messages the API sends down to a runner.
#[derive(Debug, Clone)]
pub enum ServerToRunner {
    AssignJob { job_id: Uuid, bin: Vec<u8>, cases: Vec<CaseInput>, total_timeout_ms: u32 },
    Cancel { job_id: Uuid },
    Ping,
}

/// The wire name of a board (its snake_case identifier).
pub open spec fn board_name(b: Board) -> Seq<char> {
    match b {
        Board::Lm3s6965evb => "lm3s6965evb"@,
        Board::Lpc1768 => "lpc1768"@,
        Board::Stm32f429zi => "stm32f429zi"@,
    }
}

/// The board whose wire name is `s`, if any.
pub open spec fn board_named(s: Seq<char>) -> Option<Board> {
    if s == "lm3s6965evb"@ {
        Some(Board::Lm3s6965evb)
    } else if s == "lpc1768"@ {
        Some(Board::Lpc1768)
    } else if s == "stm32f429zi"@ {
        Some(Board::Stm32f429zi)
    } else {
        None
    }
}

/// The wire name of a board.
pub fn board_str(b: Board) -> (r: &'static str)
    ensures
        r@ == board_name(b),
{
    match b {
        Board::Lm3s6965evb => "lm3s6965evb",
        Board::Lpc1768 => "lpc1768",
        Board::Stm32f429zi => "stm32f429zi",
    }
}

/// Distinct boards have distinct wire names, so a name read back names
/// the board it was written for.
pub proof fn board_name_roundtrip(b: Board)
    ensures
        board_named(board_name(b)) == Some(b),
{
    reveal_strlit("lm3s6965evb");
    reveal_strlit("lpc1768");
    reveal_strlit("stm32f429zi");
    assert("lm3s6965evb"@ != "lpc1768"@ ==> true);
    match b {
        Board::Lm3s6965evb => {},
        Board::Lpc1768 => {
            assert("lpc1768"@ != "lm3s6965evb"@) by {
                assert("lpc1768"@.len() != "lm3s6965evb"@.len());
            }
        },
        Board::Stm32f429zi => {
            assert("stm32f429zi"@ != "lm3s6965evb"@) by {
                assert("stm32f429zi"@[0] != "lm3s6965evb"@[0]);
            }
            assert("stm32f429zi"@ != "lpc1768"@) by {
                assert("stm32f429zi"@.len() != "lpc1768"@.len());
            }
        },
    }
}

} // verus!
