use exact::agent::{
    case_result_message, choose_transport, default_board, default_cclk_hz, extract_pty,
    hello_message, is_synthetic_board, job_case_parts, job_digest, map_case_status,
    map_run_status_from_byte, on_server_message, parse_board, run_error_message,
    run_result_message, sha256, synthetic_cycles, CaseFrame, JobReq, SessionStep, StatusCodes,
    TransportError, TransportPlan, MIN_CYCLES, SPREAD,
};
use exact::proto::{board_str, Board, CaseInput, CaseStatus, RunStatus, RunnerToServer, ServerToRunner};
use std::hash::Hasher;
use uuid::Uuid;

fn codes() -> StatusCodes {
    StatusCodes { ok: 0, timeout: 1, memfault: 2, busfault: 3, usagefault: 4, load_error: 5 }
}

#[test]
fn parses_macos_announcement() {
    let line = "char device redirected to /dev/ttys032 (label compat_monitor0)\n";
    assert_eq!(extract_pty(line), Some("/dev/ttys032".to_string()));
}

#[test]
fn extract_pty_finds_linux_pty_after_other_text() {
    let line = "qemu: char device redirected to /dev/pts/7 (label serial0)";
    assert_eq!(extract_pty(line), Some("/dev/pts/7".to_string()));
}

#[test]
fn extract_pty_without_announcement_is_none() {
    assert_eq!(extract_pty("QEMU 8.2.0 monitor - type 'help'\n"), None);
    assert_eq!(extract_pty(""), None);
}

#[test]
fn extract_pty_with_empty_path_is_none() {
    assert_eq!(extract_pty("char device redirected to  (label x)"), None);
    assert_eq!(extract_pty("char device redirected to "), None);
}

#[test]
fn extract_pty_stops_at_unicode_space() {
    assert_eq!(extract_pty("char device redirected to /dev/a\u{2003}b"), Some("/dev/a".to_string()));
}

#[test]
fn default_board_depends_on_emulator() {
    assert_eq!(default_board(true), Board::Lm3s6965evb);
    assert_eq!(default_board(false), Board::Lpc1768);
}

#[test]
fn parse_board_reads_each_name() {
    assert_eq!(parse_board("lm3s6965evb").unwrap(), Board::Lm3s6965evb);
    assert_eq!(parse_board("lpc1768").unwrap(), Board::Lpc1768);
    assert_eq!(parse_board("stm32f429zi").unwrap(), Board::Stm32f429zi);
}

#[test]
fn parse_board_refuses_unknown_names() {
    let e = parse_board("LPC1768").unwrap_err();
    assert_eq!(e.name, "LPC1768");
    assert!(parse_board("").is_err());
}

#[test]
fn board_names_read_back() {
    for b in [Board::Lm3s6965evb, Board::Lpc1768, Board::Stm32f429zi] {
        assert_eq!(parse_board(board_str(b)).unwrap(), b);
    }
}

#[test]
fn default_clocks() {
    assert_eq!(default_cclk_hz(Board::Lm3s6965evb), 12_000_000);
    assert_eq!(default_cclk_hz(Board::Lpc1768), 96_000_000);
    assert_eq!(default_cclk_hz(Board::Stm32f429zi), 168_000_000);
}

#[test]
fn status_bytes_map_to_statuses() {
    let c = codes();
    assert_eq!(map_case_status(0, &c), CaseStatus::Okay);
    assert_eq!(map_case_status(1, &c), CaseStatus::Timeout);
    assert_eq!(map_case_status(2, &c), CaseStatus::Memfault);
    assert_eq!(map_case_status(3, &c), CaseStatus::Busfault);
    assert_eq!(map_case_status(4, &c), CaseStatus::Usagefault);
    assert_eq!(map_case_status(5, &c), CaseStatus::LoadError);
    assert_eq!(map_case_status(200, &c), CaseStatus::LoadError);
    assert_eq!(map_run_status_from_byte(0, &c), RunStatus::Okay);
    assert_eq!(map_run_status_from_byte(3, &c), RunStatus::Busfault);
    assert_eq!(map_run_status_from_byte(99, &c), RunStatus::LoadError);
}

#[test]
fn sha256_of_abc() {
    let d = sha256(b"abc");
    assert_eq!(
        d,
        [
            0xba, 0x78, 0x16, 0xbf, 0x8f, 0x01, 0xcf, 0xea, 0x41, 0x41, 0x40, 0xde, 0x5d, 0xae,
            0x22, 0x23, 0xb0, 0x03, 0x61, 0xa3, 0x96, 0x17, 0x7a, 0x9c, 0xb4, 0x10, 0xff, 0x61,
            0xf2, 0x00, 0x15, 0xad
        ]
    );
}

#[test]
fn synthetic_cycles_match_keyed_siphash() {
    let sha = sha256(b"some binary");
    let input = [1u8, 2, 3, 4];
    let k0 = u64::from_le_bytes(sha[0..8].try_into().unwrap());
    let k1 = u64::from_le_bytes(sha[8..16].try_into().unwrap());
    let mut h = siphasher::sip::SipHasher24::new_with_keys(k0, k1);
    h.write(b"exact-synthetic");
    h.write(&input);
    let expected = 5_000 + h.finish() % 50_000;
    let c = synthetic_cycles(&sha, &input);
    assert_eq!(c, expected);
    assert!(c >= MIN_CYCLES && c < MIN_CYCLES + SPREAD);
    assert_eq!(synthetic_cycles(&sha, &input), c);
}

#[test]
fn synthetic_cycles_stay_in_range() {
    let sha = sha256(b"");
    for n in 0..50u8 {
        let input: Vec<u8> = (0..n).collect();
        let c = synthetic_cycles(&sha, &input);
        assert!((5_000..55_000).contains(&c));
    }
}

#[test]
fn synthetic_cycles_read_only_the_first_sixteen_digest_bytes() {
    let a = sha256(b"firmware");
    let mut b = a;
    for byte in b[16..].iter_mut() {
        *byte = byte.wrapping_add(1);
    }
    let mut c = a;
    c[3] ^= 0x80;
    for input in [&b""[..], &b"\x01\x02\x03"[..], &b"abcdefgh"[..]] {
        assert_eq!(synthetic_cycles(&a, input), synthetic_cycles(&b, input));
    }
    assert_ne!(synthetic_cycles(&a, b"abcdefgh"), synthetic_cycles(&c, b"abcdefgh"));
}

#[test]
fn hello_carries_identity() {
    match hello_message("lpc1768-pi", Board::Lpc1768, 96_000_000, "0.1.0") {
        RunnerToServer::Hello { device_id, board, cclk_hz, version } => {
            assert_eq!(device_id, "lpc1768-pi");
            assert_eq!(board, Board::Lpc1768);
            assert_eq!(cclk_hz, 96_000_000);
            assert_eq!(version, "0.1.0");
        }
        other => panic!("unexpected {other:?}"),
    }
}

#[test]
fn assigned_job_is_run_synthetic_only_on_emulated_board() {
    let id = Uuid::from_u128(7);
    let msg = ServerToRunner::AssignJob {
        job_id: id,
        bin: vec![1, 2, 3],
        cases: vec![CaseInput { ord: 0, input: vec![9] }],
        total_timeout_ms: 500,
    };
    match on_server_message(Board::Lm3s6965evb, msg.clone()) {
        SessionStep::Run(r) => {
            assert_eq!(r.job_id, id);
            assert_eq!(r.bin, vec![1, 2, 3]);
            assert_eq!(r.cases.len(), 1);
            assert_eq!(r.total_timeout_ms, 500);
            assert!(r.synthetic);
        }
        other => panic!("unexpected {other:?}"),
    }
    match on_server_message(Board::Lpc1768, msg) {
        SessionStep::Run(r) => assert!(!r.synthetic),
        other => panic!("unexpected {other:?}"),
    }
    assert!(is_synthetic_board(Board::Lm3s6965evb));
    assert!(!is_synthetic_board(Board::Stm32f429zi));
}

#[test]
fn cancel_and_ping_do_nothing() {
    let id = Uuid::from_u128(3);
    assert!(matches!(
        on_server_message(Board::Lpc1768, ServerToRunner::Cancel { job_id: id }),
        SessionStep::IgnoreCancel(j) if j == id
    ));
    assert!(matches!(on_server_message(Board::Lpc1768, ServerToRunner::Ping), SessionStep::Idle));
}

#[test]
fn job_parts_keep_order() {
    let (inputs, ords) = job_case_parts(vec![
        CaseInput { ord: 4, input: vec![1] },
        CaseInput { ord: 2, input: vec![2, 3] },
    ]);
    assert_eq!(inputs, vec![vec![1], vec![2, 3]]);
    assert_eq!(ords, vec![4, 2]);
}

#[test]
fn case_result_on_hardware_keeps_device_cycles() {
    let id = Uuid::from_u128(11);
    let frame = CaseFrame { status: 2, exit_code: 3, cycles: 1234 };
    let m = case_result_message(id, &vec![5], &vec![vec![1]], 0, frame, b"out", &None, &codes());
    match m {
        RunnerToServer::CaseResult { job_id, case_ord, status, exit_code, cycles, output, synthetic } => {
            assert_eq!(job_id, id);
            assert_eq!(case_ord, 5);
            assert_eq!(status, CaseStatus::Memfault);
            assert_eq!(exit_code, 3);
            assert_eq!(cycles, 1234);
            assert_eq!(output, b"out".to_vec());
            assert!(!synthetic);
        }
        other => panic!("unexpected {other:?}"),
    }
}

#[test]
fn case_result_on_emulator_fabricates_cycles() {
    let id = Uuid::from_u128(12);
    let req = JobReq { job_id: id, bin: vec![0xAA; 10], cases: vec![], total_timeout_ms: 1, synthetic: true };
    let sha = job_digest(&req);
    assert_eq!(sha, Some(sha256(&req.bin)));
    let frame = CaseFrame { status: 0, exit_code: 0, cycles: 0 };
    let m = case_result_message(id, &vec![], &vec![vec![7, 7]], 3, frame, b"", &sha, &codes());
    match m {
        RunnerToServer::CaseResult { case_ord, cycles, synthetic, status, .. } => {
            assert_eq!(case_ord, 3);
            assert_eq!(status, CaseStatus::Okay);
            assert_eq!(cycles, synthetic_cycles(&sha.unwrap(), &[]));
            assert!(synthetic);
        }
        other => panic!("unexpected {other:?}"),
    }
    let plain = JobReq { synthetic: false, ..req };
    assert_eq!(job_digest(&plain), None);
}

#[test]
fn run_close_messages() {
    let id = Uuid::from_u128(13);
    match run_result_message(id, 1, 12_000_000, &codes()) {
        RunnerToServer::RunResult { job_id, overall, cclk_hz } => {
            assert_eq!(job_id, id);
            assert_eq!(overall, RunStatus::Timeout);
            assert_eq!(cclk_hz, 12_000_000);
        }
        other => panic!("unexpected {other:?}"),
    }
    match run_error_message(id, "device gone".to_string()) {
        RunnerToServer::Error { job_id, reason } => {
            assert_eq!(job_id, Some(id));
            assert_eq!(reason, "device gone");
        }
        other => panic!("unexpected {other:?}"),
    }
}

#[test]
fn transport_needs_kernel_or_port() {
    assert!(matches!(
        choose_transport(true, Some("kernel.elf"), None),
        Ok(TransportPlan::Emulator { kernel: "kernel.elf" })
    ));
    assert!(matches!(
        choose_transport::<&str>(true, None, Some("/dev/ttyACM0".to_string())),
        Err(TransportError::MissingKernel)
    ));
    assert!(matches!(
        choose_transport::<&str>(false, None, Some("/dev/ttyACM0".to_string())),
        Ok(TransportPlan::Serial { port }) if port == "/dev/ttyACM0"
    ));
    assert!(matches!(
        choose_transport(false, Some("k"), None),
        Err(TransportError::MissingSerialPort)
    ));
}
