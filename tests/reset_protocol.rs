use e1000::ops::{HwError, RegOp};
use e1000::regs::{
    E1000_CTRL, E1000_CTRL_RST, E1000_ICR, E1000_IMC, E1000_MANC, E1000_RCTL, E1000_STATUS,
    E1000_TCTL, E1000_TCTL_PSP,
};
use e1000::reset::{ResetSeq, RESET_STEPS};

const CTRL_VALUE: u32 = 0x0014_0241;
const MANC_VALUE: u32 = 0x0000_2301;

/// Runs a reset against a register file that answers CTRL and MANC reads
/// with fixed values, and returns every access made.
fn run_reset(fail_at: Option<usize>) -> (Vec<RegOp>, Result<(), HwError>) {
    let mut seq = ResetSeq::new();
    let mut ops = Vec::new();
    while let Some(op) = seq.next_op() {
        let outcome = if fail_at == Some(ops.len()) {
            Err(HwError::Access)
        } else {
            match op {
                RegOp::MmioRead { offset } if offset == E1000_CTRL => Ok(CTRL_VALUE),
                RegOp::MmioRead { offset } if offset == E1000_MANC => Ok(MANC_VALUE),
                _ => Ok(0),
            }
        };
        ops.push(op);
        seq.advance(outcome);
    }
    (ops, seq.outcome().unwrap())
}

#[test]
fn reset_masks_and_disables_before_global_reset() {
    let (ops, outcome) = run_reset(None);
    assert_eq!(outcome, Ok(()));
    assert_eq!(ops[0], RegOp::MmioWrite { offset: E1000_IMC, value: 0xFFFF_FFFF });
    assert_eq!(ops[1], RegOp::MmioWrite { offset: E1000_RCTL, value: 0 });
    assert_eq!(ops[2], RegOp::MmioWrite { offset: E1000_TCTL, value: E1000_TCTL_PSP });
    assert_eq!(E1000_TCTL_PSP, 0x8);
    let reset_at = ops
        .iter()
        .position(|op| *op == RegOp::PortWrite { port: 4, value: CTRL_VALUE | E1000_CTRL_RST })
        .expect("global reset issued through the I/O port");
    assert!(reset_at > 2);
    assert_eq!(ops[reset_at - 1], RegOp::PortWrite { port: 0, value: E1000_CTRL as u32 });
    // The reset bit never goes through the memory-mapped path.
    assert!(!ops.iter().any(|op| matches!(op, RegOp::MmioWrite { offset, .. } if *offset == E1000_CTRL)));
}

#[test]
fn reset_full_sequence() {
    let (ops, outcome) = run_reset(None);
    assert_eq!(outcome, Ok(()));
    let expected = vec![
        RegOp::MmioWrite { offset: E1000_IMC, value: 0xFFFF_FFFF },
        RegOp::MmioWrite { offset: E1000_RCTL, value: 0 },
        RegOp::MmioWrite { offset: E1000_TCTL, value: 0x8 },
        RegOp::MmioRead { offset: E1000_STATUS },
        RegOp::Delay { ms: 10 },
        RegOp::MmioRead { offset: E1000_CTRL },
        RegOp::PortWrite { port: 0, value: 0 },
        RegOp::PortWrite { port: 4, value: 0x0414_0241 },
        RegOp::Delay { ms: 5 },
        RegOp::MmioRead { offset: E1000_MANC },
        RegOp::MmioWrite { offset: E1000_MANC, value: 0x0000_0301 },
        RegOp::MmioWrite { offset: E1000_IMC, value: 0xFFFF_FFFF },
        RegOp::MmioRead { offset: E1000_ICR },
    ];
    assert_eq!(ops, expected);
    assert_eq!(ops.len(), RESET_STEPS);
}

#[test]
fn reset_stops_at_first_failed_access() {
    let (ops, outcome) = run_reset(Some(5));
    assert_eq!(outcome, Err(HwError::Access));
    assert_eq!(ops.len(), 6);
    assert_eq!(ops[5], RegOp::MmioRead { offset: E1000_CTRL });
}

#[test]
fn reset_not_finished_until_all_steps() {
    let mut seq = ResetSeq::new();
    assert_eq!(seq.outcome(), None);
    seq.advance(Ok(0));
    assert_eq!(seq.outcome(), None);
    assert_eq!(seq.next_op(), Some(RegOp::MmioWrite { offset: E1000_RCTL, value: 0 }));
}
