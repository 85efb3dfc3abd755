use firmware_core::fault::{format_hex, handle_fault, render, FaultContext, REPORT_LEN};

fn sample() -> FaultContext {
    FaultContext {
        r0: 1,
        r1: 2,
        r2: 3,
        r3: 4,
        r12: 12,
        lr: 0xffff_fff9,
        pc: 0x0800_0a3c,
        xpsr: 0x2100_0000,
    }
}

#[test]
fn hex_of_zero_is_eight_zeros() {
    assert_eq!(&format_hex(0), b"00000000");
}

#[test]
fn hex_of_max_is_eight_fs() {
    assert_eq!(&format_hex(u32::MAX), b"ffffffff");
}

#[test]
fn hex_is_most_significant_digit_first() {
    assert_eq!(&format_hex(0x0800_0a3c), b"08000a3c");
    assert_eq!(&format_hex(0x1234_5678), b"12345678");
    assert_eq!(&format_hex(0x9abc_def0), b"9abcdef0");
    assert_eq!(&format_hex(1), b"00000001");
    assert_eq!(&format_hex(0x8000_0000), b"80000000");
}

#[test]
fn hex_agrees_with_the_standard_formatter() {
    for value in [0u32, 9, 10, 15, 16, 255, 4096, 0xdead_beef, 0x0fed_cba9, u32::MAX - 1] {
        assert_eq!(format_hex(value).to_vec(), format!("{:08x}", value).into_bytes());
    }
}

#[test]
fn report_names_every_register_in_order() {
    let line = render(&sample());
    let expected: &[u8] = b"fault pc=08000a3c lr=fffffff9 xpsr=21000000 \
r0=00000001 r1=00000002 r2=00000003 r3=00000004 r12=0000000c";
    assert_eq!(&line[..], expected);
}

#[test]
fn report_has_fixed_length_and_is_printable() {
    assert_eq!(REPORT_LEN, 104);
    let all_ones = FaultContext {
        r0: u32::MAX,
        r1: u32::MAX,
        r2: u32::MAX,
        r3: u32::MAX,
        r12: u32::MAX,
        lr: u32::MAX,
        pc: u32::MAX,
        xpsr: u32::MAX,
    };
    for context in [sample(), all_ones] {
        let line = render(&context);
        assert_eq!(line.len(), REPORT_LEN);
        assert!(line.iter().all(|byte| (0x20..0x7f).contains(byte)));
    }
}

fn no_transport() -> Option<fn(&[u8; REPORT_LEN])> {
    None
}

#[test]
fn handler_captures_the_context_and_orders_the_halt() {
    let halt = handle_fault(sample(), no_transport());
    assert_eq!(halt.context, sample());
    assert_eq!(halt.report, render(&sample()));
}

#[test]
fn handler_offers_the_line_to_the_transport_once() {
    let mut emitted: Vec<Vec<u8>> = Vec::new();
    let halt = handle_fault(sample(), Some(|line: &[u8; REPORT_LEN]| emitted.push(line.to_vec())));
    assert_eq!(emitted.len(), 1);
    assert_eq!(emitted[0], render(&sample()).to_vec());
    assert_eq!(emitted[0], halt.report.to_vec());
}

#[test]
fn handler_behaves_the_same_without_a_transport() {
    let with = handle_fault(sample(), Some(|_line: &[u8; REPORT_LEN]| {}));
    let without = handle_fault(sample(), no_transport());
    assert_eq!(with, without);
}

#[test]
fn handler_keeps_registers_apart() {
    let mut context = sample();
    context.r0 = 0xaaaa_aaaa;
    context.r12 = 0x5555_5555;
    let halt = handle_fault(context, no_transport());
    assert_eq!(halt.context.r0, 0xaaaa_aaaa);
    assert_eq!(halt.context.r12, 0x5555_5555);
    let text = String::from_utf8(halt.report.to_vec()).unwrap();
    assert!(text.starts_with("fault pc=08000a3c "));
    assert!(text.contains(" r0=aaaaaaaa "));
    assert!(text.ends_with(" r12=55555555"));
}
