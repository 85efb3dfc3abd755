//! The fault path.
//!
//! When the hardware signals an unrecoverable fault the runtime calls the
//! fault handler with the registers it stacked. The handler captures them,
//! puts them into one line of text, offers the line to the logging transport
//! if the platform has one, and orders the halt. Nothing here allocates, and
//! nothing here looks at the shared state: the fault may have struck in the
//! middle of a critical section.
//!
//! Halting is not something a function can do and return from. The handler
//! returns a `Halt`; the platform, on receiving it, must never return.

use vstd::prelude::*;

verus! {

/// The registers stacked by the processor when the fault was taken.
#[derive(Clone, Copy, Debug, PartialEq, Eq, Structural)]
pub struct FaultContext {
    pub r0: u32,
    pub r1: u32,
    pub r2: u32,
    pub r3: u32,
    pub r12: u32,
    /// The link register.
    pub lr: u32,
    /// The program counter.
    pub pc: u32,
    /// The program status register.
    pub xpsr: u32,
}

/// The length of the diagnostic line, in bytes.
pub const REPORT_LEN: usize = 104;

/// The ASCII code of the hexadecimal digit for `nibble`, in lower case.
pub open spec fn hex_digit(nibble: nat) -> u8 {
    if nibble < 10 {
        ('0' as u8 + nibble) as u8
    } else {
        ('a' as u8 + nibble - 10) as u8
    }
}

/// `value` modulo `16^width` in hexadecimal: `width` digits, most significant
/// first, padded with zeros on the left.
pub open spec fn hex_digits(value: nat, width: nat) -> Seq<u8>
    decreases width,
{
    if width == 0 {
        Seq::empty()
    } else {
        hex_digits(value / 16, (width - 1) as nat).push(hex_digit(value % 16))
    }
}

/// A register value as eight hexadecimal digits.
pub open spec fn hex_word(value: u32) -> Seq<u8> {
    hex_digits(value as nat, 8)
}

/// The diagnostic line for `context`: the word `fault`, then each register
/// by name with its value in hexadecimal, as in
/// `fault pc=08000a3c lr=fffffff9 xpsr=21000000 r0=…`.
pub open spec fn report_text(context: FaultContext) -> Seq<u8> {
    seq!['f' as u8, 'a' as u8, 'u' as u8, 'l' as u8, 't' as u8]
        + seq![' ' as u8, 'p' as u8, 'c' as u8, '=' as u8] + hex_word(context.pc)
        + seq![' ' as u8, 'l' as u8, 'r' as u8, '=' as u8] + hex_word(context.lr)
        + seq![' ' as u8, 'x' as u8, 'p' as u8, 's' as u8, 'r' as u8, '=' as u8] + hex_word(context.xpsr)
        + seq![' ' as u8, 'r' as u8, '0' as u8, '=' as u8] + hex_word(context.r0)
        + seq![' ' as u8, 'r' as u8, '1' as u8, '=' as u8] + hex_word(context.r1)
        + seq![' ' as u8, 'r' as u8, '2' as u8, '=' as u8] + hex_word(context.r2)
        + seq![' ' as u8, 'r' as u8, '3' as u8, '=' as u8] + hex_word(context.r3)
        + seq![' ' as u8, 'r' as u8, '1' as u8, '2' as u8, '=' as u8] + hex_word(context.r12)
}

/// Whether `byte` is a printable ASCII character.
pub open spec fn printable(byte: u8) -> bool {
    0x20 <= byte < 0x7f
}

/// The order to halt, with what the handler captured. Whoever receives it
/// must stop the device for good and never return to its caller.
#[derive(Clone, Copy, Debug, PartialEq, Eq)]
pub struct Halt {
    /// The registers as they were handed to the handler.
    pub context: FaultContext,
    /// The diagnostic line, as it was offered to the logging transport.
    pub report: [u8; REPORT_LEN],
}

/// The ASCII code of the hexadecimal digit for `nibble`, in lower case.
fn hex_digit_of(nibble: u8) -> (digit: u8)
    requires
        nibble < 16,
    ensures
        digit == hex_digit(nibble as nat),
{
    if nibble < 10 {
        '0' as u8 + nibble
    } else {
        'a' as u8 + (nibble - 10)
    }
}

/// A line of text under construction in a buffer of fixed size.
struct Line {
    bytes: [u8; REPORT_LEN],
    len: usize,
}

impl Line {
    spec fn wf(&self) -> bool {
        self.len <= REPORT_LEN
    }

    /// The text written so far.
    spec fn text(&self) -> Seq<u8> {
        self.bytes@.subrange(0, self.len as int)
    }

    fn new() -> (line: Line)
        ensures
            line.wf(),
            line.len == 0,
            line.text() == Seq::<u8>::empty(),
    {
        let line = Line { bytes: [0u8; REPORT_LEN], len: 0 };
        assert(line.text() =~= Seq::<u8>::empty());
        line
    }

    /// Appends `bytes` to the text.
    fn push_bytes(&mut self, bytes: &[u8])
        requires
            old(self).wf(),
            old(self).len + bytes@.len() <= REPORT_LEN,
        ensures
            final(self).wf(),
            final(self).len == old(self).len + bytes@.len(),
            final(self).text() == old(self).text() + bytes@,
    {
        let mut i: usize = 0;
        while i < bytes.len()
            invariant
                i <= bytes@.len(),
                self.len == old(self).len + i,
                old(self).len + bytes@.len() <= REPORT_LEN,
                self.text() == old(self).text() + bytes@.subrange(0, i as int),
            decreases bytes@.len() - i,
        {
            let ghost before = self.text();
            self.bytes[self.len] = bytes[i];
            self.len = self.len + 1;
            i = i + 1;
            assert(self.text() =~= before.push(bytes@[i - 1]));
            assert(bytes@.subrange(0, i as int) =~= bytes@.subrange(0, i - 1).push(bytes@[i - 1]));
        }
        assert(bytes@.subrange(0, i as int) =~= bytes@);
    }

    /// Appends `value` as eight hexadecimal digits.
    fn push_hex(&mut self, value: u32)
        requires
            old(self).wf(),
            old(self).len + 8 <= REPORT_LEN,
        ensures
            final(self).wf(),
            final(self).len == old(self).len + 8,
            final(self).text() == old(self).text() + hex_word(value),
    {
        let digits = format_hex(value);
        self.push_bytes(&digits);
    }
}

/// Writes `value` as eight hexadecimal digits, most significant first.
pub fn format_hex(value: u32) -> (digits: [u8; 8])
    ensures
        digits@ == hex_word(value),
{
    let mut digits = [0u8; 8];
    let mut rest: u32 = value;
    let mut written: usize = 0;
    assert(hex_digits(rest as nat, 8) + digits@.subrange(8, 8) =~= hex_word(value));
    while written < 8
        invariant
            written <= 8,
            hex_word(value) == hex_digits(rest as nat, (8 - written) as nat) + digits@.subrange(
                8 - written,
                8,
            ),
        decreases 8 - written,
    {
        let ghost before = digits@;
        let digit = hex_digit_of((rest % 16) as u8);
        digits[7 - written] = digit;
        assert(digits@.subrange(7 - written, 8) =~= seq![digit] + before.subrange(8 - written, 8));
        assert(hex_digits(rest as nat, (8 - written) as nat) == hex_digits(
            rest as nat / 16,
            (7 - written) as nat,
        ).push(digit));
        assert(hex_digits(rest as nat / 16, (7 - written) as nat).push(digit) + before.subrange(
            8 - written,
            8,
        ) =~= hex_digits(rest as nat / 16, (7 - written) as nat) + (seq![digit] + before.subrange(
            8 - written,
            8,
        )));
        rest = rest / 16;
        written = written + 1;
    }
    assert(digits@.subrange(0, 8) =~= digits@);
    assert(hex_digits(rest as nat, 0) + digits@ =~= digits@);
    digits
}

/// Puts `context` into one line of text.
pub fn render(context: &FaultContext) -> (line: [u8; REPORT_LEN])
    ensures
        line@ == report_text(*context),
{
    let mut line = Line::new();
    let fault = ['f' as u8, 'a' as u8, 'u' as u8, 'l' as u8, 't' as u8];
    let pc = [' ' as u8, 'p' as u8, 'c' as u8, '=' as u8];
    let lr = [' ' as u8, 'l' as u8, 'r' as u8, '=' as u8];
    let xpsr = [' ' as u8, 'x' as u8, 'p' as u8, 's' as u8, 'r' as u8, '=' as u8];
    let r0 = [' ' as u8, 'r' as u8, '0' as u8, '=' as u8];
    let r1 = [' ' as u8, 'r' as u8, '1' as u8, '=' as u8];
    let r2 = [' ' as u8, 'r' as u8, '2' as u8, '=' as u8];
    let r3 = [' ' as u8, 'r' as u8, '3' as u8, '=' as u8];
    let r12 = [' ' as u8, 'r' as u8, '1' as u8, '2' as u8, '=' as u8];
    assert(fault@ =~= seq!['f' as u8, 'a' as u8, 'u' as u8, 'l' as u8, 't' as u8]);
    assert(pc@ =~= seq![' ' as u8, 'p' as u8, 'c' as u8, '=' as u8]);
    assert(lr@ =~= seq![' ' as u8, 'l' as u8, 'r' as u8, '=' as u8]);
    assert(xpsr@ =~= seq![' ' as u8, 'x' as u8, 'p' as u8, 's' as u8, 'r' as u8, '=' as u8]);
    assert(r0@ =~= seq![' ' as u8, 'r' as u8, '0' as u8, '=' as u8]);
    assert(r1@ =~= seq![' ' as u8, 'r' as u8, '1' as u8, '=' as u8]);
    assert(r2@ =~= seq![' ' as u8, 'r' as u8, '2' as u8, '=' as u8]);
    assert(r3@ =~= seq![' ' as u8, 'r' as u8, '3' as u8, '=' as u8]);
    assert(r12@ =~= seq![' ' as u8, 'r' as u8, '1' as u8, '2' as u8, '=' as u8]);
    line.push_bytes(&fault);
    line.push_bytes(&pc);
    line.push_hex(context.pc);
    line.push_bytes(&lr);
    line.push_hex(context.lr);
    line.push_bytes(&xpsr);
    line.push_hex(context.xpsr);
    line.push_bytes(&r0);
    line.push_hex(context.r0);
    line.push_bytes(&r1);
    line.push_hex(context.r1);
    line.push_bytes(&r2);
    line.push_hex(context.r2);
    line.push_bytes(&r3);
    line.push_hex(context.r3);
    line.push_bytes(&r12);
    line.push_hex(context.r12);
    assert(line.bytes@.subrange(0, REPORT_LEN as int) =~= line.bytes@);
    line.bytes
}

/// Handles an unrecoverable hardware fault: captures `context`, formats the
/// diagnostic line, hands the line to the logging transport `log` if the
/// platform has one, and orders the halt. There is no other outcome, and the
/// outcome is the same with and without a transport.
pub fn handle_fault<L>(context: FaultContext, log: Option<L>) -> (halt: Halt) where
    L: FnOnce(&[u8; REPORT_LEN]),

    requires
        log matches Some(emit) ==> forall|line: [u8; REPORT_LEN]|
            line@ == report_text(context) ==> call_requires(emit, (&line,)),
    ensures
        halt.context == context,
        halt.report@ == report_text(context),
        log matches Some(emit) ==> call_ensures(emit, (&halt.report,), ()),
{
    let report = render(&context);
    match log {
        Some(emit) => emit(&report),
        None => {},
    }
    Halt { context: context, report: report }
}

/// Hexadecimal text has the width asked for and holds printable characters
/// only.
pub proof fn lemma_hex_digits_shape(value: nat, width: nat)
    ensures
        hex_digits(value, width).len() == width,
        forall|i: int| 0 <= i < width ==> printable(#[trigger] hex_digits(value, width)[i]),
    decreases width,
{
    if width > 0 {
        lemma_hex_digits_shape(value / 16, (width - 1) as nat);
    }
}

/// Whatever the registers hold, the diagnostic line has `REPORT_LEN` bytes,
/// all of them printable ASCII.
pub proof fn lemma_report_shape(context: FaultContext)
    ensures
        report_text(context).len() == REPORT_LEN,
        forall|i: int| 0 <= i < REPORT_LEN ==> printable(#[trigger] report_text(context)[i]),
{
    lemma_hex_digits_shape(context.pc as nat, 8);
    lemma_hex_digits_shape(context.lr as nat, 8);
    lemma_hex_digits_shape(context.xpsr as nat, 8);
    lemma_hex_digits_shape(context.r0 as nat, 8);
    lemma_hex_digits_shape(context.r1 as nat, 8);
    lemma_hex_digits_shape(context.r2 as nat, 8);
    lemma_hex_digits_shape(context.r3 as nat, 8);
    lemma_hex_digits_shape(context.r12 as nat, 8);
}

} // verus!
