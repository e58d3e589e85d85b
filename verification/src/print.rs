//! Text output: a UART as a sink for bytes, and a fixed buffer that collects
//! formatted text without allocating.

use vstd::prelude::*;
use vstd::string::StringSliceAdditionalSpecFns;
use vstd::utf8::valid_utf8;
use crate::bus::{BusState, RegisterBus};
use crate::peripherals::regs::{UART_DR_OFFSET, UART_FR_OFFSET, Uart, reg_addr};
use crate::peripherals::uart::UartFlag;

verus! {

/// The bus after the bytes `bytes[..n]` have been sent, one after the other,
/// through the UART at `base`: before each byte the transmit FIFO is awaited
/// to have room.
pub open spec fn bytes_sent(s: BusState, base: u32, bytes: Seq<u8>, n: nat) -> BusState
    decreases n,
{
    if n == 0 {
        s
    } else {
        bytes_sent(s, base, bytes, (n - 1) as nat).settle(
            reg_addr(base, UART_FR_OFFSET),
            UartFlag::TxFifoFull.bits(),
            0,
        ).write(reg_addr(base, UART_DR_OFFSET), bytes[n - 1] as u32)
    }
}

impl Uart {
    /// Sends the bytes of `s` in their order.
    pub fn write_str<B: RegisterBus>(&self, bus: &mut B, s: &str)
        ensures
            final(bus)@ == bytes_sent(old(bus)@, self.base(), s.spec_bytes(), s.spec_bytes().len()),
    {
        let bytes = s.as_bytes();
        let mut i: usize = 0;
        while i < bytes.len()
            invariant
                i <= bytes.len(),
                bytes@ == s.spec_bytes(),
                bus@ == bytes_sent(old(bus)@, self.base(), bytes@, i as nat),
            decreases bytes.len() - i,
        {
            self.send_data(bus, bytes[i]);
            i += 1;
        }
    }
}

/// A writer into a byte buffer of fixed length. What does not fit is
/// dropped.
pub struct StringBuffer<'a> {
    buffer: &'a mut [u8],
    pos: usize,
}

/// The bytes of a buffer that holds `written` and has room for `capacity`
/// bytes in all, after `bytes` have been offered to it: as many of them as
/// still fit are appended, in their order.
pub open spec fn appended(written: Seq<u8>, capacity: nat, bytes: Seq<u8>) -> Seq<u8> {
    if written.len() + bytes.len() <= capacity {
        written + bytes
    } else {
        written + bytes.subrange(0, capacity - written.len())
    }
}

/// `core::str::from_utf8`: the string over the same bytes, if they are valid
/// UTF-8, and nothing if they are not.
#[verifier::external_body]
fn utf8_text(bytes: &[u8]) -> (text: Option<&str>)
    ensures
        text is Some <==> valid_utf8(bytes@),
        text matches Some(t) ==> t.spec_bytes() == bytes@,
{
    core::str::from_utf8(bytes).ok()
}

impl<'a> StringBuffer<'a> {
    /// The bytes written so far.
    pub closed spec fn written(&self) -> Seq<u8> {
        self.buffer@.subrange(0, self.pos as int)
    }

    /// The number of bytes the buffer has room for.
    pub closed spec fn capacity(&self) -> nat {
        self.buffer@.len()
    }

    /// No more has been written than there is room for.
    #[verifier::type_invariant]
    spec fn wf(&self) -> bool {
        self.pos <= self.buffer@.len()
    }

    /// An empty writer into `buffer`.
    pub fn new(buffer: &'a mut [u8]) -> (sb: Self)
        ensures
            sb.written() == Seq::<u8>::empty(),
            sb.capacity() == old(buffer)@.len(),
    {
        Self { buffer, pos: 0 }
    }

    /// Appends the bytes of `s` as far as they fit.
    pub fn write_str(&mut self, s: &str)
        ensures
            final(self).capacity() == old(self).capacity(),
            final(self).written() == appended(
                old(self).written(),
                old(self).capacity(),
                s.spec_bytes(),
            ),
    {
        proof {
            use_type_invariant(&*self);
        }
        let bytes = s.as_bytes();
        let mut i: usize = 0;
        while i < bytes.len() && self.pos < self.buffer.len()
            invariant
                i <= bytes.len(),
                bytes@ == s.spec_bytes(),
                self.pos <= self.buffer@.len(),
                self.capacity() == old(self).capacity(),
                self.pos == old(self).pos + i,
                self.written() == old(self).written() + bytes@.subrange(0, i as int),
            decreases bytes.len() - i,
        {
            let ghost before = self.written();
            self.buffer[self.pos] = bytes[i];
            self.pos += 1;
            i += 1;
            assert(self.written() =~= before.push(bytes@[i - 1]));
            assert(bytes@.subrange(0, i as int) =~= bytes@.subrange(0, i - 1).push(bytes@[i - 1]));
        }
        assert(self.written() =~= appended(
            old(self).written(),
            old(self).capacity(),
            s.spec_bytes(),
        ));
    }

    /// The text written so far, or the empty string if it is not UTF-8, as
    /// it is not where a character was cut in two at the end of the buffer.
    pub fn as_str(&self) -> (text: &str)
        ensures
            valid_utf8(self.written()) ==> text.spec_bytes() == self.written(),
            !valid_utf8(self.written()) ==> text@ == Seq::<char>::empty(),
    {
        proof {
            use_type_invariant(self);
            reveal_strlit("");
        }
        let written = vstd::slice::slice_subrange(&*self.buffer, 0, self.pos);
        match utf8_text(written) {
            Some(text) => text,
            None => "",
        }
    }
}

} // verus!
