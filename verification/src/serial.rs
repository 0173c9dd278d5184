use vstd::prelude::*;
use vstd::string::StringSliceAdditionalSpecFns;
use std::collections::VecDeque;

verus! {

/// The console of the firmware: a byte sink and a byte source that never block.
///
/// The console holds no device. Bytes that the platform has received wait in
/// `input` until they are asked for; bytes that were written wait in `output`
/// until the platform has sent them. Until a device is attached, writes are
/// dropped and reads find nothing.
#[derive(Debug)]
pub struct Console {
    pub attached: bool,
    pub input: VecDeque<u8>,
    pub output: Vec<u8>,
}

/// What a console holds, as plain values.
pub struct ConsoleView {
    pub attached: bool,
    /// Received bytes that were not read yet, oldest first.
    pub input: Seq<u8>,
    /// Written bytes that were not sent yet, oldest first.
    pub output: Seq<u8>,
}

impl View for Console {
    type V = ConsoleView;

    open spec fn view(&self) -> ConsoleView {
        ConsoleView { attached: self.attached, input: self.input@, output: self.output@ }
    }
}

impl ConsoleView {
    /// The console after `bytes` were written to it.
    pub open spec fn written(self, bytes: Seq<u8>) -> ConsoleView {
        if self.attached {
            ConsoleView { output: self.output + bytes, ..self }
        } else {
            self
        }
    }

    /// The byte that a read finds, if any.
    pub open spec fn front(self) -> Option<u8> {
        if self.attached && self.input.len() > 0 {
            Some(self.input[0])
        } else {
            None
        }
    }

    /// The console after one read.
    pub open spec fn advanced(self) -> ConsoleView {
        if self.attached && self.input.len() > 0 {
            ConsoleView { input: self.input.skip(1), ..self }
        } else {
            self
        }
    }
}

impl Console {
    /// A console with no device attached and nothing queued.
    pub fn new() -> (console: Console)
        ensures
            !console@.attached,
            console@.input == Seq::<u8>::empty(),
            console@.output == Seq::<u8>::empty(),
    {
        Console { attached: false, input: VecDeque::new(), output: Vec::new() }
    }

    /// Queues a byte that the device has received.
    pub fn receive(&mut self, byte: u8)
        ensures
            final(self)@ == (ConsoleView { input: old(self)@.input.push(byte), ..old(self)@ }),
    {
        self.input.push_back(byte);
    }

    /// Hands out the bytes that wait to be sent, oldest first, and forgets them.
    pub fn take_output(&mut self) -> (bytes: Vec<u8>)
        ensures
            bytes@ == old(self)@.output,
            final(self)@ == (ConsoleView { output: Seq::<u8>::empty(), ..old(self)@ }),
    {
        let mut bytes: Vec<u8> = Vec::new();
        std::mem::swap(&mut self.output, &mut bytes);
        bytes
    }
}

/// Attaches the device and announces it on the console.
pub fn init(console: &mut Console)
    ensures
        final(console)@ == (ConsoleView {
            attached: true,
            output: old(console)@.output + "serial init\n".spec_bytes(),
            ..old(console)@
        }),
{
    console.attached = true;
    print(console, "serial init\n");
}

/// Reads one byte if one is waiting; never blocks.
pub fn getchar(console: &mut Console) -> (byte: Option<u8>)
    ensures
        byte == old(console)@.front(),
        final(console)@ == old(console)@.advanced(),
{
    if console.attached {
        let byte = console.input.pop_front();
        proof {
            if byte.is_some() {
                assert(console.input@ =~= old(console)@.input.skip(1));
            }
        }
        byte
    } else {
        None
    }
}

/// Writes one byte.
pub fn putchar(console: &mut Console, c: u8)
    ensures
        final(console)@ == old(console)@.written(seq![c]),
{
    if console.attached {
        console.output.push(c);
        assert(console.output@ =~= old(console)@.output + seq![c]);
    }
}

/// Writes the bytes of a text, first to last.
pub fn print(console: &mut Console, text: &str)
    ensures
        final(console)@ == old(console)@.written(text.spec_bytes()),
{
    let bytes = text.as_bytes();
    let ghost before = console@;
    let mut i: usize = 0;
    assert(before.written(bytes@.subrange(0, 0)) =~= before) by {
        assert(before.output + bytes@.subrange(0, 0) =~= before.output);
    }
    while i < bytes.len()
        invariant
            i <= bytes.len(),
            bytes@ == text.spec_bytes(),
            console@ == before.written(bytes@.subrange(0, i as int)),
        decreases bytes.len() - i,
    {
        putchar(console, bytes[i]);
        proof {
            assert(bytes@.subrange(0, i + 1) =~= bytes@.subrange(0, i as int) + seq![bytes@[i as int]]);
            assert(before.output + (bytes@.subrange(0, i as int) + seq![bytes@[i as int]]) =~= (
            before.output + bytes@.subrange(0, i as int)) + seq![bytes@[i as int]]);
        }
        i = i + 1;
    }
    assert(bytes@.subrange(0, i as int) =~= bytes@);
}

/// Bytes come out in the order in which they were written, with nothing
/// added and nothing lost: writing one list and then another is writing the
/// two lists joined.
pub proof fn writes_accumulate(console: ConsoleView, first: Seq<u8>, second: Seq<u8>)
    ensures
        console.written(first).written(second) == console.written(first + second),
        console.written(first).input == console.input,
        console.attached ==> console.written(first).output == console.output + first,
        !console.attached ==> console.written(first) == console,
{
    assert((console.output + first) + second =~= console.output + (first + second));
}

/// A read with nothing queued finds nothing and leaves the console as it
/// was; a read with something queued finds the oldest byte and removes it
/// alone.
pub proof fn reads_are_fifo(console: ConsoleView)
    ensures
        console.input.len() == 0 ==> console.front().is_none() && console.advanced() == console,
        !console.attached ==> console.front().is_none() && console.advanced() == console,
        console.attached && console.input.len() > 0 ==> console.front() == Some(console.input[0])
            && seq![console.input[0]] + console.advanced().input == console.input,
        console.advanced().output == console.output,
{
    if console.attached && console.input.len() > 0 {
        assert(seq![console.input[0]] + console.input.skip(1) =~= console.input);
    }
}

} // verus!
