//! The greeter entry point, as a decision: from the (ignored) argument
//! count to everything the program may observably do.

use vstd::prelude::*;
use crate::message::greeting_text;
use crate::message::Message;

verus! {

/// Everything one run of the program does that the surrounding
/// environment can observe: the bytes written to standard output, the
/// bytes written to standard error, and the process exit status.
pub struct Effect {
    pub stdout: Vec<u8>,
    pub stderr: Vec<u8>,
    pub status: i32,
}

/// The line the program writes to standard output: the greeting text
/// followed by a single newline, as the line printer produces it.
pub open spec fn expected_stdout() -> Seq<u8> {
    greeting_text().push(10u8)
}

/// The observable effect of a run with `argc` arguments, as a
/// mathematical function: the arguments play no part in it.
pub open spec fn run_model(argc: usize) -> (Seq<u8>, Seq<u8>, int) {
    (expected_stdout(), Seq::<u8>::empty(), 0int)
}

/// Arguments are accepted but never inspected: two runs, however their
/// argument counts differ, have the same output and the same status.
pub proof fn lemma_args_ignored(a: usize, b: usize)
    ensures
        run_model(a) == run_model(b),
{
}

/// Decides the whole observable behaviour of the program: the greeting
/// line on standard output, nothing on standard error, exit status 0,
/// whatever `argc` is.
pub fn run(argc: usize) -> (e: Effect)
    ensures
        e.stdout@ == run_model(argc).0,
        e.stderr@ == run_model(argc).1,
        e.status as int == run_model(argc).2,
        e.stdout@ == expected_stdout(),
        e.stderr@ == Seq::<u8>::empty(),
        e.status == 0,
{
    let m = Message::greeting();
    let stdout = line_of(&m);
    Effect { stdout, stderr: Vec::new(), status: 0 }
}

/// Turns a message into the line its printing produces: the text
/// bytes, terminator dropped, with a newline appended.
pub fn line_of(m: &Message) -> (line: Vec<u8>)
    requires
        m.wf(),
    ensures
        line@ == m.text().push(10u8),
{
    let bytes = m.as_bytes();
    let mut line: Vec<u8> = Vec::new();
    let mut i: usize = 0;
    while i < bytes.len() - 1
        invariant
            m.wf(),
            bytes@ == m.bytes_view(),
            i <= bytes@.len() - 1,
            line@ == m.text().take(i as int),
        decreases bytes@.len() - 1 - i,
    {
        line.push(bytes[i]);
        i = i + 1;
        proof {
            assert(line@ =~= m.text().take(i as int));
        }
    }
    line.push(10u8);
    proof {
        assert(m.text().take(m.text().len() as int) =~= m.text());
    }
    line
}

} // verus!
