//! The greeting message, in the form a C-style line printer expects:
//! the text bytes followed by a single zero terminator.

use vstd::prelude::*;

verus! {

/// The greeting text as bytes: `Hello Rust!`.
pub open spec fn greeting_text() -> Seq<u8> {
    seq![
        72u8, 101u8, 108u8, 108u8, 111u8, 32u8, 82u8, 117u8, 115u8, 116u8, 33u8,
    ]
}

/// An immutable, null-terminated message. The zero byte marks the end
/// of the text, as the external line-printing contract requires, so no
/// earlier byte may be zero.
pub struct Message {
    bytes: Vec<u8>,
}

impl Message {
    /// The stored bytes, terminator included.
    pub closed spec fn bytes_view(self) -> Seq<u8> {
        self.bytes@
    }

    /// Well-formed: nonempty, terminated by a zero byte, and the
    /// terminator is the only zero byte.
    pub open spec fn wf(self) -> bool {
        &&& self.bytes_view().len() >= 1
        &&& self.bytes_view().last() == 0u8
        &&& forall|i: int|
            0 <= i < self.bytes_view().len() - 1 ==> self.bytes_view()[i] != 0u8
    }

    /// The text carried by the message: everything before the terminator.
    pub open spec fn text(self) -> Seq<u8> {
        self.bytes_view().take(self.bytes_view().len() - 1)
    }

    /// Builds the fixed greeting message.
    pub fn greeting() -> (m: Message)
        ensures
            m.wf(),
            m.text() == greeting_text(),
    {
        let mut bytes: Vec<u8> = Vec::new();
        bytes.push(72u8);
        bytes.push(101u8);
        bytes.push(108u8);
        bytes.push(108u8);
        bytes.push(111u8);
        bytes.push(32u8);
        bytes.push(82u8);
        bytes.push(117u8);
        bytes.push(115u8);
        bytes.push(116u8);
        bytes.push(33u8);
        bytes.push(0u8);
        proof {
            assert(bytes@ =~= greeting_text().push(0u8));
            assert(bytes@.take(bytes@.len() - 1) =~= greeting_text());
        }
        Message { bytes }
    }

    /// A read-only view of the stored bytes, terminator included.
    pub fn as_bytes(&self) -> (b: &[u8])
        ensures
            b@ == self.bytes_view(),
    {
        self.bytes.as_slice()
    }

    /// How many bytes the message holds, terminator included.
    pub fn len(&self) -> (n: usize)
        ensures
            n == self.bytes_view().len(),
    {
        self.bytes.len()
    }
}

} // verus!
