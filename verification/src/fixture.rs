//! The upstream fixture: a tiny server to put behind the proxy.
//!
//! It answers two paths. `/test1` returns a large body, the hexadecimal text
//! of a repeating byte pattern; `/test2` returns a short greeting. Every
//! other path is not found.

use vstd::prelude::*;
use crate::text::str_equal;

verus! {

/// The number of bytes of the large body.
pub const FIRST_SIZE: usize = 64 * 1024;

/// The number of pattern bytes that the large body is the text of.
pub const FIRST_BIN_SIZE: usize = 32 * 1024;

/// The status of a reply that has a body to show.
pub const STATUS_OK: u16 = 200;

/// The status of a reply to an unknown path.
pub const STATUS_NOT_FOUND: u16 = 404;

/// The lower-case hexadecimal digit for a value below sixteen, as an ASCII
/// character: `0` to `9`, then `a` to `f`.
pub open spec fn hex_digit(nibble: int) -> u8 {
    if nibble < 10 {
        (48 + nibble) as u8
    } else {
        (87 + nibble) as u8
    }
}

/// The lower-case hexadecimal text of `bytes`: two digits for each byte, the
/// high half first.
pub open spec fn hex_text(bytes: Seq<u8>) -> Seq<u8> {
    Seq::new(
        2 * bytes.len(),
        |i: int|
            if i % 2 == 0 {
                hex_digit(bytes[i / 2] as int / 16)
            } else {
                hex_digit(bytes[i / 2] as int % 16)
            },
    )
}

/// The byte pattern 0, 1, ..., 255, 0, 1, ... of length `len`.
pub open spec fn pattern(len: nat) -> Seq<u8> {
    Seq::new(len, |i: int| (i % 256) as u8)
}

/// The bytes of `Hello world`.
pub open spec fn greeting() -> Seq<u8> {
    seq![72u8, 101, 108, 108, 111, 32, 119, 111, 114, 108, 100]
}

/// The bytes of `Not found`.
pub open spec fn apology() -> Seq<u8> {
    seq![78u8, 111, 116, 32, 102, 111, 117, 110, 100]
}

/// The status and the body of the reply to a request for `path`.
pub open spec fn reply_for(path: Seq<char>) -> (u16, Seq<u8>) {
    if path == "/test1"@ {
        (STATUS_OK, hex_text(pattern(FIRST_BIN_SIZE as nat)))
    } else if path == "/test2"@ {
        (STATUS_OK, greeting())
    } else {
        (STATUS_NOT_FOUND, apology())
    }
}

#[verifier::external_type_specification]
#[verifier::external_body]
pub struct ExFromHexError(hex::FromHexError);

/// `hex::encode_to_slice`. It succeeds exactly when `output` is twice as long
/// as `input`, and then fills `output` with the lower-case hexadecimal text
/// of `input`. Otherwise it leaves `output` as it was.
#[verifier::external_body]
fn encode_to_slice(input: &[u8], output: &mut [u8]) -> (result: Result<(), hex::FromHexError>)
    ensures
        result is Ok <==> old(output)@.len() == 2 * input@.len(),
        result is Ok ==> final(output)@ == hex_text(input@),
        result is Err ==> final(output)@ == old(output)@,
{
    hex::encode_to_slice(input, output)
}

/// What the fixture serves.
pub struct Data {
    first: Vec<u8>,
    second: Vec<u8>,
    missing: Vec<u8>,
}

/// One reply of the fixture.
pub struct Reply<'a> {
    /// The status code.
    pub status: u16,
    /// The body.
    pub body: &'a [u8],
}

impl Data {
    /// The large body.
    pub closed spec fn first(&self) -> Seq<u8> {
        self.first@
    }

    /// The short body.
    pub closed spec fn second(&self) -> Seq<u8> {
        self.second@
    }

    /// The body of a reply to an unknown path.
    pub closed spec fn missing(&self) -> Seq<u8> {
        self.missing@
    }

    /// The bodies are the ones that [`reply_for`] names.
    pub open spec fn wf(&self) -> bool {
        &&& self.first() == hex_text(pattern(FIRST_BIN_SIZE as nat))
        &&& self.second() == greeting()
        &&& self.missing() == apology()
    }

    /// Builds the bodies.
    pub fn new() -> (data: Data)
        ensures
            data.wf(),
    {
        let mut stuff: Vec<u8> = Vec::with_capacity(FIRST_BIN_SIZE);
        let mut i: usize = 0;
        while i < FIRST_BIN_SIZE
            invariant
                i <= FIRST_BIN_SIZE,
                stuff@ == pattern(i as nat),
            decreases FIRST_BIN_SIZE - i,
        {
            stuff.push((i % 256) as u8);
            i = i + 1;
            assert(stuff@ =~= pattern(i as nat));
        }
        let mut first = vec![0u8; FIRST_SIZE];
        let result = encode_to_slice(stuff.as_slice(), first.as_mut_slice());
        assert(result is Ok);
        let second: Vec<u8> = vec![72u8, 101, 108, 108, 111, 32, 119, 111, 114, 108, 100];
        let missing: Vec<u8> = vec![78u8, 111, 116, 32, 102, 111, 117, 110, 100];
        assert(second@ =~= greeting());
        assert(missing@ =~= apology());
        Data { first, second, missing }
    }

    /// The reply to a request for `path`.
    pub fn handle<'a>(&'a self, path: &str) -> (reply: Reply<'a>)
        requires
            self.wf(),
        ensures
            (reply.status, reply.body@) == reply_for(path@),
    {
        if str_equal(path, "/test1") {
            Reply { status: STATUS_OK, body: self.first.as_slice() }
        } else if str_equal(path, "/test2") {
            Reply { status: STATUS_OK, body: self.second.as_slice() }
        } else {
            Reply { status: STATUS_NOT_FOUND, body: self.missing.as_slice() }
        }
    }
}

} // verus!
