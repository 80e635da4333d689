//! Addresses: where the proxy listens and where it connects to.
//!
//! An address is written `host:port`. The port is what follows the last
//! colon, in decimal digits, and is at most 65535. The host is what stands
//! before that colon and is not empty; a host in square brackets, as IPv6
//! addresses are written, stands for the text between the brackets. Whether
//! the host names anything is for the resolver to say: an address only says
//! what to resolve.

use vstd::prelude::*;
use vstd::string::StrSliceExecFns;

verus! {

/// The largest port.
pub const MAX_PORT: u32 = 65535;

/// Why a text is no address.
#[derive(Clone, Copy, Debug, PartialEq, Eq, Structural)]
pub enum AddressError {
    /// The text holds no colon, so no port.
    MissingPort,
    /// Nothing stands before the last colon, or nothing between the brackets.
    EmptyHost,
    /// What follows the last colon is empty, is not made of decimal digits
    /// alone, or is a number above 65535.
    InvalidPort,
}

/// An address as plain values.
pub struct AddressModel {
    /// The host: a name or a literal address, without brackets.
    pub host: Seq<char>,
    /// The port.
    pub port: u16,
}

/// The index of the last colon in `text`, or -1 where it holds none.
pub open spec fn last_colon(text: Seq<char>) -> int
    decreases text.len(),
{
    if text.len() == 0 {
        -1
    } else if text.last() == ':' {
        text.len() - 1
    } else {
        last_colon(text.drop_last())
    }
}

/// Whether `c` is one of the digits `0` to `9`.
pub open spec fn is_digit(c: char) -> bool {
    48 <= c as u32 <= 57
}

/// The value of a digit, and zero for any other character.
pub open spec fn digit_value(c: char) -> nat {
    if is_digit(c) {
        (c as u32 - 48) as nat
    } else {
        0
    }
}

/// The number that `digits` is the decimal writing of.
pub open spec fn decimal_value(digits: Seq<char>) -> nat
    decreases digits.len(),
{
    if digits.len() == 0 {
        0
    } else {
        decimal_value(digits.drop_last()) * 10 + digit_value(digits.last())
    }
}

/// Whether `text` is the writing of a port: at least one character, digits
/// only, and a value of at most 65535. Leading zeros are in order.
pub open spec fn is_port(text: Seq<char>) -> bool {
    &&& text.len() > 0
    &&& forall|i: int| 0 <= i < text.len() ==> is_digit(#[trigger] text[i])
    &&& decimal_value(text) <= MAX_PORT
}

/// `host` without the square brackets around it, if it has them.
pub open spec fn unbracketed(host: Seq<char>) -> Seq<char> {
    if host.len() >= 2 && host.first() == '[' && host.last() == ']' {
        host.subrange(1, host.len() - 1)
    } else {
        host
    }
}

/// What `text` says as an address.
pub open spec fn address_of(text: Seq<char>) -> Result<AddressModel, AddressError> {
    let colon = last_colon(text);
    if colon < 0 {
        Err(AddressError::MissingPort)
    } else if unbracketed(text.take(colon)).len() == 0 {
        Err(AddressError::EmptyHost)
    } else if !is_port(text.skip(colon + 1)) {
        Err(AddressError::InvalidPort)
    } else {
        Ok(
            AddressModel {
                host: unbracketed(text.take(colon)),
                port: decimal_value(text.skip(colon + 1)) as u16,
            },
        )
    }
}

/// Where the last colon stands: at `at` if a colon stands there and none
/// after it, and nowhere if none stands anywhere.
proof fn lemma_last_colon(text: Seq<char>, at: int)
    requires
        -1 <= at < text.len(),
        at >= 0 ==> text[at] == ':',
        forall|j: int| at < j < text.len() ==> text[j] != ':',
    ensures
        last_colon(text) == at,
    decreases text.len(),
{
    if text.len() > 0 && text.last() != ':' {
        lemma_last_colon(text.drop_last(), at);
    }
}

/// A longer writing has no smaller value.
proof fn lemma_decimal_value_grows(digits: Seq<char>, n: int)
    requires
        0 <= n <= digits.len(),
    ensures
        decimal_value(digits.take(n)) <= decimal_value(digits),
    decreases digits.len() - n,
{
    if n < digits.len() {
        lemma_decimal_value_grows(digits, n + 1);
        assert(digits.take(n + 1).drop_last() =~= digits.take(n));
    } else {
        assert(digits.take(n) =~= digits);
    }
}

/// An address: a host to resolve and a port.
#[derive(Clone, Debug)]
pub struct Address {
    host: String,
    port: u16,
}

impl View for Address {
    type V = AddressModel;

    closed spec fn view(&self) -> AddressModel {
        AddressModel { host: self.host@, port: self.port }
    }
}

impl Address {
    /// The address of this machine itself, over IPv4, with the given port.
    pub fn loopback(port: u16) -> (address: Address)
        ensures
            address@ == (AddressModel { host: "127.0.0.1"@, port }),
    {
        Address { host: "127.0.0.1".to_owned(), port }
    }

    /// Reads an address from its writing.
    pub fn parse(text: &str) -> (result: Result<Address, AddressError>)
        ensures
            match result {
                Ok(address) => address_of(text@) == Ok::<AddressModel, AddressError>(address@),
                Err(error) => address_of(text@) == Err::<AddressModel, AddressError>(error),
            },
    {
        let len = text.unicode_len();
        let mut colon: usize = len;
        while colon > 0 && text.get_char(colon - 1) != ':'
            invariant
                colon <= len,
                len == text@.len(),
                forall|j: int| colon <= j < len ==> text@[j] != ':',
            decreases colon,
        {
            colon = colon - 1;
        }
        if colon == 0 {
            proof {
                lemma_last_colon(text@, -1);
            }
            return Err(AddressError::MissingPort);
        }
        let colon = colon - 1;
        proof {
            lemma_last_colon(text@, colon as int);
        }
        let bracketed = colon >= 2 && text.get_char(0) == '[' && text.get_char(colon - 1) == ']';
        let host = if bracketed {
            text.substring_char(1, colon - 1)
        } else {
            text.substring_char(0, colon)
        };
        assert(host@ == unbracketed(text@.take(colon as int)));
        if host.unicode_len() == 0 {
            return Err(AddressError::EmptyHost);
        }
        let ghost digits = text@.skip(colon + 1);
        let mut value: u32 = 0;
        let mut i: usize = colon + 1;
        if i == len {
            return Err(AddressError::InvalidPort);
        }
        assert(digits.take(0) =~= Seq::<char>::empty());
        while i < len
            invariant
                colon < i <= len,
                len == text@.len(),
                last_colon(text@) == colon,
                unbracketed(text@.take(colon as int)).len() > 0,
                digits == text@.skip(colon + 1),
                value == decimal_value(digits.take(i - colon - 1)),
                value <= MAX_PORT,
                forall|j: int| 0 <= j < i - colon - 1 ==> is_digit(#[trigger] digits[j]),
            decreases len - i,
        {
            let c = text.get_char(i) as u32;
            let ghost at = i - colon - 1;
            assert(text@[i as int] == digits[at]);
            if c < 48 || c > 57 {
                assert(!is_digit(digits[at]));
                return Err(AddressError::InvalidPort);
            }
            proof {
                assert(digits.take(at + 1).drop_last() =~= digits.take(at));
                assert(digits.take(at + 1).last() == digits[at]);
                assert(decimal_value(digits.take(at + 1)) == value * 10 + (c - 48));
                lemma_decimal_value_grows(digits, at + 1);
            }
            value = value * 10 + (c - 48);
            if value > MAX_PORT {
                return Err(AddressError::InvalidPort);
            }
            i = i + 1;
        }
        assert(digits.take(len - colon - 1) =~= digits);
        Ok(Address { host: host.to_owned(), port: value as u16 })
    }

    /// The host: a name or a literal address, without brackets.
    pub fn host(&self) -> (host: &str)
        ensures
            host@ == self@.host,
    {
        self.host.as_str()
    }

    /// The port.
    pub fn port(&self) -> (port: u16)
        ensures
            port == self@.port,
    {
        self.port
    }
}

} // verus!
