//! Numeric IPv4 addresses in dotted-quad form.

use vstd::prelude::*;
use vstd::string::StringExecFns;
use crate::text::{bounded_value, char_views, parse_unsigned, split, split_chars};

verus! {

/// The port on which a host is tried before a pool is built for it.
pub const TCP_TEST_PORT: u16 = 20133;

/// Why a host name is not a dotted quad.
#[derive(Clone, Copy, Debug, PartialEq, Eq, Structural)]
pub enum AddressError {
    /// A piece between two dots is not a decimal number from 0 to 255.
    InvalidComponent,
    /// Every piece is such a number, but there are not four of them.
    WrongComponentCount,
}

/// The number from 0 to 255 that `piece` writes, if it writes one.
pub open spec fn octet(piece: Seq<char>) -> Option<nat> {
    bounded_value(piece, 255)
}

/// Every piece of `pieces` writes a number from 0 to 255.
pub open spec fn all_octets(pieces: Seq<Seq<char>>) -> bool {
    forall|i: int| 0 <= i < pieces.len() ==> octet(#[trigger] pieces[i]).is_some()
}

/// The numbers that the pieces write.
pub open spec fn octets_of(pieces: Seq<Seq<char>>) -> Seq<u8> {
    Seq::new(pieces.len(), |i: int| octet(pieces[i]).unwrap() as u8)
}

/// The four numbers of the dotted quad `host`. The pieces between the dots
/// are looked at first: one that is no number from 0 to 255 makes the host
/// invalid whatever the number of pieces.
pub open spec fn dotted_quad(host: Seq<char>) -> Result<Seq<u8>, AddressError> {
    let pieces = split(host, '.');
    if !all_octets(pieces) {
        Err(AddressError::InvalidComponent)
    } else if pieces.len() != 4 {
        Err(AddressError::WrongComponentCount)
    } else {
        Ok(octets_of(pieces))
    }
}

impl AddressError {
    /// The text that says what is wrong.
    pub open spec fn text(self) -> Seq<char> {
        match self {
            AddressError::InvalidComponent => "Invalid tcp address: not an integer from 0 to 255"@,
            AddressError::WrongComponentCount => "Invalid tcp address: wrong number of integer breaks"@,
        }
    }

    /// Says what is wrong, for the user.
    pub fn message(&self) -> (r: String)
        ensures
            r@ == self.text(),
    {
        match self {
            AddressError::InvalidComponent => String::from_str(
                "Invalid tcp address: not an integer from 0 to 255",
            ),
            AddressError::WrongComponentCount => String::from_str(
                "Invalid tcp address: wrong number of integer breaks",
            ),
        }
    }
}

/// Reads `host` as a dotted quad: four decimal numbers from 0 to 255 with
/// a dot between each two. A number may have a `+` in front and leading
/// zeros; nothing else is allowed, not even a space.
pub fn parse_dotted_quad(host: &str) -> (r: Result<[u8; 4], AddressError>)
    ensures
        match r {
            Ok(octets) => dotted_quad(host@) == Ok::<Seq<u8>, AddressError>(octets@),
            Err(error) => dotted_quad(host@) == Err::<Seq<u8>, AddressError>(error),
        },
{
    let pieces = split_chars(host, '.');
    let ghost texts = split(host@, '.');
    let mut numbers: Vec<u8> = Vec::new();
    let mut i: usize = 0;
    while i < pieces.len()
        invariant
            i <= pieces.len(),
            char_views(pieces@) == texts,
            texts == split(host@, '.'),
            all_octets(texts.take(i as int)),
            numbers@ == octets_of(texts.take(i as int)),
        decreases pieces.len() - i,
    {
        match parse_unsigned(&pieces[i], 255) {
            Some(number) => {
                assert(texts.take(i + 1).drop_last() == texts.take(i as int));
                numbers.push(number as u8);
            },
            None => {
                assert(octet(texts[i as int]) is None);
                return Err(AddressError::InvalidComponent);
            },
        }
        i = i + 1;
    }
    assert(texts.take(texts.len() as int) == texts);
    if numbers.len() != 4 {
        return Err(AddressError::WrongComponentCount);
    }
    let octets: [u8; 4] = [numbers[0], numbers[1], numbers[2], numbers[3]];
    assert(octets@ == numbers@);
    Ok(octets)
}

/// Every piece of `host` between two dots is a decimal number from 0 to 255.
pub open spec fn numeric(host: Seq<char>) -> bool {
    all_octets(split(host, '.'))
}

/// Whether every piece of `host` between two dots is a decimal number from
/// 0 to 255.
pub fn is_numeric(host: &str) -> (yes: bool)
    ensures
        yes == numeric(host@),
{
    match parse_dotted_quad(host) {
        Err(AddressError::InvalidComponent) => false,
        _ => true,
    }
}

} // verus!
