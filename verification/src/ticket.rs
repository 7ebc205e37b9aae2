//! The transfer ticket: a connection locator and a confirmation byte packed
//! into one string, `<locator>:<confirmation>`.

use crate::error::{IrohError, IrohResult};
use crate::text::{
    decimal_digits, is_digit, lemma_decimal_digits, lemma_parse_decimal_digits,
    parse_u8, parse_u8_spec, push_decimal,
};
use vstd::prelude::*;
use vstd::string::{StrSliceExecFns, StringExecFns};

verus! {

/// Fewest characters a bare locator may have.
pub const MIN_LOCATOR_LEN: usize = 10;

/// Most characters a bare locator may have.
pub const MAX_LOCATOR_LEN: usize = 200;

/// The characters a bare locator is made of: ASCII letters and digits, and
/// `-`, `_`, `=`, `+`, `/`.
pub open spec fn is_locator_char(c: char) -> bool {
    ||| 'A' <= c <= 'Z'
    ||| 'a' <= c <= 'z'
    ||| '0' <= c <= '9'
    ||| c == '-'
    ||| c == '_'
    ||| c == '='
    ||| c == '+'
    ||| c == '/'
}

/// The rule for a ticket that carries no confirmation: between 10 and 200
/// characters, all of them locator characters.
pub open spec fn is_valid_locator(s: Seq<char>) -> bool {
    &&& MIN_LOCATOR_LEN <= s.len() <= MAX_LOCATOR_LEN
    &&& forall|i: int| 0 <= i < s.len() ==> is_locator_char(#[trigger] s[i])
}

/// Position of the last `:` in `s`, if there is one.
pub open spec fn last_colon(s: Seq<char>) -> Option<int>
    decreases s.len(),
{
    if s.len() == 0 {
        None
    } else if s.last() == ':' {
        Some(s.len() - 1)
    } else {
        last_colon(s.drop_last())
    }
}

/// The serialized form of a ticket.
pub open spec fn encode_spec(locator: Seq<char>, confirmation: u8) -> Seq<char> {
    locator + seq![':'] + decimal_digits(confirmation as nat)
}

/// What a ticket string decodes to.
///
/// The string is split at its last `:`. If what follows is a byte in
/// decimal and what precedes is not empty, the result is what precedes the
/// `:` and that byte. Otherwise the whole string must be a valid locator,
/// and the confirmation is 0. Any other string decodes to nothing; so does
/// a string with nothing in front of `:` and a byte, since `:` is no
/// locator character.
pub open spec fn decode_spec(s: Seq<char>) -> Option<(Seq<char>, u8)> {
    let split = match last_colon(s) {
        Some(i) => match parse_u8_spec(s.subrange(i + 1, s.len() as int)) {
            Some(c) => if i > 0 {
                Some((s.subrange(0, i), c))
            } else {
                None
            },
            None => None,
        },
        None => None,
    };
    if split is Some {
        split
    } else if is_valid_locator(s) {
        Some((s, 0u8))
    } else {
        None
    }
}

/// `last_colon` finds a `:` that no `:` follows, or reports that there is
/// none at all.
pub proof fn lemma_last_colon(s: Seq<char>)
    ensures
        match last_colon(s) {
            Some(i) => 0 <= i < s.len() && s[i] == ':' && forall|j: int|
                i < j < s.len() ==> s[j] != ':',
            None => forall|j: int| 0 <= j < s.len() ==> s[j] != ':',
        },
    decreases s.len(),
{
    if s.len() != 0 && s.last() != ':' {
        let t = s.drop_last();
        lemma_last_colon(t);
        match last_colon(t) {
            Some(i) => {
                assert forall|j: int| i < j < s.len() implies s[j] != ':' by {
                    if j < t.len() {
                        assert(t[j] == s[j]);
                    }
                }
            },
            None => {
                assert forall|j: int| 0 <= j < s.len() implies s[j] != ':' by {
                    if j < t.len() {
                        assert(t[j] == s[j]);
                    }
                }
            },
        }
    }
}

/// A position that holds a `:` and is followed by none is the one that
/// `last_colon` finds.
pub proof fn lemma_last_colon_unique(s: Seq<char>, i: int)
    requires
        0 <= i < s.len(),
        s[i] == ':',
        forall|j: int| i < j < s.len() ==> s[j] != ':',
    ensures
        last_colon(s) == Some(i),
    decreases s.len(),
{
    if s.last() != ':' {
        lemma_last_colon_unique(s.drop_last(), i);
    }
}

/// Round trip: decoding an encoded ticket gives back the locator and the
/// confirmation byte. This holds of every locator that is not empty, so of
/// every valid one.
pub proof fn lemma_decode_encode(locator: Seq<char>, confirmation: u8)
    requires
        locator.len() > 0,
    ensures
        decode_spec(encode_spec(locator, confirmation)) == Some((locator, confirmation)),
{
    let digits = decimal_digits(confirmation as nat);
    let s = encode_spec(locator, confirmation);
    let i = locator.len() as int;
    lemma_decimal_digits(confirmation as nat);
    lemma_parse_decimal_digits(confirmation);
    assert forall|j: int| i < j < s.len() implies s[j] != ':' by {
        assert(s[j] == digits[j - i - 1]);
        assert(is_digit(digits[j - i - 1]));
    }
    lemma_last_colon_unique(s, i);
    assert(s.subrange(i + 1, s.len() as int) =~= digits);
    assert(s.subrange(0, i) =~= locator);
}

/// Nothing in front of the last `:` is no ticket, whatever follows it.
pub proof fn lemma_decode_rejects_empty_locator(s: Seq<char>)
    requires
        last_colon(s) == Some(0int),
    ensures
        decode_spec(s) is None,
{
    assert(s[0] == ':') by {
        lemma_last_colon(s);
    }
    assert(!is_locator_char(s[0]));
}

/// A valid locator that holds no `:` decodes, on its own, to itself with
/// confirmation 0.
pub proof fn lemma_decode_bare_locator(s: Seq<char>)
    requires
        is_valid_locator(s),
    ensures
        decode_spec(s) == Some((s, 0u8)),
{
    lemma_last_colon(s);
    if last_colon(s) is Some {
        let i = last_colon(s)->0;
        assert(is_locator_char(s[i]));
    }
}

/// A string shorter than 10 or longer than 200 characters that holds no
/// `:` decodes to nothing.
pub proof fn lemma_decode_rejects_length(s: Seq<char>)
    requires
        s.len() < MIN_LOCATOR_LEN || s.len() > MAX_LOCATOR_LEN,
        forall|j: int| 0 <= j < s.len() ==> s[j] != ':',
    ensures
        decode_spec(s) is None,
{
    lemma_last_colon(s);
}

/// What a locator points at.
#[derive(Debug, Clone, Copy, PartialEq, Eq, Structural)]
pub enum BlobFormat {
    /// A single blob.
    Raw,
    /// A hash sequence: a collection of files.
    HashSeq,
}

/// Accepts a locator only if it points at a collection. Anything else is
/// refused with `UnsupportedFormat`.
pub fn require_collection(format: BlobFormat) -> (r: IrohResult<()>)
    ensures
        r is Ok <==> format == BlobFormat::HashSeq,
        r is Err ==> r->Err_0 is UnsupportedFormat,
{
    match format {
        BlobFormat::HashSeq => Ok(()),
        BlobFormat::Raw => Err(IrohError::UnsupportedFormat),
    }
}

/// A ticket: where to reach the sender, and the byte that confirms the
/// pairing.
#[derive(Debug, Clone)]
pub struct TicketWrapper {
    ticket: String,
    confirmation: u8,
}

/// The name under which the user interface knows a ticket.
pub type BlobTicket = TicketWrapper;

impl TicketWrapper {
    /// The locator, as a character sequence.
    pub closed spec fn locator_spec(&self) -> Seq<char> {
        self.ticket@
    }

    /// The confirmation byte.
    pub closed spec fn confirmation_spec(&self) -> u8 {
        self.confirmation
    }

    /// A ticket made of the given parts.
    pub fn new(ticket: String, confirmation: u8) -> (t: Self)
        ensures
            t.locator_spec() == ticket@,
            t.confirmation_spec() == confirmation,
    {
        Self { ticket, confirmation }
    }

    /// The locator.
    pub fn locator(&self) -> (s: &String)
        ensures
            s@ == self.locator_spec(),
    {
        &self.ticket
    }

    /// The confirmation byte.
    pub fn confirmation(&self) -> (c: u8)
        ensures
            c == self.confirmation_spec(),
    {
        self.confirmation
    }

    /// Decodes a ticket string into locator and confirmation byte.
    ///
    /// Succeeds exactly on the strings that `decode_spec` decodes; every
    /// other string is refused with `InvalidTicket`.
    pub fn parse(combined: &str) -> (r: IrohResult<(String, u8)>)
        ensures
            match r {
                Ok((locator, confirmation)) => decode_spec(combined@) == Some(
                    (locator@, confirmation),
                ),
                Err(e) => decode_spec(combined@) is None && e is InvalidTicket,
            },
    {
        let n = combined.unicode_len();
        let mut colon: Option<usize> = None;
        let mut all_valid: bool = true;
        let mut i: usize = 0;
        for c in it: combined.chars()
            invariant
                it.seq() == combined@,
                i == it.index(),
                n == combined@.len(),
                match colon {
                    Some(k) => k < i && combined@[k as int] == ':' && forall|j: int|
                        k < j < i ==> combined@[j] != ':',
                    None => forall|j: int| 0 <= j < i ==> combined@[j] != ':',
                },
                all_valid <==> forall|j: int| 0 <= j < i ==> is_locator_char(#[trigger] combined@[j]),
        {
            if c == ':' {
                colon = Some(i);
            }
            if !is_locator_char_exec(c) {
                all_valid = false;
            }
            i = i + 1;
        }
        proof {
            lemma_last_colon(combined@);
            match colon {
                Some(k) => {
                    lemma_last_colon_unique(combined@, k as int);
                },
                None => {},
            }
        }
        match colon {
            Some(k) => {
                let tail = combined.substring_char(k + 1, n);
                match parse_u8(tail) {
                    Some(confirmation) => {
                        if k > 0 {
                            let head = combined.substring_char(0, k);
                            return Ok((String::from_str(head), confirmation));
                        }
                    },
                    None => {},
                }
            },
            None => {},
        }
        if all_valid && MIN_LOCATOR_LEN <= n && n <= MAX_LOCATOR_LEN {
            Ok((String::from_str(combined), 0))
        } else {
            Err(IrohError::InvalidTicket)
        }
    }

    /// Decodes a ticket string into a ticket.
    pub fn from_string(combined: &str) -> (r: IrohResult<Self>)
        ensures
            match r {
                Ok(t) => decode_spec(combined@) == Some(
                    (t.locator_spec(), t.confirmation_spec()),
                ),
                Err(e) => decode_spec(combined@) is None && e is InvalidTicket,
            },
    {
        match Self::parse(combined) {
            Ok((ticket, confirmation)) => Ok(Self::new(ticket, confirmation)),
            Err(e) => Err(e),
        }
    }

    /// Whether a string is a ticket. Pure: nothing is connected or read.
    pub fn is_valid(combined: &str) -> (b: bool)
        ensures
            b == decode_spec(combined@) is Some,
    {
        Self::parse(combined).is_ok()
    }

    /// The serialized form, `<locator>:<confirmation>`.
    pub fn to_string(&self) -> (s: String)
        ensures
            s@ == encode_spec(self.locator_spec(), self.confirmation_spec()),
            self.locator_spec().len() > 0 ==> decode_spec(s@) == Some(
                (self.locator_spec(), self.confirmation_spec()),
            ),
    {
        let mut s = self.ticket.clone();
        proof {
            reveal_strlit(":");
        }
        s.append(":");
        assert(s@ =~= self.ticket@ + seq![':']);
        push_decimal(&mut s, self.confirmation as u64);
        proof {
            if self.locator_spec().len() > 0 {
                lemma_decode_encode(self.locator_spec(), self.confirmation_spec());
            }
        }
        s
    }
}

/// Whether `c` may stand in a bare locator.
fn is_locator_char_exec(c: char) -> (b: bool)
    ensures
        b == is_locator_char(c),
{
    (c >= 'A' && c <= 'Z') || (c >= 'a' && c <= 'z') || (c >= '0' && c <= '9') || c == '-' || c
        == '_' || c == '=' || c == '+' || c == '/'
}

} // verus!
