//! The invitation token and the small closed enums that describe an
//! invitation's kind, lifecycle status, deletion reason, and the outcome of
//! the optional invitation email.

use crate::foreign::{fresh_uuid_bytes, string_push_char};
use vstd::prelude::*;

verus! {

broadcast use vstd::string::group_string_axioms;

/// Number of bytes in an invitation token.
pub const TOKEN_BYTES: usize = 16;

/// Opaque, globally unique identifier of one enrollment attempt: sixteen
/// bytes, shared out-of-band (for instance inside an invitation link).
#[derive(Debug, Clone, PartialEq, Eq, Hash)]
pub struct InvitationToken {
    bytes: Vec<u8>,
}

impl View for InvitationToken {
    type V = Seq<u8>;

    closed spec fn view(&self) -> Seq<u8> {
        self.bytes@
    }
}

impl InvitationToken {
    pub open spec fn wf(&self) -> bool {
        self@.len() == TOKEN_BYTES
    }

    /// Draws sixteen random bytes as a token.
    pub fn generate() -> (r: InvitationToken)
        ensures
            r.wf(),
    {
        InvitationToken { bytes: fresh_uuid_bytes() }
    }

    /// Accepts exactly 16 bytes as a token.
    pub fn from_bytes(bytes: Vec<u8>) -> (r: Option<InvitationToken>)
        ensures
            match r {
                Some(t) => t@ == bytes@ && t.wf(),
                None => bytes@.len() != TOKEN_BYTES,
            },
    {
        if bytes.len() == TOKEN_BYTES {
            Some(InvitationToken { bytes })
        } else {
            None
        }
    }

    /// The token's raw bytes.
    pub fn as_bytes(&self) -> (r: &Vec<u8>)
        ensures
            r@ == self@,
    {
        &self.bytes
    }

    /// A copy of this token.
    pub fn duplicate(&self) -> (r: InvitationToken)
        ensures
            r@ == self@,
    {
        InvitationToken { bytes: clone_bytes(&self.bytes) }
    }

    /// Whether two tokens name the same invitation.
    pub fn matches(&self, other: &InvitationToken) -> (r: bool)
        ensures
            r == (self@ == other@),
    {
        eq_bytes(&self.bytes, &other.bytes)
    }

    /// The token's canonical lowercase hexadecimal rendering, as shared
    /// out-of-band in an invitation link.
    pub fn hex(&self) -> (r: String)
        ensures
            r@ == hex_of(self@),
    {
        let mut s = String::new();
        let mut i: usize = 0;
        while i < self.bytes.len()
            invariant
                0 <= i <= self.bytes@.len(),
                s@ == hex_of(self.bytes@.subrange(0, i as int)),
            decreases self.bytes@.len() - i,
        {
            let b = self.bytes[i];
            string_push_char(&mut s, hex_digit_char(b / 16));
            string_push_char(&mut s, hex_digit_char(b % 16));
            proof {
                assert(s@ =~= hex_of(self.bytes@.subrange(0, i + 1)));
            }
            i = i + 1;
        }
        proof {
            assert(self.bytes@.subrange(0, self.bytes@.len() as int) =~= self@);
        }
        s
    }
}

/// The lowercase hexadecimal digit for a value below sixteen.
pub open spec fn hex_digit(n: int) -> char {
    if n == 0 {
        '0'
    } else if n == 1 {
        '1'
    } else if n == 2 {
        '2'
    } else if n == 3 {
        '3'
    } else if n == 4 {
        '4'
    } else if n == 5 {
        '5'
    } else if n == 6 {
        '6'
    } else if n == 7 {
        '7'
    } else if n == 8 {
        '8'
    } else if n == 9 {
        '9'
    } else if n == 10 {
        'a'
    } else if n == 11 {
        'b'
    } else if n == 12 {
        'c'
    } else if n == 13 {
        'd'
    } else if n == 14 {
        'e'
    } else {
        'f'
    }
}

/// The lowercase hexadecimal rendering of a byte string, two digits per
/// byte, high nibble first.
pub open spec fn hex_of(bytes: Seq<u8>) -> Seq<char> {
    Seq::new(
        bytes.len() * 2,
        |i: int|
            if i % 2 == 0 {
                hex_digit(bytes[i / 2] as int / 16)
            } else {
                hex_digit(bytes[i / 2] as int % 16)
            },
    )
}

fn hex_digit_char(n: u8) -> (c: char)
    requires
        n < 16,
    ensures
        c == hex_digit(n as int),
{
    match n {
        0 => '0',
        1 => '1',
        2 => '2',
        3 => '3',
        4 => '4',
        5 => '5',
        6 => '6',
        7 => '7',
        8 => '8',
        9 => '9',
        10 => 'a',
        11 => 'b',
        12 => 'c',
        13 => 'd',
        14 => 'e',
        _ => 'f',
    }
}

/// A byte-for-byte copy.
pub fn clone_bytes(v: &Vec<u8>) -> (r: Vec<u8>)
    ensures
        r@ == v@,
        v@.len() <= u64::MAX,
{
    let mut r: Vec<u8> = Vec::new();
    let mut i: usize = 0;
    while i < v.len()
        invariant
            0 <= i <= v@.len(),
            r@ == v@.subrange(0, i as int),
        decreases v@.len() - i,
    {
        r.push(v[i]);
        proof {
            assert(r@ =~= v@.subrange(0, i + 1));
        }
        i = i + 1;
    }
    proof {
        assert(r@ =~= v@);
    }
    r
}

/// Byte-sequence equality.
pub fn eq_bytes(a: &Vec<u8>, b: &Vec<u8>) -> (r: bool)
    ensures
        r == (a@ == b@),
{
    if a.len() != b.len() {
        proof {
            assert(a@.len() != b@.len());
        }
        return false;
    }
    let mut i: usize = 0;
    while i < a.len()
        invariant
            0 <= i <= a@.len(),
            a@.len() == b@.len(),
            forall|j: int| 0 <= j < i ==> a@[j] == b@[j],
        decreases a@.len() - i,
    {
        if a[i] != b[i] {
            return false;
        }
        i = i + 1;
    }
    proof {
        assert(a@ =~= b@);
    }
    true
}

/// Whether an invitation enrolls a new user or a new device of the greeter.
#[derive(Debug, Clone, Copy, PartialEq, Eq, Structural)]
pub enum InvitationType {
    User,
    Device,
}

impl InvitationType {
    /// Parses an exact uppercase kind name.
    pub fn new(value: &str) -> (r: Result<InvitationType, &'static str>)
        ensures
            match r {
                Ok(t) => (t is User <==> value@ == "USER"@) && (t is Device <==> value@
                    == "DEVICE"@),
                Err(_) => value@ != "USER"@ && value@ != "DEVICE"@,
            },
    {
        proof {
            reveal_strlit("USER");
            reveal_strlit("DEVICE");
            assert("USER"@.len() == 4);
            assert("DEVICE"@.len() == 6);
        }
        let v = String::from_str(value);
        if v == String::from_str("USER") {
            Ok(InvitationType::User)
        } else if v == String::from_str("DEVICE") {
            Ok(InvitationType::Device)
        } else {
            Err("Invalid InvitationType")
        }
    }

    /// Canonical uppercase name.
    pub fn value(&self) -> (r: &'static str)
        ensures
            self is User ==> r@ == "USER"@,
            self is Device ==> r@ == "DEVICE"@,
    {
        match self {
            InvitationType::User => "USER",
            InvitationType::Device => "DEVICE",
        }
    }
}

/// Lifecycle state of an invitation held by the relay-side registry.
#[derive(Debug, Clone, Copy, PartialEq, Eq, Structural)]
pub enum InvitationStatus {
    Idle,
    Ready,
    Deleted,
}

impl InvitationStatus {
    /// Canonical uppercase name.
    pub fn name(&self) -> (r: &'static str)
        ensures
            self is Idle ==> r@ == "IDLE"@,
            self is Ready ==> r@ == "READY"@,
            self is Deleted ==> r@ == "DELETED"@,
    {
        match self {
            InvitationStatus::Idle => "IDLE",
            InvitationStatus::Ready => "READY",
            InvitationStatus::Deleted => "DELETED",
        }
    }
}

/// Why a deleted invitation reached its terminal state.
#[derive(Debug, Clone, Copy, PartialEq, Eq, Structural)]
pub enum InvitationDeletedReason {
    /// The handshake completed and the invitation was consumed.
    Finished,
    /// The issuer revoked the invitation.
    Cancelled,
    /// The invitation expired or was superseded.
    Rotten,
}

impl InvitationDeletedReason {
    /// Canonical uppercase name.
    pub fn value(&self) -> (r: &'static str)
        ensures
            self is Finished ==> r@ == "FINISHED"@,
            self is Cancelled ==> r@ == "CANCELLED"@,
            self is Rotten ==> r@ == "ROTTEN"@,
    {
        match self {
            InvitationDeletedReason::Finished => "FINISHED",
            InvitationDeletedReason::Cancelled => "CANCELLED",
            InvitationDeletedReason::Rotten => "ROTTEN",
        }
    }
}

/// Outcome of the optional invitation email, reported alongside a freshly
/// created invitation; a failure here is non-fatal to the handshake.
#[derive(Debug, Clone, Copy, PartialEq, Eq, Structural)]
pub enum InvitationEmailSentStatus {
    Success,
    NotAvailable,
    BadRecipient,
}

} // verus!
