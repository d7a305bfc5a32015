//! Validated identifier types: user, device and organization names, device
//! labels, and the composite device identity.
//!
//! Each type can only be built through a fallible parse that normalizes the
//! input (NFC) and checks it against the type's pattern and byte-length
//! bound; invalid input never produces a value of the type.

use crate::foreign::{nfc_normalize, nfc_of, regex_is_match, regex_match, regex_pattern_ok};
use vstd::prelude::*;
use vstd::string::*;

verus! {

broadcast use vstd::string::group_string_axioms;

/// A normalized identifier text is valid when its pattern compiles, matches
/// the text, and the UTF-8 form fits in `max_bytes` bytes.
pub open spec fn valid_text(pattern: Seq<char>, s: Seq<char>, max_bytes: int) -> bool {
    &&& regex_pattern_ok(pattern)
    &&& regex_match(pattern, s)
    &&& vstd::utf8::encode_utf8(s).len() <= max_bytes
}

/// Normalizes `s` (NFC) and accepts it when it is valid for `pattern` within
/// `max_bytes` bytes.
fn normalize_and_check(s: &str, pattern: &str, max_bytes: usize) -> (r: Option<String>)
    ensures
        match r {
            Some(t) => t@ == nfc_of(s@) && valid_text(pattern@, nfc_of(s@), max_bytes as int),
            None => !valid_text(pattern@, nfc_of(s@), max_bytes as int),
        },
{
    let t = nfc_normalize(s);
    match regex_is_match(pattern, t.as_str()) {
        Some(true) => {
            let nbytes = t.as_str().as_bytes().len();
            if nbytes <= max_bytes {
                Some(t)
            } else {
                None
            }
        },
        _ => None,
    }
}

/// Identifier of a user inside an organization.
#[derive(Debug, Clone, PartialEq, Eq, Hash, PartialOrd, Ord)]
pub struct UserID(String);

impl View for UserID {
    type V = Seq<char>;

    closed spec fn view(&self) -> Seq<char> {
        self.0@
    }
}

/// The text accepted for user, device and organization identifiers.
pub open spec fn valid_id_text(s: Seq<char>) -> bool {
    valid_text("^[\\w\\-]{1,32}$"@, s, 32)
}

impl UserID {
    pub open spec fn wf(&self) -> bool {
        valid_id_text(self@)
    }

    /// Parses and normalizes a user identifier.
    pub fn parse(s: &str) -> (r: Option<UserID>)
        ensures
            match r {
                Some(id) => id@ == nfc_of(s@) && valid_id_text(nfc_of(s@)) && id.wf(),
                None => !valid_id_text(nfc_of(s@)),
            },
    {
        match normalize_and_check(s, "^[\\w\\-]{1,32}$", 32) {
            Some(t) => Some(UserID(t)),
            None => None,
        }
    }

    /// The identifier's text.
    pub fn as_str(&self) -> (r: &str)
        ensures
            r@ == self@,
    {
        self.0.as_str()
    }

    /// Accepts text that is already valid, without renormalizing it; used
    /// when an identifier comes back over the wire.
    pub fn from_validated(s: String) -> (r: Option<UserID>)
        ensures
            match r {
                Some(id) => id@ == s@ && id.wf(),
                None => !valid_id_text(s@),
            },
    {
        match regex_is_match("^[\\w\\-]{1,32}$", s.as_str()) {
            Some(true) => {
                let nbytes = s.as_str().as_bytes().len();
                if nbytes <= 32 {
                    Some(UserID(s))
                } else {
                    None
                }
            },
            _ => None,
        }
    }

    /// A copy of this identifier.
    pub fn duplicate(&self) -> (r: UserID)
        ensures
            r@ == self@,
    {
        UserID(String::from_str(self.0.as_str()))
    }

    /// Whether two identifiers are the same text.
    pub fn matches(&self, other: &UserID) -> (r: bool)
        ensures
            r == (self@ == other@),
    {
        self.0.eq(&other.0)
    }

    /// Combines this user identifier with a device name.
    pub fn to_device_id(&self, device_name: DeviceName) -> (r: DeviceID)
        ensures
            r.user_id_text() == self@,
            r.device_name_text() == device_name@,
            r.display_text() == self@ + "@"@ + device_name@,
    {
        DeviceID::new(self.duplicate(), device_name)
    }
}

impl core::str::FromStr for UserID {
    type Err = &'static str;

    fn from_str(s: &str) -> Result<Self, Self::Err> {
        match UserID::parse(s) {
            Some(id) => Ok(id),
            None => Err("Invalid UserID"),
        }
    }
}

/// Name of one device belonging to a user.
#[derive(Debug, Clone, PartialEq, Eq, Hash, PartialOrd, Ord)]
pub struct DeviceName(String);

impl View for DeviceName {
    type V = Seq<char>;

    closed spec fn view(&self) -> Seq<char> {
        self.0@
    }
}

impl DeviceName {
    pub open spec fn wf(&self) -> bool {
        valid_id_text(self@)
    }

    /// Parses and normalizes a device name.
    pub fn parse(s: &str) -> (r: Option<DeviceName>)
        ensures
            match r {
                Some(id) => id@ == nfc_of(s@) && valid_id_text(nfc_of(s@)) && id.wf(),
                None => !valid_id_text(nfc_of(s@)),
            },
    {
        match normalize_and_check(s, "^[\\w\\-]{1,32}$", 32) {
            Some(t) => Some(DeviceName(t)),
            None => None,
        }
    }

    /// The name's text.
    pub fn as_str(&self) -> (r: &str)
        ensures
            r@ == self@,
    {
        self.0.as_str()
    }
}

impl core::str::FromStr for DeviceName {
    type Err = &'static str;

    fn from_str(s: &str) -> Result<Self, Self::Err> {
        match DeviceName::parse(s) {
            Some(id) => Ok(id),
            None => Err("Invalid DeviceName"),
        }
    }
}

/// Identifier of an organization.
#[derive(Debug, Clone, PartialEq, Eq, Hash, PartialOrd, Ord)]
pub struct OrganizationID(String);

impl View for OrganizationID {
    type V = Seq<char>;

    closed spec fn view(&self) -> Seq<char> {
        self.0@
    }
}

impl OrganizationID {
    pub open spec fn wf(&self) -> bool {
        valid_id_text(self@)
    }

    /// Parses and normalizes an organization identifier.
    pub fn parse(s: &str) -> (r: Option<OrganizationID>)
        ensures
            match r {
                Some(id) => id@ == nfc_of(s@) && valid_id_text(nfc_of(s@)) && id.wf(),
                None => !valid_id_text(nfc_of(s@)),
            },
    {
        match normalize_and_check(s, "^[\\w\\-]{1,32}$", 32) {
            Some(t) => Some(OrganizationID(t)),
            None => None,
        }
    }

    /// The identifier's text.
    pub fn as_str(&self) -> (r: &str)
        ensures
            r@ == self@,
    {
        self.0.as_str()
    }
}

impl core::str::FromStr for OrganizationID {
    type Err = &'static str;

    fn from_str(s: &str) -> Result<Self, Self::Err> {
        match OrganizationID::parse(s) {
            Some(id) => Ok(id),
            None => Err("Invalid OrganizationID"),
        }
    }
}

/// Free-form label a user gives one of their devices.
#[derive(Debug, Clone, PartialEq, Eq, Hash, PartialOrd, Ord)]
pub struct DeviceLabel(String);

impl View for DeviceLabel {
    type V = Seq<char>;

    closed spec fn view(&self) -> Seq<char> {
        self.0@
    }
}

/// The text accepted for device labels.
pub open spec fn valid_label_text(s: Seq<char>) -> bool {
    valid_text("^.+$"@, s, 255)
}

impl DeviceLabel {
    pub open spec fn wf(&self) -> bool {
        valid_label_text(self@)
    }

    /// Parses and normalizes a device label.
    pub fn parse(s: &str) -> (r: Option<DeviceLabel>)
        ensures
            match r {
                Some(id) => id@ == nfc_of(s@) && valid_label_text(nfc_of(s@)) && id.wf(),
                None => !valid_label_text(nfc_of(s@)),
            },
    {
        match normalize_and_check(s, "^.+$", 255) {
            Some(t) => Some(DeviceLabel(t)),
            None => None,
        }
    }

    /// The label's text.
    pub fn as_str(&self) -> (r: &str)
        ensures
            r@ == self@,
    {
        self.0.as_str()
    }
}

impl core::str::FromStr for DeviceLabel {
    type Err = &'static str;

    fn from_str(s: &str) -> Result<Self, Self::Err> {
        match DeviceLabel::parse(s) {
            Some(id) => Ok(id),
            None => Err("Invalid DeviceLabel"),
        }
    }
}

/// Position of the first occurrence of `c` in `s`; equals `s.len()` when `c`
/// does not occur.
pub open spec fn first_index(s: Seq<char>, c: char) -> int
    decreases s.len(),
{
    if s.len() == 0 {
        0
    } else if s[0] == c {
        0
    } else {
        1 + first_index(s.drop_first(), c)
    }
}

pub proof fn lemma_first_index(s: Seq<char>, c: char)
    ensures
        0 <= first_index(s, c) <= s.len(),
        first_index(s, c) < s.len() ==> s[first_index(s, c)] == c,
        forall|j: int| 0 <= j < first_index(s, c) ==> s[j] != c,
    decreases s.len(),
{
    if s.len() != 0 && s[0] != c {
        lemma_first_index(s.drop_first(), c);
        assert forall|j: int| 0 <= j < first_index(s, c) implies s[j] != c by {
            if j > 0 {
                assert(s.drop_first()[j - 1] == s[j]);
            }
        }
    }
}

/// A user identifier together with one of that user's device names,
/// displayed as `user@device`.
#[derive(Debug, Clone, PartialEq, Eq, Hash, PartialOrd, Ord)]
pub struct DeviceID {
    user_id: UserID,
    device_name: DeviceName,
    display: String,
}

impl DeviceID {
    pub closed spec fn user_id_text(&self) -> Seq<char> {
        self.user_id@
    }

    pub closed spec fn device_name_text(&self) -> Seq<char> {
        self.device_name@
    }

    pub closed spec fn display_text(&self) -> Seq<char> {
        self.display@
    }

    pub open spec fn wf(&self) -> bool {
        &&& valid_id_text(self.user_id_text())
        &&& valid_id_text(self.device_name_text())
        &&& self.display_text() == self.user_id_text() + "@"@ + self.device_name_text()
    }

    /// Combines an already-validated user identifier and device name.
    pub fn new(user_id: UserID, device_name: DeviceName) -> (r: DeviceID)
        ensures
            r.user_id_text() == user_id@,
            r.device_name_text() == device_name@,
            r.display_text() == user_id@ + "@"@ + device_name@,
            user_id.wf() && device_name.wf() ==> r.wf(),
    {
        let mut display = String::from_str(user_id.as_str());
        display.append("@");
        display.append(device_name.as_str());
        DeviceID { user_id, device_name, display }
    }

    /// The user part.
    pub fn user_id(&self) -> (r: &UserID)
        ensures
            r@ == self.user_id_text(),
    {
        &self.user_id
    }

    /// The device part.
    pub fn device_name(&self) -> (r: &DeviceName)
        ensures
            r@ == self.device_name_text(),
    {
        &self.device_name
    }

    /// The combined `user@device` rendering.
    pub fn as_str(&self) -> (r: &str)
        ensures
            r@ == self.display_text(),
    {
        self.display.as_str()
    }

    /// Parses `user@device`: the user part is everything before the first
    /// `@`, the device part everything after it.
    pub fn parse(s: &str) -> (r: Option<DeviceID>)
        ensures
            ({
                let cut = first_index(s@, '@');
                let user_part = s@.subrange(0, cut);
                let dev_part = s@.subrange(cut + 1, s@.len() as int);
                match r {
                    Some(d) => {
                        &&& cut < s@.len()
                        &&& d.user_id_text() == nfc_of(user_part)
                        &&& d.device_name_text() == nfc_of(dev_part)
                        &&& valid_id_text(nfc_of(user_part))
                        &&& valid_id_text(nfc_of(dev_part))
                        &&& d.wf()
                    },
                    None => cut == s@.len() || !valid_id_text(nfc_of(user_part))
                        || !valid_id_text(nfc_of(dev_part)),
                }
            }),
    {
        proof {
            lemma_first_index(s@, '@');
        }
        let n = s.unicode_len();
        let mut i: usize = 0;
        while i < n && s.get_char(i) != '@'
            invariant
                0 <= i <= n,
                n == s@.len(),
                forall|j: int| 0 <= j < i ==> s@[j] != '@',
            decreases n - i,
        {
            i = i + 1;
        }
        proof {
            let fi = first_index(s@, '@');
            if fi < i {
                assert(s@[fi] == '@');
            }
            if i < n && i < fi {
                assert(s@[i as int] != '@');
            }
            assert(i as int == fi);
        }
        if i == n {
            return None;
        }
        let user_part = s.substring_char(0, i);
        let dev_part = s.substring_char(i + 1, n);
        let user_id = match UserID::parse(user_part) {
            Some(u) => u,
            None => {
                return None;
            },
        };
        let device_name = match DeviceName::parse(dev_part) {
            Some(d) => d,
            None => {
                return None;
            },
        };
        Some(DeviceID::new(user_id, device_name))
    }
}

impl core::str::FromStr for DeviceID {
    type Err = &'static str;

    fn from_str(s: &str) -> Result<Self, Self::Err> {
        match DeviceID::parse(s) {
            Some(id) => Ok(id),
            None => Err("Invalid DeviceID"),
        }
    }
}

/// Numeric handle to an open file, exchanged with the storage collaborator.
#[derive(Debug, Clone, Copy, PartialEq, Eq, Hash, Structural)]
pub struct FileDescriptor(pub u32);

} // verus!
