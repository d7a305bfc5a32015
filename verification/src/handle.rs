//! Human identity attached to a user: a validated email address plus a
//! purely informative display label.

use crate::foreign::{email_is_valid, email_valid, nfc_normalize, nfc_of};
use crate::ids::{first_index, lemma_first_index};
use vstd::prelude::*;
use vstd::string::*;

verus! {

broadcast use vstd::string::group_string_axioms;

/// Characters that RFC 5322 does not allow in a display label.
pub open spec fn label_char_ok(c: char) -> bool {
    !(c == '(' || c == ')' || c == '<' || c == '>' || c == '@' || c == ',' || c == ':' || c == ';'
        || c == '\\' || c == '"' || c == '[' || c == ']')
}

/// A normalized email is accepted when it is syntactically valid and its
/// UTF-8 form is under 255 bytes.
pub open spec fn valid_handle_email(e: Seq<char>) -> bool {
    &&& email_valid(e)
    &&& vstd::utf8::encode_utf8(e).len() < 255
}

/// A normalized label is accepted when it is non-empty, under 255 UTF-8
/// bytes, and free of the characters RFC 5322 reserves.
pub open spec fn valid_handle_label(l: Seq<char>) -> bool {
    &&& l.len() > 0
    &&& vstd::utf8::encode_utf8(l).len() < 255
    &&& forall|i: int| 0 <= i < l.len() ==> label_char_ok(#[trigger] l[i])
}

/// A validated email address and display label, rendered as
/// `label <email>`.  Two handles are the same person exactly when their
/// emails agree; the label is informative only.
#[derive(Debug, Clone)]
pub struct HumanHandle {
    email: String,
    label: String,
    display: String,
}

impl HumanHandle {
    pub closed spec fn email_text(&self) -> Seq<char> {
        self.email@
    }

    pub closed spec fn label_text(&self) -> Seq<char> {
        self.label@
    }

    pub closed spec fn display_text(&self) -> Seq<char> {
        self.display@
    }

    pub open spec fn wf(&self) -> bool {
        &&& valid_handle_email(self.email_text())
        &&& valid_handle_label(self.label_text())
        &&& self.display_text() == self.label_text() + " <"@ + self.email_text() + ">"@
    }

    /// Normalizes and validates an email and a label.  The email is checked
    /// first, as its error message reports.
    pub fn new(email: &str, label: &str) -> (r: Result<HumanHandle, &'static str>)
        ensures
            match r {
                Ok(h) => {
                    &&& valid_handle_email(nfc_of(email@))
                    &&& valid_handle_label(nfc_of(label@))
                    &&& h.email_text() == nfc_of(email@)
                    &&& h.label_text() == nfc_of(label@)
                    &&& h.wf()
                },
                Err(e) => {
                    &&& !valid_handle_email(nfc_of(email@)) || !valid_handle_label(
                        nfc_of(label@),
                    )
                    &&& if !valid_handle_email(nfc_of(email@)) {
                        e@ == "Invalid email address"@
                    } else {
                        e@ == "Invalid label"@
                    }
                },
            },
    {
        let email_n = nfc_normalize(email);
        let label_n = nfc_normalize(label);

        if !email_is_valid(email_n.as_str()) || email_n.as_str().as_bytes().len() >= 255 {
            return Err("Invalid email address");
        }
        let label_len = label_n.as_str().unicode_len();
        if label_len == 0 || label_n.as_str().as_bytes().len() >= 255 {
            return Err("Invalid label");
        }
        let mut i: usize = 0;
        while i < label_len
            invariant
                0 <= i <= label_len,
                label_len == label_n@.len(),
                label_n@ == nfc_of(label@),
                valid_handle_email(nfc_of(email@)),
                forall|j: int| 0 <= j < i ==> label_char_ok(#[trigger] label_n@[j]),
            decreases label_len - i,
        {
            let c = label_n.as_str().get_char(i);
            let bad = match c {
                '(' | ')' | '<' | '>' | '@' | ',' | ':' | ';' | '\\' | '"' | '[' | ']' => true,
                _ => false,
            };
            if bad {
                proof {
                    assert(!label_char_ok(nfc_of(label@)[i as int]));
                    assert(!valid_handle_label(nfc_of(label@)));
                }
                return Err("Invalid label");
            }
            i = i + 1;
        }

        let mut display = String::from_str(label_n.as_str());
        display.append(" <");
        display.append(email_n.as_str());
        display.append(">");
        Ok(HumanHandle { email: email_n, label: label_n, display })
    }

    /// Accepts an email and label that are already valid, without
    /// renormalizing them; used when a handle comes back over the wire.
    pub fn from_validated(email: String, label: String) -> (r: Option<HumanHandle>)
        ensures
            match r {
                Some(h) => {
                    &&& h.email_text() == email@
                    &&& h.label_text() == label@
                    &&& h.wf()
                },
                None => !valid_handle_email(email@) || !valid_handle_label(label@),
            },
    {
        if !email_is_valid(email.as_str()) || email.as_str().as_bytes().len() >= 255 {
            return None;
        }
        let label_len = label.as_str().unicode_len();
        if label_len == 0 || label.as_str().as_bytes().len() >= 255 {
            return None;
        }
        let mut i: usize = 0;
        while i < label_len
            invariant
                0 <= i <= label_len,
                label_len == label@.len(),
                valid_handle_email(email@),
                forall|j: int| 0 <= j < i ==> label_char_ok(#[trigger] label@[j]),
            decreases label_len - i,
        {
            let c = label.as_str().get_char(i);
            let bad = match c {
                '(' | ')' | '<' | '>' | '@' | ',' | ':' | ';' | '\\' | '"' | '[' | ']' => true,
                _ => false,
            };
            if bad {
                proof {
                    assert(!label_char_ok(label@[i as int]));
                    assert(!valid_handle_label(label@));
                }
                return None;
            }
            i = i + 1;
        }
        let mut display = String::from_str(label.as_str());
        display.append(" <");
        display.append(email.as_str());
        display.append(">");
        Some(HumanHandle { email, label, display })
    }

    /// A copy of this handle.
    pub fn duplicate(&self) -> (r: HumanHandle)
        ensures
            r == *self,
    {
        let r = HumanHandle {
            email: self.email.clone(),
            label: self.label.clone(),
            display: self.display.clone(),
        };
        proof {
            assert(*self == (HumanHandle {
                email: self.email,
                label: self.label,
                display: self.display,
            }));
        }
        r
    }

    /// The validated email address.
    pub fn email(&self) -> (r: &str)
        ensures
            r@ == self.email_text(),
    {
        self.email.as_str()
    }

    /// The informative display label.
    pub fn label(&self) -> (r: &str)
        ensures
            r@ == self.label_text(),
    {
        self.label.as_str()
    }

    /// The combined `label <email>` rendering.
    pub fn as_str(&self) -> (r: &str)
        ensures
            r@ == self.display_text(),
    {
        self.display.as_str()
    }

    /// Parses a `label <email>` rendering: the label is everything up to
    /// (but not including) the character before the first `<`, the email
    /// everything between the first `<` and the first `>`.
    pub fn parse(s: &str) -> (r: Result<HumanHandle, &'static str>)
        ensures
            ({
                let a = first_index(s@, '<');
                let b = first_index(s@, '>');
                let em = nfc_of(s@.subrange(a + 1, b));
                let la = nfc_of(s@.subrange(0, a - 1));
                match r {
                    Ok(h) => {
                        &&& a < s@.len()
                        &&& b < s@.len()
                        &&& 1 <= a
                        &&& a < b
                        &&& valid_handle_email(em)
                        &&& valid_handle_label(la)
                        &&& h.email_text() == em
                        &&& h.label_text() == la
                        &&& h.wf()
                    },
                    Err(_) => a == s@.len() || b == s@.len() || a < 1 || b < a || !valid_handle_email(
                        em,
                    ) || !valid_handle_label(la),
                }
            }),
    {
        proof {
            lemma_first_index(s@, '<');
            lemma_first_index(s@, '>');
        }
        let n = s.unicode_len();
        let mut a: usize = 0;
        while a < n && s.get_char(a) != '<'
            invariant
                0 <= a <= n,
                n == s@.len(),
                forall|j: int| 0 <= j < a ==> s@[j] != '<',
            decreases n - a,
        {
            a = a + 1;
        }
        let mut b: usize = 0;
        while b < n && s.get_char(b) != '>'
            invariant
                0 <= b <= n,
                n == s@.len(),
                forall|j: int| 0 <= j < b ==> s@[j] != '>',
            decreases n - b,
        {
            b = b + 1;
        }
        proof {
            let fa = first_index(s@, '<');
            let fb = first_index(s@, '>');
            if fa < a {
                assert(s@[fa] == '<');
            }
            if a < n && a < fa {
                assert(s@[a as int] != '<');
            }
            if fb < b {
                assert(s@[fb] == '>');
            }
            if b < n && b < fb {
                assert(s@[b as int] != '>');
            }
            assert(a as int == fa && b as int == fb);
        }
        if a == n || b == n {
            return Err("Email is missing");
        }
        if a < 1 || b < a {
            return Err("Email is missing");
        }
        let label_part = s.substring_char(0, a - 1);
        let email_part = s.substring_char(a + 1, b);
        HumanHandle::new(email_part, label_part)
    }
}

/// Handles compare by email alone; the label is purely informative.
impl PartialEq for HumanHandle {
    fn eq(&self, other: &HumanHandle) -> (r: bool) {
        self.email == other.email
    }
}

impl vstd::std_specs::cmp::PartialEqSpecImpl for HumanHandle {
    open spec fn obeys_eq_spec() -> bool {
        true
    }

    open spec fn eq_spec(&self, other: &HumanHandle) -> bool {
        self.email_text() == other.email_text()
    }
}

impl Eq for HumanHandle {

}

} // verus!
