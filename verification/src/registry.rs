//! The relay-side invitation registry: one record per token, holding the
//! invitation's lifecycle status and the step slots the two peers fill as
//! the handshake advances.
//!
//! Every command is specified as a pure transition on the registry's view
//! (a sequence of [`InvitationView`]) so that ordering laws can be stated
//! and proved once, independently of the executable code.

use crate::crypto::{HashDigest, PublicKey};
use crate::foreign::{email_is_valid, email_valid, sha256_of};
use crate::handle::HumanHandle;
use crate::ids::UserID;
use crate::invite::{
    clone_bytes, InvitationDeletedReason, InvitationEmailSentStatus, InvitationStatus,
    InvitationToken, InvitationType,
};
use crate::profile::UserProfile;
use vstd::bytes::{
    lemma_auto_spec_u64_to_from_le_bytes, spec_u64_from_le_bytes, spec_u64_to_le_bytes,
    u64_to_le_bytes,
};
use vstd::prelude::*;

verus! {

/// What one handshake command did: a step reply carrying the counterpart's
/// value, a bare acknowledgement, a request to poll again, or one of the
/// closed error outcomes.
#[derive(Debug, Clone, PartialEq, Eq)]
pub enum Outcome<R> {
    Reply(R),
    Pending,
}

/// The mathematical value of one invitation record.
pub struct InvitationView {
    pub token: Seq<u8>,
    pub kind: InvitationType,
    pub claimer_email: Option<Seq<char>>,
    pub greeter: Seq<char>,
    pub greeter_handle: Option<HumanHandle>,
    pub created_on: u64,
    pub status: InvitationStatus,
    pub deleted_reason: Option<InvitationDeletedReason>,
    pub greeter_public_key: Option<Seq<u8>>,
    pub claimer_public_key: Option<Seq<u8>>,
    pub claimer_hashed_nonce: Option<Seq<u8>>,
    pub greeter_nonce: Option<Seq<u8>>,
    pub claimer_nonce: Option<Seq<u8>>,
    pub claimer_trust: bool,
    pub greeter_trust: bool,
    pub claimer_payload: Option<Seq<u8>>,
    pub greeter_payload: Option<Seq<u8>>,
}

/// One invitation record as the registry holds it.
pub struct Invitation {
    pub token: InvitationToken,
    pub kind: InvitationType,
    pub claimer_email: Option<String>,
    pub greeter: UserID,
    pub greeter_handle: Option<HumanHandle>,
    pub created_on: u64,
    pub status: InvitationStatus,
    pub deleted_reason: Option<InvitationDeletedReason>,
    pub greeter_public_key: Option<PublicKey>,
    pub claimer_public_key: Option<PublicKey>,
    pub claimer_hashed_nonce: Option<HashDigest>,
    pub greeter_nonce: Option<Vec<u8>>,
    pub claimer_nonce: Option<Vec<u8>>,
    pub claimer_trust: bool,
    pub greeter_trust: bool,
    pub claimer_payload: Option<Vec<u8>>,
    pub greeter_payload: Option<Vec<u8>>,
}

pub open spec fn opt_email_view(o: Option<String>) -> Option<Seq<char>> {
    match o {
        Some(e) => Some(e@),
        None => None,
    }
}

pub open spec fn opt_key_view(o: Option<PublicKey>) -> Option<Seq<u8>> {
    match o {
        Some(k) => Some(k@),
        None => None,
    }
}

pub open spec fn opt_digest_view(o: Option<HashDigest>) -> Option<Seq<u8>> {
    match o {
        Some(d) => Some(d@),
        None => None,
    }
}

pub open spec fn opt_bytes_view(o: Option<Vec<u8>>) -> Option<Seq<u8>> {
    match o {
        Some(b) => Some(b@),
        None => None,
    }
}

impl View for Invitation {
    type V = InvitationView;

    open spec fn view(&self) -> InvitationView {
        InvitationView {
            token: self.token@,
            kind: self.kind,
            claimer_email: opt_email_view(self.claimer_email),
            greeter: self.greeter@,
            greeter_handle: self.greeter_handle,
            created_on: self.created_on,
            status: self.status,
            deleted_reason: self.deleted_reason,
            greeter_public_key: opt_key_view(self.greeter_public_key),
            claimer_public_key: opt_key_view(self.claimer_public_key),
            claimer_hashed_nonce: opt_digest_view(self.claimer_hashed_nonce),
            greeter_nonce: opt_bytes_view(self.greeter_nonce),
            claimer_nonce: opt_bytes_view(self.claimer_nonce),
            claimer_trust: self.claimer_trust,
            greeter_trust: self.greeter_trust,
            claimer_payload: opt_bytes_view(self.claimer_payload),
            greeter_payload: opt_bytes_view(self.greeter_payload),
        }
    }
}

/// Both public keys are on deposit: the wait-peer step is complete.
pub open spec fn step1_done(inv: InvitationView) -> bool {
    inv.greeter_public_key is Some && inv.claimer_public_key is Some
}

/// Both nonces are on deposit: the commit-reveal exchange is complete.
pub open spec fn step2_done(inv: InvitationView) -> bool {
    inv.greeter_nonce is Some && inv.claimer_nonce is Some
}

/// Both sides signified trust: the barrier before the payload step is open.
pub open spec fn step3_done(inv: InvitationView) -> bool {
    inv.claimer_trust && inv.greeter_trust
}

/// Internal consistency of one invitation record: the lifecycle status
/// reflects the slots, slots are filled in protocol order, and a revealed
/// claimer nonce always matches its earlier commitment.
pub open spec fn inv_wf(inv: InvitationView) -> bool {
    &&& inv.token.len() == 16
    &&& (inv.kind is User <==> inv.claimer_email is Some)
    &&& (inv.status is Deleted <==> inv.deleted_reason is Some)
    &&& (inv.status is Idle ==> !step1_done(inv))
    &&& (inv.status is Ready ==> step1_done(inv))
    &&& (inv.greeter_public_key matches Some(k) ==> k.len() == 32)
    &&& (inv.claimer_public_key matches Some(k) ==> k.len() == 32)
    &&& (inv.claimer_hashed_nonce matches Some(h) ==> h.len() == 32)
    &&& (inv.claimer_hashed_nonce is Some ==> step1_done(inv))
    &&& (inv.greeter_nonce is Some ==> inv.claimer_hashed_nonce is Some)
    &&& (inv.claimer_nonce is Some ==> inv.greeter_nonce is Some)
    &&& (inv.claimer_nonce matches Some(n) ==> inv.claimer_hashed_nonce matches Some(h)
        && sha256_of(n) == h)
    &&& (inv.claimer_trust ==> step2_done(inv))
    &&& (inv.greeter_trust ==> step2_done(inv))
    &&& (inv.claimer_payload is Some ==> step3_done(inv))
    &&& (inv.greeter_payload is Some ==> step3_done(inv))
}

/// Index of the invitation holding token `t`; equals `s.len()` when no
/// invitation holds it.
pub open spec fn find_token(s: Seq<InvitationView>, t: Seq<u8>) -> int
    decreases s.len(),
{
    if s.len() == 0 {
        0
    } else if s[0].token == t {
        0
    } else {
        1 + find_token(s.drop_first(), t)
    }
}

pub proof fn lemma_find_token(s: Seq<InvitationView>, t: Seq<u8>)
    ensures
        0 <= find_token(s, t) <= s.len(),
        find_token(s, t) < s.len() ==> s[find_token(s, t)].token == t,
        forall|j: int| 0 <= j < find_token(s, t) ==> s[j].token != t,
    decreases s.len(),
{
    if s.len() != 0 && s[0].token != t {
        lemma_find_token(s.drop_first(), t);
        assert forall|j: int| 0 <= j < find_token(s, t) implies s[j].token != t by {
            if j > 0 {
                assert(s.drop_first()[j - 1] == s[j]);
            }
        }
    }
}

/// Well-formedness of the whole registry state: every record is internally
/// consistent and no two records share a token.
pub open spec fn state_wf(s: Seq<InvitationView>) -> bool {
    &&& forall|i: int| 0 <= i < s.len() ==> inv_wf(#[trigger] s[i])
    &&& forall|i: int, j: int|
        0 <= i < s.len() && 0 <= j < s.len() && i != j ==> (#[trigger] s[i].token) != (
        #[trigger] s[j].token)
}

/// The relay-side registry.  The member email list and the email channel
/// flag stand for the directory and mail collaborators the relay consults
/// when an invitation is issued.
pub struct Registry {
    invitations: Vec<Invitation>,
    member_emails: Vec<String>,
    email_available: bool,
    next_seq: u64,
}

impl View for Registry {
    type V = Seq<InvitationView>;

    closed spec fn view(&self) -> Seq<InvitationView> {
        Seq::new(self.invitations@.len(), |i: int| self.invitations@[i]@)
    }
}

impl Registry {
    pub closed spec fn members(&self) -> Seq<Seq<char>> {
        self.member_emails@.map_values(|e: String| e@)
    }

    pub closed spec fn email_ok(&self) -> bool {
        self.email_available
    }

    pub closed spec fn seq_counter(&self) -> u64 {
        self.next_seq
    }

    /// The registry is well formed when its state is, and every token's
    /// first eight bytes stay below the allocation counter, which is how
    /// `create` never reuses a token.
    pub open spec fn wf(&self) -> bool {
        &&& state_wf(self@)
        &&& forall|i: int|
            0 <= i < self@.len() ==> spec_u64_from_le_bytes(
                #[trigger] self@[i].token.subrange(0, 8),
            ) < self.seq_counter()
    }

    /// An empty registry in front of the given member directory.
    pub fn new(member_emails: Vec<String>, email_available: bool) -> (r: Registry)
        ensures
            r@ =~= Seq::<InvitationView>::empty(),
            r.members() == member_emails@.map_values(|e: String| e@),
            r.email_ok() == email_available,
            r.wf(),
    {
        Registry { invitations: Vec::new(), member_emails, email_available, next_seq: 0 }
    }

    /// Whether an email already belongs to an enrolled member.
    fn is_member(&self, email: &String) -> (r: bool)
        ensures
            r == self.members().contains(email@),
    {
        let mut i: usize = 0;
        while i < self.member_emails.len()
            invariant
                0 <= i <= self.member_emails@.len(),
                forall|j: int| 0 <= j < i ==> self.member_emails@[j]@ != email@,
                self.members() == self.member_emails@.map_values(|e: String| e@),
                self.members().len() == self.member_emails@.len(),
            decreases self.member_emails@.len() - i,
        {
            if self.member_emails[i].eq(email) {
                proof {
                    assert(self.members()[i as int] == email@);
                }
                return true;
            }
            i = i + 1;
        }
        proof {
            assert forall|j: int| 0 <= j < self.members().len() implies self.members()[j]
                != email@ by {
                assert(self.members()[j] == self.member_emails@[j]@);
            }
        }
        false
    }

    /// Index of the invitation holding `token`, or the current length.
    fn find(&self, token: &InvitationToken) -> (r: usize)
        ensures
            r == find_token(self@, token@),
    {
        proof {
            lemma_find_token(self@, token@);
        }
        let n = self.invitations.len();
        let mut i: usize = 0;
        while i < n && !self.invitations[i].token.matches(token)
            invariant
                0 <= i <= n,
                n == self@.len(),
                self@.len() == self.invitations@.len(),
                forall|j: int| 0 <= j < i ==> (#[trigger] self@[j]).token != token@,
            decreases n - i,
        {
            proof {
                assert(self@[i as int].token == self.invitations@[i as int].token@);
            }
            i = i + 1;
        }
        proof {
            let ft = find_token(self@, token@);
            if ft < i {
                assert(self@[ft].token == token@);
            }
            if i < n {
                assert(self@[i as int].token == self.invitations@[i as int].token@);
                if i < ft {
                    assert(self@[i as int].token != token@);
                }
            }
            assert(i as int == ft);
        }
        i
    }
}

/// What one handshake transition yields, at specification level: a reply
/// releasing the counterpart's value, a bare acknowledgement, a request to
/// poll again, or one of the closed error outcomes.
pub enum StepResult {
    NotFound,
    AlreadyDeleted,
    InvalidState,
    Pending,
    Data(Seq<u8>),
    Done,
}

/// Step 1, claimer side: deposit the claimer's public key; the reply
/// carries the greeter's key and is withheld until that key is on deposit.
/// Re-running the step is allowed until the claimer commits its nonce.
pub open spec fn step_claimer_wait_peer(s: Seq<InvitationView>, t: Seq<u8>, ck: Seq<u8>) -> (
    Seq<InvitationView>,
    StepResult,
) {
    let i = find_token(s, t);
    if i == s.len() {
        (s, StepResult::NotFound)
    } else if s[i].status is Deleted {
        (s, StepResult::AlreadyDeleted)
    } else if s[i].claimer_hashed_nonce is Some {
        (s, StepResult::InvalidState)
    } else {
        let inv = s[i];
        let ready = inv.greeter_public_key is Some;
        let inv2 = InvitationView {
            claimer_public_key: Some(ck),
            status: if ready {
                InvitationStatus::Ready
            } else {
                inv.status
            },
            ..inv
        };
        (
            s.update(i, inv2),
            match inv.greeter_public_key {
                Some(gk) => StepResult::Data(gk),
                None => StepResult::Pending,
            },
        )
    }
}

/// Step 1, greeter side: deposit the greeter's public key; the reply
/// carries the claimer's key and is withheld until that key is on deposit.
pub open spec fn step_greeter_wait_peer(s: Seq<InvitationView>, t: Seq<u8>, gk: Seq<u8>) -> (
    Seq<InvitationView>,
    StepResult,
) {
    let i = find_token(s, t);
    if i == s.len() {
        (s, StepResult::NotFound)
    } else if s[i].status is Deleted {
        (s, StepResult::AlreadyDeleted)
    } else if s[i].claimer_hashed_nonce is Some {
        (s, StepResult::InvalidState)
    } else {
        let inv = s[i];
        let ready = inv.claimer_public_key is Some;
        let inv2 = InvitationView {
            greeter_public_key: Some(gk),
            status: if ready {
                InvitationStatus::Ready
            } else {
                inv.status
            },
            ..inv
        };
        (
            s.update(i, inv2),
            match inv.claimer_public_key {
                Some(ck) => StepResult::Data(ck),
                None => StepResult::Pending,
            },
        )
    }
}

/// Step 2a, claimer side: commit to the claimer's nonce by depositing its
/// hash; the reply carries the greeter's nonce once the greeter reveals it.
/// A commitment, once made, cannot be replaced by a different one.
pub open spec fn step_claimer_send_hashed_nonce(s: Seq<InvitationView>, t: Seq<u8>, h: Seq<u8>) -> (
    Seq<InvitationView>,
    StepResult,
) {
    let i = find_token(s, t);
    if i == s.len() {
        (s, StepResult::NotFound)
    } else if s[i].status is Deleted {
        (s, StepResult::AlreadyDeleted)
    } else if !step1_done(s[i]) {
        (s, StepResult::InvalidState)
    } else if s[i].claimer_hashed_nonce matches Some(h0) && h0 != h {
        (s, StepResult::InvalidState)
    } else {
        let inv = s[i];
        let inv2 = InvitationView { claimer_hashed_nonce: Some(h), ..inv };
        (
            s.update(i, inv2),
            match inv.greeter_nonce {
                Some(gn) => StepResult::Data(gn),
                None => StepResult::Pending,
            },
        )
    }
}

/// Step 2a, greeter side: fetch the claimer's nonce commitment; withheld
/// until the claimer has committed.  Re-fetching is allowed.
pub open spec fn step_greeter_get_hashed_nonce(s: Seq<InvitationView>, t: Seq<u8>) -> (
    Seq<InvitationView>,
    StepResult,
) {
    let i = find_token(s, t);
    if i == s.len() {
        (s, StepResult::NotFound)
    } else if s[i].status is Deleted {
        (s, StepResult::AlreadyDeleted)
    } else if !step1_done(s[i]) {
        (s, StepResult::InvalidState)
    } else {
        match s[i].claimer_hashed_nonce {
            Some(h) => (s, StepResult::Data(h)),
            None => (s, StepResult::Pending),
        }
    }
}

/// Step 2b, greeter side: reveal the greeter's nonce.  The claimer must
/// have committed first — revealing against an uncommitted invitation is
/// out of order — and the reply carries the claimer's nonce once revealed.
pub open spec fn step_greeter_send_nonce(s: Seq<InvitationView>, t: Seq<u8>, gn: Seq<u8>) -> (
    Seq<InvitationView>,
    StepResult,
) {
    let i = find_token(s, t);
    if i == s.len() {
        (s, StepResult::NotFound)
    } else if s[i].status is Deleted {
        (s, StepResult::AlreadyDeleted)
    } else if s[i].claimer_hashed_nonce is None {
        (s, StepResult::InvalidState)
    } else if s[i].greeter_nonce matches Some(g0) && g0 != gn {
        (s, StepResult::InvalidState)
    } else {
        let inv = s[i];
        let inv2 = InvitationView { greeter_nonce: Some(gn), ..inv };
        (
            s.update(i, inv2),
            match inv.claimer_nonce {
                Some(cn) => StepResult::Data(cn),
                None => StepResult::Pending,
            },
        )
    }
}

/// Step 2b, claimer side: reveal the claimer's nonce.  The nonce must hash
/// to the commitment deposited in step 2a; a mismatch is rejected as a
/// security-relevant out-of-order condition and changes nothing.
pub open spec fn step_claimer_send_nonce(s: Seq<InvitationView>, t: Seq<u8>, cn: Seq<u8>) -> (
    Seq<InvitationView>,
    StepResult,
) {
    let i = find_token(s, t);
    if i == s.len() {
        (s, StepResult::NotFound)
    } else if s[i].status is Deleted {
        (s, StepResult::AlreadyDeleted)
    } else if s[i].greeter_nonce is None {
        (s, StepResult::InvalidState)
    } else if s[i].claimer_hashed_nonce matches Some(h) && sha256_of(cn) != h {
        (s, StepResult::InvalidState)
    } else if s[i].claimer_nonce matches Some(c0) && c0 != cn {
        (s, StepResult::InvalidState)
    } else {
        (s.update(i, InvitationView { claimer_nonce: Some(cn), ..s[i] }), StepResult::Done)
    }
}

/// Step 3a, claimer side: signify that the humans compared the codes.
pub open spec fn step_claimer_signify_trust(s: Seq<InvitationView>, t: Seq<u8>) -> (
    Seq<InvitationView>,
    StepResult,
) {
    let i = find_token(s, t);
    if i == s.len() {
        (s, StepResult::NotFound)
    } else if s[i].status is Deleted {
        (s, StepResult::AlreadyDeleted)
    } else if !step2_done(s[i]) {
        (s, StepResult::InvalidState)
    } else {
        (s.update(i, InvitationView { claimer_trust: true, ..s[i] }), StepResult::Done)
    }
}

/// Step 3a, greeter side: wait until the claimer has signified trust.
pub open spec fn step_greeter_wait_peer_trust(s: Seq<InvitationView>, t: Seq<u8>) -> (
    Seq<InvitationView>,
    StepResult,
) {
    let i = find_token(s, t);
    if i == s.len() {
        (s, StepResult::NotFound)
    } else if s[i].status is Deleted {
        (s, StepResult::AlreadyDeleted)
    } else if !step2_done(s[i]) {
        (s, StepResult::InvalidState)
    } else if s[i].claimer_trust {
        (s, StepResult::Done)
    } else {
        (s, StepResult::Pending)
    }
}

/// Step 3b, claimer side: wait until the greeter has signified trust.
pub open spec fn step_claimer_wait_peer_trust(s: Seq<InvitationView>, t: Seq<u8>) -> (
    Seq<InvitationView>,
    StepResult,
) {
    let i = find_token(s, t);
    if i == s.len() {
        (s, StepResult::NotFound)
    } else if s[i].status is Deleted {
        (s, StepResult::AlreadyDeleted)
    } else if !step2_done(s[i]) {
        (s, StepResult::InvalidState)
    } else if s[i].greeter_trust {
        (s, StepResult::Done)
    } else {
        (s, StepResult::Pending)
    }
}

/// Step 3b, greeter side: signify that the humans compared the codes.
pub open spec fn step_greeter_signify_trust(s: Seq<InvitationView>, t: Seq<u8>) -> (
    Seq<InvitationView>,
    StepResult,
) {
    let i = find_token(s, t);
    if i == s.len() {
        (s, StepResult::NotFound)
    } else if s[i].status is Deleted {
        (s, StepResult::AlreadyDeleted)
    } else if !step2_done(s[i]) {
        (s, StepResult::InvalidState)
    } else {
        (s.update(i, InvitationView { greeter_trust: true, ..s[i] }), StepResult::Done)
    }
}

/// Step 4, claimer side: deposit a payload; the reply carries the
/// greeter's most recently deposited payload.  The step repeats at will
/// once both sides have signified trust.
pub open spec fn step_claimer_communicate(s: Seq<InvitationView>, t: Seq<u8>, p: Seq<u8>) -> (
    Seq<InvitationView>,
    StepResult,
) {
    let i = find_token(s, t);
    if i == s.len() {
        (s, StepResult::NotFound)
    } else if s[i].status is Deleted {
        (s, StepResult::AlreadyDeleted)
    } else if !step3_done(s[i]) {
        (s, StepResult::InvalidState)
    } else {
        let inv = s[i];
        let inv2 = InvitationView { claimer_payload: Some(p), ..inv };
        (
            s.update(i, inv2),
            match inv.greeter_payload {
                Some(gp) => StepResult::Data(gp),
                None => StepResult::Pending,
            },
        )
    }
}

/// Step 4, greeter side: deposit a payload; the reply carries the
/// claimer's most recently deposited payload.
pub open spec fn step_greeter_communicate(s: Seq<InvitationView>, t: Seq<u8>, p: Seq<u8>) -> (
    Seq<InvitationView>,
    StepResult,
) {
    let i = find_token(s, t);
    if i == s.len() {
        (s, StepResult::NotFound)
    } else if s[i].status is Deleted {
        (s, StepResult::AlreadyDeleted)
    } else if !step3_done(s[i]) {
        (s, StepResult::InvalidState)
    } else {
        let inv = s[i];
        let inv2 = InvitationView { greeter_payload: Some(p), ..inv };
        (
            s.update(i, inv2),
            match inv.claimer_payload {
                Some(cp) => StepResult::Data(cp),
                None => StepResult::Pending,
            },
        )
    }
}

/// Marking an invitation terminal: idempotent attempts fail.
pub open spec fn spec_delete(
    s: Seq<InvitationView>,
    t: Seq<u8>,
    reason: InvitationDeletedReason,
) -> (Seq<InvitationView>, crate::protocol::InviteDeleteRep) {
    let i = find_token(s, t);
    if i == s.len() {
        (s, crate::protocol::InviteDeleteRep::NotFound)
    } else if s[i].status is Deleted {
        (s, crate::protocol::InviteDeleteRep::AlreadyDeleted)
    } else {
        (
            s.update(
                i,
                InvitationView {
                    status: InvitationStatus::Deleted,
                    deleted_reason: Some(reason),
                    ..s[i]
                },
            ),
            crate::protocol::InviteDeleteRep::Success,
        )
    }
}

impl Registry {
    /// Marks an invitation terminal.  Deleting an already-deleted token
    /// fails with `AlreadyDeleted`; an unknown token fails with `NotFound`.
    pub fn delete(&mut self, token: &InvitationToken, reason: InvitationDeletedReason) -> (r:
        crate::protocol::InviteDeleteRep)
        requires
            old(self).wf(),
        ensures
            final(self).wf(),
            final(self)@ == spec_delete(old(self)@, token@, reason).0,
            r == spec_delete(old(self)@, token@, reason).1,
            final(self).members() == old(self).members(),
            final(self).email_ok() == old(self).email_ok(),
            final(self).seq_counter() == old(self).seq_counter(),
    {
        proof {
            lemma_find_token(self@, token@);
        }
        let idx = self.find(token);
        if idx == self.invitations.len() {
            return crate::protocol::InviteDeleteRep::NotFound;
        }
        if matches!(self.invitations[idx].status, InvitationStatus::Deleted) {
            return crate::protocol::InviteDeleteRep::AlreadyDeleted;
        }
        let inv = &mut self.invitations[idx];
        inv.status = InvitationStatus::Deleted;
        inv.deleted_reason = Some(reason);
        proof {
            assert(self@ =~= spec_delete(old(self)@, token@, reason).0);
        }
        crate::protocol::InviteDeleteRep::Success
    }
}

/// How a step reply to the claimer's wait-peer command reflects a
/// transition result; this command's reply has no `AlreadyDeleted` variant,
/// so a deleted token reads as unknown.
pub open spec fn matches_rep_1c(
    r: Outcome<crate::protocol::Invite1ClaimerWaitPeerRep>,
    sr: StepResult,
) -> bool {
    match sr {
        StepResult::NotFound => r == Outcome::Reply(
            crate::protocol::Invite1ClaimerWaitPeerRep::NotFound,
        ),
        StepResult::AlreadyDeleted => r == Outcome::Reply(
            crate::protocol::Invite1ClaimerWaitPeerRep::NotFound,
        ),
        StepResult::InvalidState => r == Outcome::Reply(
            crate::protocol::Invite1ClaimerWaitPeerRep::InvalidState,
        ),
        StepResult::Pending => r is Pending,
        StepResult::Data(d) => r matches Outcome::Reply(
            crate::protocol::Invite1ClaimerWaitPeerRep::Success { greeter_public_key: k },
        ) && k@ == d,
        StepResult::Done => false,
    }
}

pub open spec fn matches_rep_1g(
    r: Outcome<crate::protocol::Invite1GreeterWaitPeerRep>,
    sr: StepResult,
) -> bool {
    match sr {
        StepResult::NotFound => r == Outcome::Reply(
            crate::protocol::Invite1GreeterWaitPeerRep::NotFound,
        ),
        StepResult::AlreadyDeleted => r == Outcome::Reply(
            crate::protocol::Invite1GreeterWaitPeerRep::AlreadyDeleted,
        ),
        StepResult::InvalidState => r == Outcome::Reply(
            crate::protocol::Invite1GreeterWaitPeerRep::InvalidState,
        ),
        StepResult::Pending => r is Pending,
        StepResult::Data(d) => r matches Outcome::Reply(
            crate::protocol::Invite1GreeterWaitPeerRep::Success { claimer_public_key: k },
        ) && k@ == d,
        StepResult::Done => false,
    }
}

pub open spec fn matches_rep_2ac(
    r: Outcome<crate::protocol::Invite2aClaimerSendHashedNonceRep>,
    sr: StepResult,
) -> bool {
    match sr {
        StepResult::NotFound => r == Outcome::Reply(
            crate::protocol::Invite2aClaimerSendHashedNonceRep::NotFound,
        ),
        StepResult::AlreadyDeleted => r == Outcome::Reply(
            crate::protocol::Invite2aClaimerSendHashedNonceRep::AlreadyDeleted,
        ),
        StepResult::InvalidState => r == Outcome::Reply(
            crate::protocol::Invite2aClaimerSendHashedNonceRep::InvalidState,
        ),
        StepResult::Pending => r is Pending,
        StepResult::Data(d) => r matches Outcome::Reply(
            crate::protocol::Invite2aClaimerSendHashedNonceRep::Success { greeter_nonce: n },
        ) && n@ == d,
        StepResult::Done => false,
    }
}

pub open spec fn matches_rep_2ag(
    r: Outcome<crate::protocol::Invite2aGreeterGetHashedNonceRep>,
    sr: StepResult,
) -> bool {
    match sr {
        StepResult::NotFound => r == Outcome::Reply(
            crate::protocol::Invite2aGreeterGetHashedNonceRep::NotFound,
        ),
        StepResult::AlreadyDeleted => r == Outcome::Reply(
            crate::protocol::Invite2aGreeterGetHashedNonceRep::AlreadyDeleted,
        ),
        StepResult::InvalidState => r == Outcome::Reply(
            crate::protocol::Invite2aGreeterGetHashedNonceRep::InvalidState,
        ),
        StepResult::Pending => r is Pending,
        StepResult::Data(d) => r matches Outcome::Reply(
            crate::protocol::Invite2aGreeterGetHashedNonceRep::Success { claimer_hashed_nonce: h },
        ) && h@ == d,
        StepResult::Done => false,
    }
}

/// This command's reply has no `AlreadyDeleted` variant.
pub open spec fn matches_rep_2bc(
    r: Outcome<crate::protocol::Invite2bClaimerSendNonceRep>,
    sr: StepResult,
) -> bool {
    match sr {
        StepResult::NotFound => r == Outcome::Reply(
            crate::protocol::Invite2bClaimerSendNonceRep::NotFound,
        ),
        StepResult::AlreadyDeleted => r == Outcome::Reply(
            crate::protocol::Invite2bClaimerSendNonceRep::NotFound,
        ),
        StepResult::InvalidState => r == Outcome::Reply(
            crate::protocol::Invite2bClaimerSendNonceRep::InvalidState,
        ),
        StepResult::Pending => r is Pending,
        StepResult::Data(d) => false,
        StepResult::Done => r == Outcome::Reply(
            crate::protocol::Invite2bClaimerSendNonceRep::Success,
        ),
    }
}

pub open spec fn matches_rep_2bg(
    r: Outcome<crate::protocol::Invite2bGreeterSendNonceRep>,
    sr: StepResult,
) -> bool {
    match sr {
        StepResult::NotFound => r == Outcome::Reply(
            crate::protocol::Invite2bGreeterSendNonceRep::NotFound,
        ),
        StepResult::AlreadyDeleted => r == Outcome::Reply(
            crate::protocol::Invite2bGreeterSendNonceRep::AlreadyDeleted,
        ),
        StepResult::InvalidState => r == Outcome::Reply(
            crate::protocol::Invite2bGreeterSendNonceRep::InvalidState,
        ),
        StepResult::Pending => r is Pending,
        StepResult::Data(d) => r matches Outcome::Reply(
            crate::protocol::Invite2bGreeterSendNonceRep::Success { claimer_nonce: n },
        ) && n@ == d,
        StepResult::Done => false,
    }
}

/// This command's reply has no `AlreadyDeleted` variant.
pub open spec fn matches_rep_3ac(
    r: Outcome<crate::protocol::Invite3aClaimerSignifyTrustRep>,
    sr: StepResult,
) -> bool {
    match sr {
        StepResult::NotFound => r == Outcome::Reply(
            crate::protocol::Invite3aClaimerSignifyTrustRep::NotFound,
        ),
        StepResult::AlreadyDeleted => r == Outcome::Reply(
            crate::protocol::Invite3aClaimerSignifyTrustRep::NotFound,
        ),
        StepResult::InvalidState => r == Outcome::Reply(
            crate::protocol::Invite3aClaimerSignifyTrustRep::InvalidState,
        ),
        StepResult::Pending => r is Pending,
        StepResult::Data(d) => false,
        StepResult::Done => r == Outcome::Reply(
            crate::protocol::Invite3aClaimerSignifyTrustRep::Success,
        ),
    }
}

pub open spec fn matches_rep_3ag(
    r: Outcome<crate::protocol::Invite3aGreeterWaitPeerTrustRep>,
    sr: StepResult,
) -> bool {
    match sr {
        StepResult::NotFound => r == Outcome::Reply(
            crate::protocol::Invite3aGreeterWaitPeerTrustRep::NotFound,
        ),
        StepResult::AlreadyDeleted => r == Outcome::Reply(
            crate::protocol::Invite3aGreeterWaitPeerTrustRep::AlreadyDeleted,
        ),
        StepResult::InvalidState => r == Outcome::Reply(
            crate::protocol::Invite3aGreeterWaitPeerTrustRep::InvalidState,
        ),
        StepResult::Pending => r is Pending,
        StepResult::Data(d) => false,
        StepResult::Done => r == Outcome::Reply(
            crate::protocol::Invite3aGreeterWaitPeerTrustRep::Success,
        ),
    }
}

/// This command's reply has no `AlreadyDeleted` variant.
pub open spec fn matches_rep_3bc(
    r: Outcome<crate::protocol::Invite3bClaimerWaitPeerTrustRep>,
    sr: StepResult,
) -> bool {
    match sr {
        StepResult::NotFound => r == Outcome::Reply(
            crate::protocol::Invite3bClaimerWaitPeerTrustRep::NotFound,
        ),
        StepResult::AlreadyDeleted => r == Outcome::Reply(
            crate::protocol::Invite3bClaimerWaitPeerTrustRep::NotFound,
        ),
        StepResult::InvalidState => r == Outcome::Reply(
            crate::protocol::Invite3bClaimerWaitPeerTrustRep::InvalidState,
        ),
        StepResult::Pending => r is Pending,
        StepResult::Data(d) => false,
        StepResult::Done => r == Outcome::Reply(
            crate::protocol::Invite3bClaimerWaitPeerTrustRep::Success,
        ),
    }
}

pub open spec fn matches_rep_3bg(
    r: Outcome<crate::protocol::Invite3bGreeterSignifyTrustRep>,
    sr: StepResult,
) -> bool {
    match sr {
        StepResult::NotFound => r == Outcome::Reply(
            crate::protocol::Invite3bGreeterSignifyTrustRep::NotFound,
        ),
        StepResult::AlreadyDeleted => r == Outcome::Reply(
            crate::protocol::Invite3bGreeterSignifyTrustRep::AlreadyDeleted,
        ),
        StepResult::InvalidState => r == Outcome::Reply(
            crate::protocol::Invite3bGreeterSignifyTrustRep::InvalidState,
        ),
        StepResult::Pending => r is Pending,
        StepResult::Data(d) => false,
        StepResult::Done => r == Outcome::Reply(
            crate::protocol::Invite3bGreeterSignifyTrustRep::Success,
        ),
    }
}

/// This command's reply has no `AlreadyDeleted` variant.
pub open spec fn matches_rep_4c(
    r: Outcome<crate::protocol::Invite4ClaimerCommunicateRep>,
    sr: StepResult,
) -> bool {
    match sr {
        StepResult::NotFound => r == Outcome::Reply(
            crate::protocol::Invite4ClaimerCommunicateRep::NotFound,
        ),
        StepResult::AlreadyDeleted => r == Outcome::Reply(
            crate::protocol::Invite4ClaimerCommunicateRep::NotFound,
        ),
        StepResult::InvalidState => r == Outcome::Reply(
            crate::protocol::Invite4ClaimerCommunicateRep::InvalidState,
        ),
        StepResult::Pending => r is Pending,
        StepResult::Data(d) => r matches Outcome::Reply(
            crate::protocol::Invite4ClaimerCommunicateRep::Success { payload: p },
        ) && p@ == d,
        StepResult::Done => false,
    }
}

pub open spec fn matches_rep_4g(
    r: Outcome<crate::protocol::Invite4GreeterCommunicateRep>,
    sr: StepResult,
) -> bool {
    match sr {
        StepResult::NotFound => r == Outcome::Reply(
            crate::protocol::Invite4GreeterCommunicateRep::NotFound,
        ),
        StepResult::AlreadyDeleted => r == Outcome::Reply(
            crate::protocol::Invite4GreeterCommunicateRep::AlreadyDeleted,
        ),
        StepResult::InvalidState => r == Outcome::Reply(
            crate::protocol::Invite4GreeterCommunicateRep::InvalidState,
        ),
        StepResult::Pending => r is Pending,
        StepResult::Data(d) => r matches Outcome::Reply(
            crate::protocol::Invite4GreeterCommunicateRep::Success { payload: p },
        ) && p@ == d,
        StepResult::Done => false,
    }
}

impl Registry {
    /// Step 1, claimer side: deposits the claimer's public key and polls
    /// for the greeter's.
    pub fn claimer_wait_peer(&mut self, token: &InvitationToken, claimer_public_key: &PublicKey)
        -> (r: Outcome<crate::protocol::Invite1ClaimerWaitPeerRep>)
        requires
            old(self).wf(),
            claimer_public_key.wf(),
        ensures
            final(self).wf(),
            final(self)@ == step_claimer_wait_peer(old(self)@, token@, claimer_public_key@).0,
            matches_rep_1c(r, step_claimer_wait_peer(old(self)@, token@, claimer_public_key@).1),
            final(self).members() == old(self).members(),
            final(self).email_ok() == old(self).email_ok(),
            final(self).seq_counter() == old(self).seq_counter(),
    {
        proof {
            lemma_find_token(self@, token@);
        }
        let idx = self.find(token);
        if idx == self.invitations.len() {
            return Outcome::Reply(crate::protocol::Invite1ClaimerWaitPeerRep::NotFound);
        }
        if matches!(self.invitations[idx].status, InvitationStatus::Deleted) {
            return Outcome::Reply(crate::protocol::Invite1ClaimerWaitPeerRep::NotFound);
        }
        if self.invitations[idx].claimer_hashed_nonce.is_some() {
            return Outcome::Reply(crate::protocol::Invite1ClaimerWaitPeerRep::InvalidState);
        }
        let out = match &self.invitations[idx].greeter_public_key {
            Some(k) => Some(k.duplicate()),
            None => None,
        };
        let inv = &mut self.invitations[idx];
        inv.claimer_public_key = Some(claimer_public_key.duplicate());
        if out.is_some() {
            inv.status = InvitationStatus::Ready;
        }
        proof {
            assert(self@ =~= step_claimer_wait_peer(old(self)@, token@, claimer_public_key@).0);
        }
        match out {
            Some(k) => Outcome::Reply(
                crate::protocol::Invite1ClaimerWaitPeerRep::Success { greeter_public_key: k },
            ),
            None => Outcome::Pending,
        }
    }

    /// Step 1, greeter side: deposits the greeter's public key and polls
    /// for the claimer's.
    pub fn greeter_wait_peer(&mut self, token: &InvitationToken, greeter_public_key: &PublicKey)
        -> (r: Outcome<crate::protocol::Invite1GreeterWaitPeerRep>)
        requires
            old(self).wf(),
            greeter_public_key.wf(),
        ensures
            final(self).wf(),
            final(self)@ == step_greeter_wait_peer(old(self)@, token@, greeter_public_key@).0,
            matches_rep_1g(r, step_greeter_wait_peer(old(self)@, token@, greeter_public_key@).1),
            final(self).members() == old(self).members(),
            final(self).email_ok() == old(self).email_ok(),
            final(self).seq_counter() == old(self).seq_counter(),
    {
        proof {
            lemma_find_token(self@, token@);
        }
        let idx = self.find(token);
        if idx == self.invitations.len() {
            return Outcome::Reply(crate::protocol::Invite1GreeterWaitPeerRep::NotFound);
        }
        if matches!(self.invitations[idx].status, InvitationStatus::Deleted) {
            return Outcome::Reply(crate::protocol::Invite1GreeterWaitPeerRep::AlreadyDeleted);
        }
        if self.invitations[idx].claimer_hashed_nonce.is_some() {
            return Outcome::Reply(crate::protocol::Invite1GreeterWaitPeerRep::InvalidState);
        }
        let out = match &self.invitations[idx].claimer_public_key {
            Some(k) => Some(k.duplicate()),
            None => None,
        };
        let inv = &mut self.invitations[idx];
        inv.greeter_public_key = Some(greeter_public_key.duplicate());
        if out.is_some() {
            inv.status = InvitationStatus::Ready;
        }
        proof {
            assert(self@ =~= step_greeter_wait_peer(old(self)@, token@, greeter_public_key@).0);
        }
        match out {
            Some(k) => Outcome::Reply(
                crate::protocol::Invite1GreeterWaitPeerRep::Success { claimer_public_key: k },
            ),
            None => Outcome::Pending,
        }
    }

    /// Step 2a, claimer side: deposits the nonce commitment and polls for
    /// the greeter's nonce.
    pub fn claimer_send_hashed_nonce(&mut self, token: &InvitationToken, hashed_nonce: &HashDigest)
        -> (r: Outcome<crate::protocol::Invite2aClaimerSendHashedNonceRep>)
        requires
            old(self).wf(),
            hashed_nonce.wf(),
        ensures
            final(self).wf(),
            final(self)@ == step_claimer_send_hashed_nonce(old(self)@, token@, hashed_nonce@).0,
            matches_rep_2ac(
                r,
                step_claimer_send_hashed_nonce(old(self)@, token@, hashed_nonce@).1,
            ),
            final(self).members() == old(self).members(),
            final(self).email_ok() == old(self).email_ok(),
            final(self).seq_counter() == old(self).seq_counter(),
    {
        proof {
            lemma_find_token(self@, token@);
        }
        let idx = self.find(token);
        if idx == self.invitations.len() {
            return Outcome::Reply(crate::protocol::Invite2aClaimerSendHashedNonceRep::NotFound);
        }
        if matches!(self.invitations[idx].status, InvitationStatus::Deleted) {
            return Outcome::Reply(
                crate::protocol::Invite2aClaimerSendHashedNonceRep::AlreadyDeleted,
            );
        }
        if self.invitations[idx].greeter_public_key.is_none()
            || self.invitations[idx].claimer_public_key.is_none() {
            return Outcome::Reply(
                crate::protocol::Invite2aClaimerSendHashedNonceRep::InvalidState,
            );
        }
        let conflicting = match &self.invitations[idx].claimer_hashed_nonce {
            Some(h0) => !h0.matches(hashed_nonce),
            None => false,
        };
        if conflicting {
            return Outcome::Reply(
                crate::protocol::Invite2aClaimerSendHashedNonceRep::InvalidState,
            );
        }
        let out = match &self.invitations[idx].greeter_nonce {
            Some(gn) => Some(clone_bytes(gn)),
            None => None,
        };
        let inv = &mut self.invitations[idx];
        inv.claimer_hashed_nonce = Some(hashed_nonce.duplicate());
        proof {
            assert(self@ =~= step_claimer_send_hashed_nonce(old(self)@, token@, hashed_nonce@).0);
        }
        match out {
            Some(gn) => Outcome::Reply(
                crate::protocol::Invite2aClaimerSendHashedNonceRep::Success { greeter_nonce: gn },
            ),
            None => Outcome::Pending,
        }
    }

    /// Step 2a, greeter side: polls for the claimer's nonce commitment.
    pub fn greeter_get_hashed_nonce(&mut self, token: &InvitationToken) -> (r: Outcome<
        crate::protocol::Invite2aGreeterGetHashedNonceRep,
    >)
        requires
            old(self).wf(),
        ensures
            final(self).wf(),
            final(self)@ == step_greeter_get_hashed_nonce(old(self)@, token@).0,
            matches_rep_2ag(r, step_greeter_get_hashed_nonce(old(self)@, token@).1),
            final(self).members() == old(self).members(),
            final(self).email_ok() == old(self).email_ok(),
            final(self).seq_counter() == old(self).seq_counter(),
    {
        proof {
            lemma_find_token(self@, token@);
        }
        let idx = self.find(token);
        if idx == self.invitations.len() {
            return Outcome::Reply(crate::protocol::Invite2aGreeterGetHashedNonceRep::NotFound);
        }
        if matches!(self.invitations[idx].status, InvitationStatus::Deleted) {
            return Outcome::Reply(
                crate::protocol::Invite2aGreeterGetHashedNonceRep::AlreadyDeleted,
            );
        }
        if self.invitations[idx].greeter_public_key.is_none()
            || self.invitations[idx].claimer_public_key.is_none() {
            return Outcome::Reply(
                crate::protocol::Invite2aGreeterGetHashedNonceRep::InvalidState,
            );
        }
        match &self.invitations[idx].claimer_hashed_nonce {
            Some(h) => Outcome::Reply(
                crate::protocol::Invite2aGreeterGetHashedNonceRep::Success {
                    claimer_hashed_nonce: h.duplicate(),
                },
            ),
            None => Outcome::Pending,
        }
    }

    /// Step 2b, greeter side: reveals the greeter's nonce — only once the
    /// claimer has committed — and polls for the claimer's nonce.
    pub fn greeter_send_nonce(&mut self, token: &InvitationToken, greeter_nonce: &Vec<u8>) -> (r:
        Outcome<crate::protocol::Invite2bGreeterSendNonceRep>)
        requires
            old(self).wf(),
        ensures
            final(self).wf(),
            final(self)@ == step_greeter_send_nonce(old(self)@, token@, greeter_nonce@).0,
            matches_rep_2bg(r, step_greeter_send_nonce(old(self)@, token@, greeter_nonce@).1),
            final(self).members() == old(self).members(),
            final(self).email_ok() == old(self).email_ok(),
            final(self).seq_counter() == old(self).seq_counter(),
    {
        proof {
            lemma_find_token(self@, token@);
        }
        let idx = self.find(token);
        if idx == self.invitations.len() {
            return Outcome::Reply(crate::protocol::Invite2bGreeterSendNonceRep::NotFound);
        }
        if matches!(self.invitations[idx].status, InvitationStatus::Deleted) {
            return Outcome::Reply(crate::protocol::Invite2bGreeterSendNonceRep::AlreadyDeleted);
        }
        if self.invitations[idx].claimer_hashed_nonce.is_none() {
            return Outcome::Reply(crate::protocol::Invite2bGreeterSendNonceRep::InvalidState);
        }
        let conflicting = match &self.invitations[idx].greeter_nonce {
            Some(g0) => !crate::invite::eq_bytes(g0, greeter_nonce),
            None => false,
        };
        if conflicting {
            return Outcome::Reply(crate::protocol::Invite2bGreeterSendNonceRep::InvalidState);
        }
        let out = match &self.invitations[idx].claimer_nonce {
            Some(cn) => Some(clone_bytes(cn)),
            None => None,
        };
        let inv = &mut self.invitations[idx];
        inv.greeter_nonce = Some(clone_bytes(greeter_nonce));
        proof {
            assert(self@ =~= step_greeter_send_nonce(old(self)@, token@, greeter_nonce@).0);
        }
        match out {
            Some(cn) => Outcome::Reply(
                crate::protocol::Invite2bGreeterSendNonceRep::Success { claimer_nonce: cn },
            ),
            None => Outcome::Pending,
        }
    }

    /// Step 2b, claimer side: reveals the claimer's nonce, which must hash
    /// to the commitment deposited in step 2a.
    pub fn claimer_send_nonce(&mut self, token: &InvitationToken, claimer_nonce: &Vec<u8>) -> (r:
        Outcome<crate::protocol::Invite2bClaimerSendNonceRep>)
        requires
            old(self).wf(),
        ensures
            final(self).wf(),
            final(self)@ == step_claimer_send_nonce(old(self)@, token@, claimer_nonce@).0,
            matches_rep_2bc(r, step_claimer_send_nonce(old(self)@, token@, claimer_nonce@).1),
            final(self).members() == old(self).members(),
            final(self).email_ok() == old(self).email_ok(),
            final(self).seq_counter() == old(self).seq_counter(),
    {
        proof {
            lemma_find_token(self@, token@);
        }
        let idx = self.find(token);
        if idx == self.invitations.len() {
            return Outcome::Reply(crate::protocol::Invite2bClaimerSendNonceRep::NotFound);
        }
        if matches!(self.invitations[idx].status, InvitationStatus::Deleted) {
            return Outcome::Reply(crate::protocol::Invite2bClaimerSendNonceRep::NotFound);
        }
        if self.invitations[idx].greeter_nonce.is_none() {
            return Outcome::Reply(crate::protocol::Invite2bClaimerSendNonceRep::InvalidState);
        }
        let digest = crate::foreign::sha256_digest(claimer_nonce);
        let hash_ok = match &self.invitations[idx].claimer_hashed_nonce {
            Some(h) => crate::invite::eq_bytes(&digest, h.as_bytes()),
            None => {
                proof {
                    assert(inv_wf(self@[idx as int]));
                }
                unreached()
            },
        };
        if !hash_ok {
            return Outcome::Reply(crate::protocol::Invite2bClaimerSendNonceRep::InvalidState);
        }
        let conflicting = match &self.invitations[idx].claimer_nonce {
            Some(c0) => !crate::invite::eq_bytes(c0, claimer_nonce),
            None => false,
        };
        if conflicting {
            return Outcome::Reply(crate::protocol::Invite2bClaimerSendNonceRep::InvalidState);
        }
        let inv = &mut self.invitations[idx];
        inv.claimer_nonce = Some(clone_bytes(claimer_nonce));
        proof {
            assert(self@ =~= step_claimer_send_nonce(old(self)@, token@, claimer_nonce@).0);
        }
        Outcome::Reply(crate::protocol::Invite2bClaimerSendNonceRep::Success)
    }

    /// Step 3a, claimer side: signifies the claimer's trust after the
    /// humans compared the codes out-of-band.
    pub fn claimer_signify_trust(&mut self, token: &InvitationToken) -> (r: Outcome<
        crate::protocol::Invite3aClaimerSignifyTrustRep,
    >)
        requires
            old(self).wf(),
        ensures
            final(self).wf(),
            final(self)@ == step_claimer_signify_trust(old(self)@, token@).0,
            matches_rep_3ac(r, step_claimer_signify_trust(old(self)@, token@).1),
            final(self).members() == old(self).members(),
            final(self).email_ok() == old(self).email_ok(),
            final(self).seq_counter() == old(self).seq_counter(),
    {
        proof {
            lemma_find_token(self@, token@);
        }
        let idx = self.find(token);
        if idx == self.invitations.len() {
            return Outcome::Reply(crate::protocol::Invite3aClaimerSignifyTrustRep::NotFound);
        }
        if matches!(self.invitations[idx].status, InvitationStatus::Deleted) {
            return Outcome::Reply(crate::protocol::Invite3aClaimerSignifyTrustRep::NotFound);
        }
        if self.invitations[idx].greeter_nonce.is_none()
            || self.invitations[idx].claimer_nonce.is_none() {
            return Outcome::Reply(crate::protocol::Invite3aClaimerSignifyTrustRep::InvalidState);
        }
        let inv = &mut self.invitations[idx];
        inv.claimer_trust = true;
        proof {
            assert(self@ =~= step_claimer_signify_trust(old(self)@, token@).0);
        }
        Outcome::Reply(crate::protocol::Invite3aClaimerSignifyTrustRep::Success)
    }

    /// Step 3a, greeter side: polls until the claimer has signified trust.
    pub fn greeter_wait_peer_trust(&mut self, token: &InvitationToken) -> (r: Outcome<
        crate::protocol::Invite3aGreeterWaitPeerTrustRep,
    >)
        requires
            old(self).wf(),
        ensures
            final(self).wf(),
            final(self)@ == step_greeter_wait_peer_trust(old(self)@, token@).0,
            matches_rep_3ag(r, step_greeter_wait_peer_trust(old(self)@, token@).1),
            final(self).members() == old(self).members(),
            final(self).email_ok() == old(self).email_ok(),
            final(self).seq_counter() == old(self).seq_counter(),
    {
        proof {
            lemma_find_token(self@, token@);
        }
        let idx = self.find(token);
        if idx == self.invitations.len() {
            return Outcome::Reply(crate::protocol::Invite3aGreeterWaitPeerTrustRep::NotFound);
        }
        if matches!(self.invitations[idx].status, InvitationStatus::Deleted) {
            return Outcome::Reply(
                crate::protocol::Invite3aGreeterWaitPeerTrustRep::AlreadyDeleted,
            );
        }
        if self.invitations[idx].greeter_nonce.is_none()
            || self.invitations[idx].claimer_nonce.is_none() {
            return Outcome::Reply(
                crate::protocol::Invite3aGreeterWaitPeerTrustRep::InvalidState,
            );
        }
        if self.invitations[idx].claimer_trust {
            Outcome::Reply(crate::protocol::Invite3aGreeterWaitPeerTrustRep::Success)
        } else {
            Outcome::Pending
        }
    }

    /// Step 3b, claimer side: polls until the greeter has signified trust.
    pub fn claimer_wait_peer_trust(&mut self, token: &InvitationToken) -> (r: Outcome<
        crate::protocol::Invite3bClaimerWaitPeerTrustRep,
    >)
        requires
            old(self).wf(),
        ensures
            final(self).wf(),
            final(self)@ == step_claimer_wait_peer_trust(old(self)@, token@).0,
            matches_rep_3bc(r, step_claimer_wait_peer_trust(old(self)@, token@).1),
            final(self).members() == old(self).members(),
            final(self).email_ok() == old(self).email_ok(),
            final(self).seq_counter() == old(self).seq_counter(),
    {
        proof {
            lemma_find_token(self@, token@);
        }
        let idx = self.find(token);
        if idx == self.invitations.len() {
            return Outcome::Reply(crate::protocol::Invite3bClaimerWaitPeerTrustRep::NotFound);
        }
        if matches!(self.invitations[idx].status, InvitationStatus::Deleted) {
            return Outcome::Reply(crate::protocol::Invite3bClaimerWaitPeerTrustRep::NotFound);
        }
        if self.invitations[idx].greeter_nonce.is_none()
            || self.invitations[idx].claimer_nonce.is_none() {
            return Outcome::Reply(
                crate::protocol::Invite3bClaimerWaitPeerTrustRep::InvalidState,
            );
        }
        if self.invitations[idx].greeter_trust {
            Outcome::Reply(crate::protocol::Invite3bClaimerWaitPeerTrustRep::Success)
        } else {
            Outcome::Pending
        }
    }

    /// Step 3b, greeter side: signifies the greeter's trust after the
    /// humans compared the codes out-of-band.
    pub fn greeter_signify_trust(&mut self, token: &InvitationToken) -> (r: Outcome<
        crate::protocol::Invite3bGreeterSignifyTrustRep,
    >)
        requires
            old(self).wf(),
        ensures
            final(self).wf(),
            final(self)@ == step_greeter_signify_trust(old(self)@, token@).0,
            matches_rep_3bg(r, step_greeter_signify_trust(old(self)@, token@).1),
            final(self).members() == old(self).members(),
            final(self).email_ok() == old(self).email_ok(),
            final(self).seq_counter() == old(self).seq_counter(),
    {
        proof {
            lemma_find_token(self@, token@);
        }
        let idx = self.find(token);
        if idx == self.invitations.len() {
            return Outcome::Reply(crate::protocol::Invite3bGreeterSignifyTrustRep::NotFound);
        }
        if matches!(self.invitations[idx].status, InvitationStatus::Deleted) {
            return Outcome::Reply(
                crate::protocol::Invite3bGreeterSignifyTrustRep::AlreadyDeleted,
            );
        }
        if self.invitations[idx].greeter_nonce.is_none()
            || self.invitations[idx].claimer_nonce.is_none() {
            return Outcome::Reply(
                crate::protocol::Invite3bGreeterSignifyTrustRep::InvalidState,
            );
        }
        let inv = &mut self.invitations[idx];
        inv.greeter_trust = true;
        proof {
            assert(self@ =~= step_greeter_signify_trust(old(self)@, token@).0);
        }
        Outcome::Reply(crate::protocol::Invite3bGreeterSignifyTrustRep::Success)
    }

    /// Step 4, claimer side: deposits a payload and polls for the
    /// greeter's latest one.
    pub fn claimer_communicate(&mut self, token: &InvitationToken, payload: &Vec<u8>) -> (r:
        Outcome<crate::protocol::Invite4ClaimerCommunicateRep>)
        requires
            old(self).wf(),
        ensures
            final(self).wf(),
            final(self)@ == step_claimer_communicate(old(self)@, token@, payload@).0,
            matches_rep_4c(r, step_claimer_communicate(old(self)@, token@, payload@).1),
            final(self).members() == old(self).members(),
            final(self).email_ok() == old(self).email_ok(),
            final(self).seq_counter() == old(self).seq_counter(),
    {
        proof {
            lemma_find_token(self@, token@);
        }
        let idx = self.find(token);
        if idx == self.invitations.len() {
            return Outcome::Reply(crate::protocol::Invite4ClaimerCommunicateRep::NotFound);
        }
        if matches!(self.invitations[idx].status, InvitationStatus::Deleted) {
            return Outcome::Reply(crate::protocol::Invite4ClaimerCommunicateRep::NotFound);
        }
        if !(self.invitations[idx].claimer_trust && self.invitations[idx].greeter_trust) {
            return Outcome::Reply(crate::protocol::Invite4ClaimerCommunicateRep::InvalidState);
        }
        let out = match &self.invitations[idx].greeter_payload {
            Some(p) => Some(clone_bytes(p)),
            None => None,
        };
        let inv = &mut self.invitations[idx];
        inv.claimer_payload = Some(clone_bytes(payload));
        proof {
            assert(self@ =~= step_claimer_communicate(old(self)@, token@, payload@).0);
        }
        match out {
            Some(p) => Outcome::Reply(
                crate::protocol::Invite4ClaimerCommunicateRep::Success { payload: p },
            ),
            None => Outcome::Pending,
        }
    }

    /// Step 4, greeter side: deposits a payload and polls for the
    /// claimer's latest one.
    pub fn greeter_communicate(&mut self, token: &InvitationToken, payload: &Vec<u8>) -> (r:
        Outcome<crate::protocol::Invite4GreeterCommunicateRep>)
        requires
            old(self).wf(),
        ensures
            final(self).wf(),
            final(self)@ == step_greeter_communicate(old(self)@, token@, payload@).0,
            matches_rep_4g(r, step_greeter_communicate(old(self)@, token@, payload@).1),
            final(self).members() == old(self).members(),
            final(self).email_ok() == old(self).email_ok(),
            final(self).seq_counter() == old(self).seq_counter(),
    {
        proof {
            lemma_find_token(self@, token@);
        }
        let idx = self.find(token);
        if idx == self.invitations.len() {
            return Outcome::Reply(crate::protocol::Invite4GreeterCommunicateRep::NotFound);
        }
        if matches!(self.invitations[idx].status, InvitationStatus::Deleted) {
            return Outcome::Reply(crate::protocol::Invite4GreeterCommunicateRep::AlreadyDeleted);
        }
        if !(self.invitations[idx].claimer_trust && self.invitations[idx].greeter_trust) {
            return Outcome::Reply(crate::protocol::Invite4GreeterCommunicateRep::InvalidState);
        }
        let out = match &self.invitations[idx].claimer_payload {
            Some(p) => Some(clone_bytes(p)),
            None => None,
        };
        let inv = &mut self.invitations[idx];
        inv.greeter_payload = Some(clone_bytes(payload));
        proof {
            assert(self@ =~= step_greeter_communicate(old(self)@, token@, payload@).0);
        }
        match out {
            Some(p) => Outcome::Reply(
                crate::protocol::Invite4GreeterCommunicateRep::Success { payload: p },
            ),
            None => Outcome::Pending,
        }
    }
}

/// What the invitation-email report must say: nothing was asked, the
/// recipient's address is invalid, the mail channel is down, or the mail
/// went out.
pub open spec fn email_sent_status(
    kind: InvitationType,
    claimer_email: Option<Seq<char>>,
    send_email: bool,
    available: bool,
) -> InvitationEmailSentStatus {
    if !send_email {
        InvitationEmailSentStatus::Success
    } else if kind is User && !email_valid(claimer_email.unwrap()) {
        InvitationEmailSentStatus::BadRecipient
    } else if !available {
        InvitationEmailSentStatus::NotAvailable
    } else {
        InvitationEmailSentStatus::Success
    }
}

/// The mathematical value of one listing entry.
pub struct ListItemView {
    pub kind: InvitationType,
    pub token: Seq<u8>,
    pub created_on: u64,
    pub claimer_email: Option<Seq<char>>,
    pub status: InvitationStatus,
}

pub open spec fn item_view(it: crate::protocol::InviteListItem) -> ListItemView {
    match it {
        crate::protocol::InviteListItem::User { token, created_on, claimer_email, status } =>
            ListItemView {
            kind: InvitationType::User,
            token: token@,
            created_on,
            claimer_email: Some(claimer_email@),
            status,
        },
        crate::protocol::InviteListItem::Device { token, created_on, status } => ListItemView {
            kind: InvitationType::Device,
            token: token@,
            created_on,
            claimer_email: None,
            status,
        },
    }
}

pub open spec fn inv_list_view(inv: InvitationView) -> ListItemView {
    ListItemView {
        kind: inv.kind,
        token: inv.token,
        created_on: inv.created_on,
        claimer_email: inv.claimer_email,
        status: inv.status,
    }
}

/// The listing a given greeter sees: their invitations, in creation order.
pub open spec fn spec_list(s: Seq<InvitationView>, g: Seq<char>) -> Seq<ListItemView>
    decreases s.len(),
{
    if s.len() == 0 {
        Seq::empty()
    } else {
        spec_list(s.drop_last(), g) + if s.last().greeter == g {
            seq![inv_list_view(s.last())]
        } else {
            Seq::empty()
        }
    }
}

/// How an info reply reflects one live invitation record.
pub open spec fn info_matches(r: crate::protocol::InviteInfoRep, inv: InvitationView) -> bool {
    match r {
        crate::protocol::InviteInfoRep::Success(u) => match u {
            crate::protocol::InviteInfoUserOrDevice::User {
                claimer_email,
                greeter_user_id,
                greeter_human_handle,
            } => {
                &&& inv.kind is User
                &&& inv.claimer_email == Some(claimer_email@)
                &&& greeter_user_id@ == inv.greeter
                &&& greeter_human_handle == inv.greeter_handle
            },
            crate::protocol::InviteInfoUserOrDevice::Device {
                greeter_user_id,
                greeter_human_handle,
            } => {
                &&& inv.kind is Device
                &&& greeter_user_id@ == inv.greeter
                &&& greeter_human_handle == inv.greeter_handle
            },
        },
        _ => false,
    }
}

/// What issuing an invitation does, as a relation between the states
/// before and after, the directory consulted, the request's arguments and
/// the reply.
pub open spec fn create_post(
    s: Seq<InvitationView>,
    s2: Seq<InvitationView>,
    members: Seq<Seq<char>>,
    email_ok: bool,
    kind: InvitationType,
    claimer_email: Option<String>,
    send_email: bool,
    greeter_profile: UserProfile,
    greeter: Seq<char>,
    greeter_handle: Option<HumanHandle>,
    now: u64,
    r: crate::protocol::InviteNewRep,
) -> bool {
    if kind is User && !(greeter_profile is Admin) {
        r == crate::protocol::InviteNewRep::NotAllowed && s2 == s
    } else if kind is User && members.contains(claimer_email.unwrap()@) {
        r == crate::protocol::InviteNewRep::AlreadyMember && s2 == s
    } else {
        r matches crate::protocol::InviteNewRep::Success { token, email_sent } && s2.len() == s.len()
            + 1 && s2.subrange(0, s.len() as int) == s && token.wf() && find_token(s, token@)
            == s.len() && email_sent == email_sent_status(
            kind,
            opt_email_view(claimer_email),
            send_email,
            email_ok,
        ) && ({
            let nv = s2[s.len() as int];
            &&& nv.token == token@
            &&& nv.kind == kind
            &&& nv.claimer_email == opt_email_view(claimer_email)
            &&& nv.greeter == greeter
            &&& nv.greeter_handle == greeter_handle
            &&& nv.created_on == now
            &&& nv.status is Idle
            &&& nv.deleted_reason is None
            &&& nv.greeter_public_key is None
            &&& nv.claimer_public_key is None
            &&& nv.claimer_hashed_nonce is None
            &&& nv.greeter_nonce is None
            &&& nv.claimer_nonce is None
            &&& !nv.claimer_trust
            &&& !nv.greeter_trust
            &&& nv.claimer_payload is None
            &&& nv.greeter_payload is None
        })
    }
}

impl Registry {
    /// Issues a fresh invitation.  Only an admin may invite a new user; an
    /// email already enrolled is rejected; the token is never one the
    /// registry has seen before.
    pub fn create(
        &mut self,
        kind: InvitationType,
        claimer_email: Option<String>,
        send_email: bool,
        greeter: &UserID,
        greeter_profile: UserProfile,
        greeter_handle: Option<HumanHandle>,
        now: u64,
    ) -> (r: crate::protocol::InviteNewRep)
        requires
            old(self).wf(),
            kind is User <==> claimer_email is Some,
            old(self).seq_counter() < u64::MAX,
        ensures
            final(self).wf(),
            final(self).members() == old(self).members(),
            final(self).email_ok() == old(self).email_ok(),
            create_post(
                old(self)@,
                final(self)@,
                old(self).members(),
                old(self).email_ok(),
                kind,
                claimer_email,
                send_email,
                greeter_profile,
                greeter@,
                greeter_handle,
                now,
                r,
            ),
    {
        let is_user = matches!(kind, InvitationType::User);
        if is_user && !matches!(greeter_profile, UserProfile::Admin) {
            return crate::protocol::InviteNewRep::NotAllowed;
        }
        if is_user {
            let already = match &claimer_email {
                Some(e) => self.is_member(e),
                None => unreached(),
            };
            if already {
                return crate::protocol::InviteNewRep::AlreadyMember;
            }
        }
        let email_sent = if !send_email {
            InvitationEmailSentStatus::Success
        } else {
            let bad = if is_user {
                match &claimer_email {
                    Some(e) => !email_is_valid(e.as_str()),
                    None => unreached(),
                }
            } else {
                false
            };
            if bad {
                InvitationEmailSentStatus::BadRecipient
            } else if !self.email_available {
                InvitationEmailSentStatus::NotAvailable
            } else {
                InvitationEmailSentStatus::Success
            }
        };
        let mut tb = u64_to_le_bytes(self.next_seq);
        let mut rnd = crate::foreign::fresh_uuid_bytes();
        rnd.truncate(8);
        tb.append(&mut rnd);
        proof {
            lemma_auto_spec_u64_to_from_le_bytes();
            assert(tb@.subrange(0, 8) =~= spec_u64_to_le_bytes(self.next_seq));
        }
        let token = match InvitationToken::from_bytes(tb) {
            Some(t) => t,
            None => unreached(),
        };
        proof {
            assert forall|k: int| 0 <= k < self@.len() implies (#[trigger] self@[k]).token
                != token@ by {
                if self@[k].token == token@ {
                    assert(self@[k].token.subrange(0, 8) == token@.subrange(0, 8));
                    assert(spec_u64_from_le_bytes(token@.subrange(0, 8)) == self.next_seq);
                }
            }
            lemma_find_token(self@, token@);
            if find_token(self@, token@) < self@.len() {
                assert(self@[find_token(self@, token@)].token == token@);
            }
        }
        let out_token = token.duplicate();
        let inv = Invitation {
            token,
            kind,
            claimer_email,
            greeter: greeter.duplicate(),
            greeter_handle,
            created_on: now,
            status: InvitationStatus::Idle,
            deleted_reason: None,
            greeter_public_key: None,
            claimer_public_key: None,
            claimer_hashed_nonce: None,
            greeter_nonce: None,
            claimer_nonce: None,
            claimer_trust: false,
            greeter_trust: false,
            claimer_payload: None,
            greeter_payload: None,
        };
        let ghost pre = self@;
        self.invitations.push(inv);
        self.next_seq = self.next_seq + 1;
        proof {
            assert(self@ =~= pre.push(inv@));
            assert(self@.subrange(0, pre.len() as int) =~= pre);
        }
        crate::protocol::InviteNewRep::Success { token: out_token, email_sent }
    }

    /// Claimer-facing read of an invitation's kind and greeter identity.
    pub fn info(&self, token: &InvitationToken) -> (r: crate::protocol::InviteInfoRep)
        requires
            self.wf(),
        ensures
            ({
                let i = find_token(self@, token@);
                if i == self@.len() {
                    r == crate::protocol::InviteInfoRep::NotFound
                } else if self@[i].status is Deleted {
                    r == crate::protocol::InviteInfoRep::AlreadyDeleted
                } else {
                    info_matches(r, self@[i])
                }
            }),
    {
        proof {
            lemma_find_token(self@, token@);
        }
        let idx = self.find(token);
        if idx == self.invitations.len() {
            return crate::protocol::InviteInfoRep::NotFound;
        }
        if matches!(self.invitations[idx].status, InvitationStatus::Deleted) {
            return crate::protocol::InviteInfoRep::AlreadyDeleted;
        }
        let inv = &self.invitations[idx];
        let greeter_human_handle = match &inv.greeter_handle {
            Some(h) => Some(h.duplicate()),
            None => None,
        };
        let greeter_user_id = inv.greeter.duplicate();
        match (&inv.kind, &inv.claimer_email) {
            (InvitationType::User, Some(e)) => crate::protocol::InviteInfoRep::Success(
                crate::protocol::InviteInfoUserOrDevice::User {
                    claimer_email: e.clone(),
                    greeter_user_id,
                    greeter_human_handle,
                },
            ),
            (InvitationType::Device, _) => crate::protocol::InviteInfoRep::Success(
                crate::protocol::InviteInfoUserOrDevice::Device {
                    greeter_user_id,
                    greeter_human_handle,
                },
            ),
            (InvitationType::User, None) => {
                proof {
                    assert(inv_wf(self@[idx as int]));
                }
                unreached()
            },
        }
    }

    /// Lists the given greeter's invitations, in creation order.
    pub fn list(&self, greeter: &UserID) -> (r: Vec<crate::protocol::InviteListItem>)
        requires
            self.wf(),
        ensures
            r@.map_values(|it: crate::protocol::InviteListItem| item_view(it)) == spec_list(
                self@,
                greeter@,
            ),
    {
        let mut out: Vec<crate::protocol::InviteListItem> = Vec::new();
        let mut i: usize = 0;
        let n = self.invitations.len();
        while i < n
            invariant
                0 <= i <= n,
                n == self@.len(),
                self@.len() == self.invitations@.len(),
                self.wf(),
                out@.map_values(|it: crate::protocol::InviteListItem| item_view(it)) == spec_list(
                    self@.take(i as int),
                    greeter@,
                ),
            decreases n - i,
        {
            let inv = &self.invitations[i];
            proof {
                assert(inv_wf(self@[i as int]));
                assert(self@.take(i + 1).drop_last() =~= self@.take(i as int));
                assert(self@.take(i + 1).last() == self@[i as int]);
            }
            if inv.greeter.matches(greeter) {
                let item = match (&inv.kind, &inv.claimer_email) {
                    (InvitationType::User, Some(e)) => crate::protocol::InviteListItem::User {
                        token: inv.token.duplicate(),
                        created_on: inv.created_on,
                        claimer_email: e.clone(),
                        status: inv.status,
                    },
                    (InvitationType::Device, _) => crate::protocol::InviteListItem::Device {
                        token: inv.token.duplicate(),
                        created_on: inv.created_on,
                        status: inv.status,
                    },
                    (InvitationType::User, None) => unreached(),
                };
                proof {
                    assert(item_view(item) == inv_list_view(self@[i as int]));
                }
                out.push(item);
            }
            proof {
                assert(out@.map_values(|it: crate::protocol::InviteListItem| item_view(it)) =~= spec_list(
                    self@.take(i + 1),
                    greeter@,
                ));
            }
            i = i + 1;
        }
        proof {
            assert(self@.take(n as int) =~= self@);
        }
        out
    }
}

/// Looking a token up is unaffected by replacing a record with one holding
/// the same token.
pub proof fn lemma_find_token_update(
    s: Seq<InvitationView>,
    t: Seq<u8>,
    i: int,
    inv2: InvitationView,
)
    requires
        0 <= i < s.len(),
        inv2.token == s[i].token,
    ensures
        find_token(s.update(i, inv2), t) == find_token(s, t),
    decreases s.len(),
{
    let s2 = s.update(i, inv2);
    if i == 0 {
        assert(s2.drop_first() =~= s.drop_first());
    } else {
        assert(s2[0] == s[0]);
        if s[0].token != t {
            assert(s2.drop_first() =~= s.drop_first().update(i - 1, inv2));
            assert(s.drop_first()[i - 1] == s[i]);
            lemma_find_token_update(s.drop_first(), t, i - 1, inv2);
        }
    }
}

/// Law: a command addressed to a deleted invitation always fails with
/// `AlreadyDeleted`, a command addressed to an unknown token always fails
/// with `NotFound`, and neither changes the registry.  This covers every
/// token-addressed command; commands whose reply type lacks an
/// `AlreadyDeleted` variant report the terminal token as `NotFound`
/// (see the reply matchers).
pub proof fn lemma_terminal_and_unknown_tokens(
    s: Seq<InvitationView>,
    t: Seq<u8>,
    data: Seq<u8>,
    reason: InvitationDeletedReason,
)
    requires
        state_wf(s),
    ensures
        ({
            let i = find_token(s, t);
            i < s.len() && s[i].status is Deleted ==> {
                &&& step_claimer_wait_peer(s, t, data) == (s, StepResult::AlreadyDeleted)
                &&& step_greeter_wait_peer(s, t, data) == (s, StepResult::AlreadyDeleted)
                &&& step_claimer_send_hashed_nonce(s, t, data) == (s, StepResult::AlreadyDeleted)
                &&& step_greeter_get_hashed_nonce(s, t) == (s, StepResult::AlreadyDeleted)
                &&& step_greeter_send_nonce(s, t, data) == (s, StepResult::AlreadyDeleted)
                &&& step_claimer_send_nonce(s, t, data) == (s, StepResult::AlreadyDeleted)
                &&& step_claimer_signify_trust(s, t) == (s, StepResult::AlreadyDeleted)
                &&& step_greeter_wait_peer_trust(s, t) == (s, StepResult::AlreadyDeleted)
                &&& step_claimer_wait_peer_trust(s, t) == (s, StepResult::AlreadyDeleted)
                &&& step_greeter_signify_trust(s, t) == (s, StepResult::AlreadyDeleted)
                &&& step_claimer_communicate(s, t, data) == (s, StepResult::AlreadyDeleted)
                &&& step_greeter_communicate(s, t, data) == (s, StepResult::AlreadyDeleted)
                &&& spec_delete(s, t, reason) == (s, crate::protocol::InviteDeleteRep::AlreadyDeleted)
            }
        }),
        ({
            let i = find_token(s, t);
            i == s.len() ==> {
                &&& step_claimer_wait_peer(s, t, data) == (s, StepResult::NotFound)
                &&& step_greeter_wait_peer(s, t, data) == (s, StepResult::NotFound)
                &&& step_claimer_send_hashed_nonce(s, t, data) == (s, StepResult::NotFound)
                &&& step_greeter_get_hashed_nonce(s, t) == (s, StepResult::NotFound)
                &&& step_greeter_send_nonce(s, t, data) == (s, StepResult::NotFound)
                &&& step_claimer_send_nonce(s, t, data) == (s, StepResult::NotFound)
                &&& step_claimer_signify_trust(s, t) == (s, StepResult::NotFound)
                &&& step_greeter_wait_peer_trust(s, t) == (s, StepResult::NotFound)
                &&& step_claimer_wait_peer_trust(s, t) == (s, StepResult::NotFound)
                &&& step_greeter_signify_trust(s, t) == (s, StepResult::NotFound)
                &&& step_claimer_communicate(s, t, data) == (s, StepResult::NotFound)
                &&& step_greeter_communicate(s, t, data) == (s, StepResult::NotFound)
                &&& spec_delete(s, t, reason) == (s, crate::protocol::InviteDeleteRep::NotFound)
            }
        }),
{
    lemma_find_token(s, t);
}

/// Law: a step's commands fail with `InvalidState`, changing nothing,
/// until the previous step is complete for both roles — the commit
/// commands until both keys are deposited, the greeter's reveal until the
/// claimer has committed, the claimer's reveal until the greeter has
/// revealed, the trust commands until both nonces are revealed, and the
/// payload commands until both sides have signified trust.
pub proof fn lemma_steps_in_order(s: Seq<InvitationView>, t: Seq<u8>, data: Seq<u8>)
    requires
        state_wf(s),
    ensures
        ({
            let i = find_token(s, t);
            i < s.len() && !(s[i].status is Deleted) ==> {
                &&& (!step1_done(s[i]) ==> step_claimer_send_hashed_nonce(s, t, data) == (
                    s,
                    StepResult::InvalidState,
                ) && step_greeter_get_hashed_nonce(s, t) == (s, StepResult::InvalidState)
                    && step_greeter_send_nonce(s, t, data) == (s, StepResult::InvalidState)
                    && step_claimer_send_nonce(s, t, data) == (s, StepResult::InvalidState))
                &&& (s[i].claimer_hashed_nonce is None ==> step_greeter_send_nonce(s, t, data) == (
                    s,
                    StepResult::InvalidState,
                ))
                &&& (s[i].greeter_nonce is None ==> step_claimer_send_nonce(s, t, data) == (
                    s,
                    StepResult::InvalidState,
                ))
                &&& (!step2_done(s[i]) ==> step_claimer_signify_trust(s, t) == (
                    s,
                    StepResult::InvalidState,
                ) && step_greeter_wait_peer_trust(s, t) == (s, StepResult::InvalidState)
                    && step_claimer_wait_peer_trust(s, t) == (s, StepResult::InvalidState)
                    && step_greeter_signify_trust(s, t) == (s, StepResult::InvalidState))
                &&& (!step3_done(s[i]) ==> step_claimer_communicate(s, t, data) == (
                    s,
                    StepResult::InvalidState,
                ) && step_greeter_communicate(s, t, data) == (s, StepResult::InvalidState))
            }
        }),
{
    lemma_find_token(s, t);
    let i = find_token(s, t);
    if i < s.len() {
        assert(inv_wf(s[i]));
    }
}

/// Law: once the claimer has committed to a hash, depositing the nonce
/// that hashes to it succeeds and records the nonce; depositing one whose
/// hash differs is rejected with `InvalidState` and changes nothing.
/// Depositing the commitment itself succeeds as soon as both keys are on
/// deposit.
pub proof fn lemma_commit_then_reveal(s: Seq<InvitationView>, t: Seq<u8>, n: Seq<u8>, h: Seq<u8>)
    requires
        state_wf(s),
    ensures
        ({
            let i = find_token(s, t);
            i < s.len() && !(s[i].status is Deleted) && step1_done(s[i])
                && s[i].claimer_hashed_nonce is None ==> step_claimer_send_hashed_nonce(s, t, h)
                == (
                s.update(i, InvitationView { claimer_hashed_nonce: Some(h), ..s[i] }),
                StepResult::Pending,
            )
        }),
        ({
            let i = find_token(s, t);
            i < s.len() && !(s[i].status is Deleted) && s[i].greeter_nonce is Some
                && s[i].claimer_nonce is None ==> {
                let hc = s[i].claimer_hashed_nonce.unwrap();
                &&& (sha256_of(n) == hc ==> step_claimer_send_nonce(s, t, n) == (
                    s.update(i, InvitationView { claimer_nonce: Some(n), ..s[i] }),
                    StepResult::Done,
                ))
                &&& (sha256_of(n) != hc ==> step_claimer_send_nonce(s, t, n) == (
                    s,
                    StepResult::InvalidState,
                ))
            }
        }),
{
    lemma_find_token(s, t);
    let i = find_token(s, t);
    if i < s.len() {
        assert(inv_wf(s[i]));
    }
}

/// Law: deleting an invitation succeeds once; deleting it again, whatever
/// the reason, fails with `AlreadyDeleted` and changes nothing.
pub proof fn lemma_delete_twice(
    s: Seq<InvitationView>,
    t: Seq<u8>,
    r1: InvitationDeletedReason,
    r2: InvitationDeletedReason,
)
    requires
        state_wf(s),
        find_token(s, t) < s.len(),
        !(s[find_token(s, t)].status is Deleted),
    ensures
        spec_delete(s, t, r1).1 == crate::protocol::InviteDeleteRep::Success,
        spec_delete(spec_delete(s, t, r1).0, t, r2) == (
            spec_delete(s, t, r1).0,
            crate::protocol::InviteDeleteRep::AlreadyDeleted,
        ),
{
    lemma_find_token(s, t);
    let i = find_token(s, t);
    let s1 = spec_delete(s, t, r1).0;
    lemma_find_token_update(
        s,
        t,
        i,
        InvitationView { status: InvitationStatus::Deleted, deleted_reason: Some(r1), ..s[i] },
    );
    assert(find_token(s1, t) == i);
}

} // verus!
