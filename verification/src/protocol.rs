//! Request and reply types, one pair per command.  Every reply is a closed
//! tagged union: one success variant with the step's fields plus the step's
//! applicable error variants, exhaustively matched everywhere.

use crate::crypto::{HashDigest, PublicKey};
use crate::handle::HumanHandle;
use crate::ids::UserID;
use crate::invite::{
    InvitationDeletedReason, InvitationEmailSentStatus, InvitationStatus, InvitationToken,
    InvitationType,
};
use vstd::prelude::*;

verus! {

/// Payload of a freshly issued invitation: a new user (with the email the
/// invitation is addressed to) or a new device of the greeter.
#[derive(Debug, Clone, PartialEq, Eq)]
pub enum UserOrDevice {
    User { claimer_email: String, send_email: bool },
    Device { send_email: bool },
}

/// Request: issue a new invitation.
#[derive(Debug, Clone, PartialEq, Eq)]
pub struct InviteNewReq(pub UserOrDevice);

impl InviteNewReq {
    /// Builds the request from a kind selector; a user invitation must name
    /// the claimer's email.
    pub fn new(kind: InvitationType, claimer_email: Option<String>, send_email: bool) -> (r:
        InviteNewReq)
        requires
            kind is User ==> claimer_email is Some,
        ensures
            kind is Device ==> r.0 == (UserOrDevice::Device { send_email }),
            kind is User ==> r.0 == (UserOrDevice::User {
                claimer_email: claimer_email.unwrap(),
                send_email,
            }),
    {
        match kind {
            InvitationType::Device => InviteNewReq(UserOrDevice::Device { send_email }),
            InvitationType::User => {
                let claimer_email = match claimer_email {
                    Some(e) => e,
                    None => unreached(),
                };
                InviteNewReq(UserOrDevice::User { claimer_email, send_email })
            },
        }
    }

    /// Builds a user invitation request.
    pub fn user(claimer_email: String, send_email: bool) -> (r: InviteNewReq)
        ensures
            r.0 == (UserOrDevice::User { claimer_email, send_email }),
    {
        InviteNewReq(UserOrDevice::User { claimer_email, send_email })
    }

    /// Builds a device invitation request.
    pub fn device(send_email: bool) -> (r: InviteNewReq)
        ensures
            r.0 == (UserOrDevice::Device { send_email }),
    {
        InviteNewReq(UserOrDevice::Device { send_email })
    }

    /// The kind of invitation requested.
    pub fn invitation_type(&self) -> (r: InvitationType)
        ensures
            r is User <==> self.0 is User,
            r is Device <==> self.0 is Device,
    {
        match &self.0 {
            UserOrDevice::User { .. } => InvitationType::User,
            UserOrDevice::Device { .. } => InvitationType::Device,
        }
    }

    /// The claimer email of a user invitation.
    pub fn claimer_email(&self) -> (r: Option<&String>)
        ensures
            match r {
                Some(e) => self.0 is User && e@ == self.0->User_claimer_email@,
                None => self.0 is Device,
            },
    {
        match &self.0 {
            UserOrDevice::User { claimer_email, .. } => Some(claimer_email),
            UserOrDevice::Device { .. } => None,
        }
    }

    /// Whether the relay should send an invitation email.
    pub fn send_email(&self) -> (r: bool)
        ensures
            self.0 is User ==> r == self.0->User_send_email,
            self.0 is Device ==> r == self.0->Device_send_email,
    {
        match &self.0 {
            UserOrDevice::User { send_email, .. } => *send_email,
            UserOrDevice::Device { send_email } => *send_email,
        }
    }
}

/// Reply to `InviteNewReq`.
#[derive(Debug, Clone, PartialEq, Eq)]
pub enum InviteNewRep {
    Success { token: InvitationToken, email_sent: InvitationEmailSentStatus },
    NotAllowed,
    AlreadyMember,
    NotAvailable,
}

/// Request: mark an invitation terminal.
#[derive(Debug, Clone, PartialEq, Eq)]
pub struct InviteDeleteReq {
    pub token: InvitationToken,
    pub reason: InvitationDeletedReason,
}

impl InviteDeleteReq {
    pub fn new(token: InvitationToken, reason: InvitationDeletedReason) -> (r: InviteDeleteReq)
        ensures
            r.token@ == token@,
            r.reason == reason,
    {
        InviteDeleteReq { token, reason }
    }

    pub fn token(&self) -> (r: &InvitationToken)
        ensures
            r@ == self.token@,
    {
        &self.token
    }

    pub fn reason(&self) -> (r: InvitationDeletedReason)
        ensures
            r == self.reason,
    {
        self.reason
    }
}

/// Reply to `InviteDeleteReq`.
#[derive(Debug, Clone, PartialEq, Eq)]
pub enum InviteDeleteRep {
    Success,
    AlreadyDeleted,
    NotFound,
}

/// Request: list the issuer's invitations.
#[derive(Debug, Clone, PartialEq, Eq)]
pub struct InviteListReq;

impl InviteListReq {
    pub fn new() -> (r: InviteListReq) {
        InviteListReq
    }
}

/// One invitation as seen in a listing.
#[derive(Debug, Clone, PartialEq, Eq)]
pub enum InviteListItem {
    User {
        token: InvitationToken,
        created_on: u64,
        claimer_email: String,
        status: InvitationStatus,
    },
    Device { token: InvitationToken, created_on: u64, status: InvitationStatus },
}

impl InviteListItem {
    /// Builds a user listing entry.
    pub fn user(
        token: InvitationToken,
        created_on: u64,
        claimer_email: String,
        status: InvitationStatus,
    ) -> (r: InviteListItem)
        ensures
            r == (InviteListItem::User { token, created_on, claimer_email, status }),
    {
        InviteListItem::User { token, created_on, claimer_email, status }
    }

    /// Builds a device listing entry.
    pub fn device(token: InvitationToken, created_on: u64, status: InvitationStatus) -> (r:
        InviteListItem)
        ensures
            r == (InviteListItem::Device { token, created_on, status }),
    {
        InviteListItem::Device { token, created_on, status }
    }

    /// The kind of the listed invitation.
    pub fn invitation_type(&self) -> (r: InvitationType)
        ensures
            r is User <==> self is User,
            r is Device <==> self is Device,
    {
        match self {
            InviteListItem::User { .. } => InvitationType::User,
            InviteListItem::Device { .. } => InvitationType::Device,
        }
    }

    /// The listed invitation's token.
    pub fn token(&self) -> (r: &InvitationToken)
        ensures
            self is User ==> r@ == self->User_token@,
            self is Device ==> r@ == self->Device_token@,
    {
        match self {
            InviteListItem::User { token, .. } => token,
            InviteListItem::Device { token, .. } => token,
        }
    }

    /// When the listed invitation was created.
    pub fn created_on(&self) -> (r: u64)
        ensures
            self is User ==> r == self->User_created_on,
            self is Device ==> r == self->Device_created_on,
    {
        match self {
            InviteListItem::User { created_on, .. } => *created_on,
            InviteListItem::Device { created_on, .. } => *created_on,
        }
    }

    /// The claimer email of a listed user invitation.
    pub fn claimer_email(&self) -> (r: Option<&String>)
        ensures
            match r {
                Some(e) => self is User && e@ == self->User_claimer_email@,
                None => self is Device,
            },
    {
        match self {
            InviteListItem::User { claimer_email, .. } => Some(claimer_email),
            InviteListItem::Device { .. } => None,
        }
    }

    /// The listed invitation's lifecycle status.
    pub fn status(&self) -> (r: InvitationStatus)
        ensures
            self is User ==> r == self->User_status,
            self is Device ==> r == self->Device_status,
    {
        match self {
            InviteListItem::User { status, .. } => *status,
            InviteListItem::Device { status, .. } => *status,
        }
    }
}

/// Reply to `InviteListReq`.
#[derive(Debug, Clone, PartialEq, Eq)]
pub enum InviteListRep {
    Success { invitations: Vec<InviteListItem> },
}

/// Request: claimer-facing read of an invitation, before the handshake.
#[derive(Debug, Clone, PartialEq, Eq)]
pub struct InviteInfoReq;

impl InviteInfoReq {
    pub fn new() -> (r: InviteInfoReq) {
        InviteInfoReq
    }
}

/// The summary an `InviteInfoReq` returns on success.
#[derive(Debug, Clone, PartialEq, Eq)]
pub enum InviteInfoUserOrDevice {
    User {
        claimer_email: String,
        greeter_user_id: UserID,
        greeter_human_handle: Option<HumanHandle>,
    },
    Device { greeter_user_id: UserID, greeter_human_handle: Option<HumanHandle> },
}

/// Reply to `InviteInfoReq`.
#[derive(Debug, Clone, PartialEq, Eq)]
pub enum InviteInfoRep {
    Success(InviteInfoUserOrDevice),
    NotFound,
    AlreadyDeleted,
}

impl InviteInfoRep {
    /// Builds the success summary from a kind selector; a user invitation
    /// must name the claimer's email.
    pub fn new(
        kind: InvitationType,
        claimer_email: Option<String>,
        greeter_user_id: UserID,
        greeter_human_handle: Option<HumanHandle>,
    ) -> (r: InviteInfoRep)
        requires
            kind is User ==> claimer_email is Some,
        ensures
            kind is Device ==> r == InviteInfoRep::Success(
                InviteInfoUserOrDevice::Device { greeter_user_id, greeter_human_handle },
            ),
            kind is User ==> r == InviteInfoRep::Success(
                InviteInfoUserOrDevice::User {
                    claimer_email: claimer_email.unwrap(),
                    greeter_user_id,
                    greeter_human_handle,
                },
            ),
    {
        match kind {
            InvitationType::Device => InviteInfoRep::Success(
                InviteInfoUserOrDevice::Device { greeter_user_id, greeter_human_handle },
            ),
            InvitationType::User => {
                let claimer_email = match claimer_email {
                    Some(e) => e,
                    None => unreached(),
                };
                InviteInfoRep::Success(
                    InviteInfoUserOrDevice::User {
                        claimer_email,
                        greeter_user_id,
                        greeter_human_handle,
                    },
                )
            },
        }
    }

    /// The kind of the summarized invitation.
    pub fn invitation_type(&self) -> (r: Option<InvitationType>)
        ensures
            match r {
                Some(t) => self is Success && (t is User <==> self->0 is User) && (t is Device
                    <==> self->0 is Device),
                None => !(self is Success),
            },
    {
        match self {
            InviteInfoRep::Success(InviteInfoUserOrDevice::User { .. }) => Some(InvitationType::User),
            InviteInfoRep::Success(InviteInfoUserOrDevice::Device { .. }) => Some(
                InvitationType::Device,
            ),
            _ => None,
        }
    }

    /// The greeter behind the summarized invitation.
    pub fn greeter_user_id(&self) -> (r: Option<&UserID>)
        ensures
            match r {
                Some(u) => self is Success && (self->0 is User ==> u@ == self->0->User_greeter_user_id@)
                    && (self->0 is Device ==> u@ == self->0->Device_greeter_user_id@),
                None => !(self is Success),
            },
    {
        match self {
            InviteInfoRep::Success(InviteInfoUserOrDevice::User { greeter_user_id, .. }) => Some(
                greeter_user_id,
            ),
            InviteInfoRep::Success(InviteInfoUserOrDevice::Device { greeter_user_id, .. }) => Some(
                greeter_user_id,
            ),
            _ => None,
        }
    }

    /// The claimer email of a summarized user invitation.
    pub fn claimer_email(&self) -> (r: Option<&String>)
        ensures
            match r {
                Some(e) => self is Success && self->0 is User && e@ == self->0->User_claimer_email@,
                None => !(self is Success) || self->0 is Device,
            },
    {
        match self {
            InviteInfoRep::Success(InviteInfoUserOrDevice::User { claimer_email, .. }) => Some(
                claimer_email,
            ),
            _ => None,
        }
    }

    /// The greeter's human handle, where one is attached.
    pub fn greeter_human_handle(&self) -> (r: Option<&HumanHandle>)
        ensures
            match r {
                Some(h) => self is Success && (self->0 is User ==> self->0->User_greeter_human_handle
                    == Some(*h)) && (self->0 is Device ==> self->0->Device_greeter_human_handle
                    == Some(*h)),
                None => !(self is Success) || (self->0 is User && self->0->User_greeter_human_handle
                    is None) || (self->0 is Device && self->0->Device_greeter_human_handle
                    is None),
            },
    {
        match self {
            InviteInfoRep::Success(
                InviteInfoUserOrDevice::User { greeter_human_handle: Some(handle), .. },
            ) => Some(handle),
            InviteInfoRep::Success(
                InviteInfoUserOrDevice::Device { greeter_human_handle: Some(handle), .. },
            ) => Some(handle),
            _ => None,
        }
    }
}

/// Request: claimer deposits its public key (step 1).
#[derive(Debug, Clone, PartialEq, Eq)]
pub struct Invite1ClaimerWaitPeerReq {
    pub claimer_public_key: PublicKey,
}

impl Invite1ClaimerWaitPeerReq {
    pub fn new(claimer_public_key: PublicKey) -> (r: Invite1ClaimerWaitPeerReq)
        ensures
            r.claimer_public_key@ == claimer_public_key@,
    {
        Invite1ClaimerWaitPeerReq { claimer_public_key }
    }

    pub fn claimer_public_key(&self) -> (r: &PublicKey)
        ensures
            r@ == self.claimer_public_key@,
    {
        &self.claimer_public_key
    }
}

/// Reply to `Invite1ClaimerWaitPeerReq`: the greeter's public key.
#[derive(Debug, Clone, PartialEq, Eq)]
pub enum Invite1ClaimerWaitPeerRep {
    Success { greeter_public_key: PublicKey },
    NotFound,
    InvalidState,
}

/// Request: greeter deposits its public key (step 1).
#[derive(Debug, Clone, PartialEq, Eq)]
pub struct Invite1GreeterWaitPeerReq {
    pub token: InvitationToken,
    pub greeter_public_key: PublicKey,
}

impl Invite1GreeterWaitPeerReq {
    pub fn new(token: InvitationToken, greeter_public_key: PublicKey) -> (r:
        Invite1GreeterWaitPeerReq)
        ensures
            r.token@ == token@,
            r.greeter_public_key@ == greeter_public_key@,
    {
        Invite1GreeterWaitPeerReq { token, greeter_public_key }
    }

    pub fn token(&self) -> (r: &InvitationToken)
        ensures
            r@ == self.token@,
    {
        &self.token
    }

    pub fn greeter_public_key(&self) -> (r: &PublicKey)
        ensures
            r@ == self.greeter_public_key@,
    {
        &self.greeter_public_key
    }
}

/// Reply to `Invite1GreeterWaitPeerReq`: the claimer's public key.
#[derive(Debug, Clone, PartialEq, Eq)]
pub enum Invite1GreeterWaitPeerRep {
    Success { claimer_public_key: PublicKey },
    NotFound,
    AlreadyDeleted,
    InvalidState,
}

/// Request: claimer commits to its nonce by depositing its hash (step 2a).
#[derive(Debug, Clone, PartialEq, Eq)]
pub struct Invite2aClaimerSendHashedNonceReq {
    pub claimer_hashed_nonce: HashDigest,
}

impl Invite2aClaimerSendHashedNonceReq {
    pub fn new(claimer_hashed_nonce: HashDigest) -> (r: Invite2aClaimerSendHashedNonceReq)
        ensures
            r.claimer_hashed_nonce@ == claimer_hashed_nonce@,
    {
        Invite2aClaimerSendHashedNonceReq { claimer_hashed_nonce }
    }

    pub fn claimer_hashed_nonce(&self) -> (r: &HashDigest)
        ensures
            r@ == self.claimer_hashed_nonce@,
    {
        &self.claimer_hashed_nonce
    }
}

/// Reply to `Invite2aClaimerSendHashedNonceReq`: the greeter's nonce, once
/// the greeter has revealed it.
#[derive(Debug, Clone, PartialEq, Eq)]
pub enum Invite2aClaimerSendHashedNonceRep {
    Success { greeter_nonce: Vec<u8> },
    NotFound,
    AlreadyDeleted,
    InvalidState,
}

/// Request: greeter fetches the claimer's nonce commitment (step 2a).
#[derive(Debug, Clone, PartialEq, Eq)]
pub struct Invite2aGreeterGetHashedNonceReq {
    pub token: InvitationToken,
}

impl Invite2aGreeterGetHashedNonceReq {
    pub fn new(token: InvitationToken) -> (r: Invite2aGreeterGetHashedNonceReq)
        ensures
            r.token@ == token@,
    {
        Invite2aGreeterGetHashedNonceReq { token }
    }

    pub fn token(&self) -> (r: &InvitationToken)
        ensures
            r@ == self.token@,
    {
        &self.token
    }
}

/// Reply to `Invite2aGreeterGetHashedNonceReq`: the commitment.
#[derive(Debug, Clone, PartialEq, Eq)]
pub enum Invite2aGreeterGetHashedNonceRep {
    Success { claimer_hashed_nonce: HashDigest },
    NotFound,
    AlreadyDeleted,
    InvalidState,
}

/// Request: claimer reveals its nonce (step 2b).
#[derive(Debug, Clone, PartialEq, Eq)]
pub struct Invite2bClaimerSendNonceReq {
    pub claimer_nonce: Vec<u8>,
}

impl Invite2bClaimerSendNonceReq {
    pub fn new(claimer_nonce: Vec<u8>) -> (r: Invite2bClaimerSendNonceReq)
        ensures
            r.claimer_nonce@ == claimer_nonce@,
    {
        Invite2bClaimerSendNonceReq { claimer_nonce }
    }

    pub fn claimer_nonce(&self) -> (r: &Vec<u8>)
        ensures
            r@ == self.claimer_nonce@,
    {
        &self.claimer_nonce
    }
}

/// Reply to `Invite2bClaimerSendNonceReq`.
#[derive(Debug, Clone, PartialEq, Eq)]
pub enum Invite2bClaimerSendNonceRep {
    Success,
    NotFound,
    InvalidState,
}

/// Request: greeter reveals its nonce (step 2b).
#[derive(Debug, Clone, PartialEq, Eq)]
pub struct Invite2bGreeterSendNonceReq {
    pub token: InvitationToken,
    pub greeter_nonce: Vec<u8>,
}

impl Invite2bGreeterSendNonceReq {
    pub fn new(token: InvitationToken, greeter_nonce: Vec<u8>) -> (r: Invite2bGreeterSendNonceReq)
        ensures
            r.token@ == token@,
            r.greeter_nonce@ == greeter_nonce@,
    {
        Invite2bGreeterSendNonceReq { token, greeter_nonce }
    }

    pub fn token(&self) -> (r: &InvitationToken)
        ensures
            r@ == self.token@,
    {
        &self.token
    }

    pub fn greeter_nonce(&self) -> (r: &Vec<u8>)
        ensures
            r@ == self.greeter_nonce@,
    {
        &self.greeter_nonce
    }
}

/// Reply to `Invite2bGreeterSendNonceReq`: the claimer's revealed nonce.
#[derive(Debug, Clone, PartialEq, Eq)]
pub enum Invite2bGreeterSendNonceRep {
    Success { claimer_nonce: Vec<u8> },
    NotFound,
    AlreadyDeleted,
    InvalidState,
}

/// Request: claimer signifies that the humans compared the codes (step 3a).
#[derive(Debug, Clone, PartialEq, Eq)]
pub struct Invite3aClaimerSignifyTrustReq;

impl Invite3aClaimerSignifyTrustReq {
    pub fn new() -> (r: Invite3aClaimerSignifyTrustReq) {
        Invite3aClaimerSignifyTrustReq
    }
}

/// Reply to `Invite3aClaimerSignifyTrustReq`.
#[derive(Debug, Clone, PartialEq, Eq)]
pub enum Invite3aClaimerSignifyTrustRep {
    Success,
    NotFound,
    InvalidState,
}

/// Request: greeter waits for the claimer's trust (step 3a).
#[derive(Debug, Clone, PartialEq, Eq)]
pub struct Invite3aGreeterWaitPeerTrustReq {
    pub token: InvitationToken,
}

impl Invite3aGreeterWaitPeerTrustReq {
    pub fn new(token: InvitationToken) -> (r: Invite3aGreeterWaitPeerTrustReq)
        ensures
            r.token@ == token@,
    {
        Invite3aGreeterWaitPeerTrustReq { token }
    }

    pub fn token(&self) -> (r: &InvitationToken)
        ensures
            r@ == self.token@,
    {
        &self.token
    }
}

/// Reply to `Invite3aGreeterWaitPeerTrustReq`.
#[derive(Debug, Clone, PartialEq, Eq)]
pub enum Invite3aGreeterWaitPeerTrustRep {
    Success,
    NotFound,
    AlreadyDeleted,
    InvalidState,
}

/// Request: claimer waits for the greeter's trust (step 3b).
#[derive(Debug, Clone, PartialEq, Eq)]
pub struct Invite3bClaimerWaitPeerTrustReq;

impl Invite3bClaimerWaitPeerTrustReq {
    pub fn new() -> (r: Invite3bClaimerWaitPeerTrustReq) {
        Invite3bClaimerWaitPeerTrustReq
    }
}

/// Reply to `Invite3bClaimerWaitPeerTrustReq`.
#[derive(Debug, Clone, PartialEq, Eq)]
pub enum Invite3bClaimerWaitPeerTrustRep {
    Success,
    NotFound,
    InvalidState,
}

/// Request: greeter signifies that the humans compared the codes (step 3b).
#[derive(Debug, Clone, PartialEq, Eq)]
pub struct Invite3bGreeterSignifyTrustReq {
    pub token: InvitationToken,
}

impl Invite3bGreeterSignifyTrustReq {
    pub fn new(token: InvitationToken) -> (r: Invite3bGreeterSignifyTrustReq)
        ensures
            r.token@ == token@,
    {
        Invite3bGreeterSignifyTrustReq { token }
    }

    pub fn token(&self) -> (r: &InvitationToken)
        ensures
            r@ == self.token@,
    {
        &self.token
    }
}

/// Reply to `Invite3bGreeterSignifyTrustReq`.
#[derive(Debug, Clone, PartialEq, Eq)]
pub enum Invite3bGreeterSignifyTrustRep {
    Success,
    NotFound,
    AlreadyDeleted,
    InvalidState,
}

/// Request: claimer deposits a payload and fetches the greeter's (step 4).
#[derive(Debug, Clone, PartialEq, Eq)]
pub struct Invite4ClaimerCommunicateReq {
    pub payload: Vec<u8>,
}

impl Invite4ClaimerCommunicateReq {
    pub fn new(payload: Vec<u8>) -> (r: Invite4ClaimerCommunicateReq)
        ensures
            r.payload@ == payload@,
    {
        Invite4ClaimerCommunicateReq { payload }
    }

    pub fn payload(&self) -> (r: &Vec<u8>)
        ensures
            r@ == self.payload@,
    {
        &self.payload
    }
}

/// Reply to `Invite4ClaimerCommunicateReq`: the greeter's latest payload.
#[derive(Debug, Clone, PartialEq, Eq)]
pub enum Invite4ClaimerCommunicateRep {
    Success { payload: Vec<u8> },
    NotFound,
    InvalidState,
}

/// Request: greeter deposits a payload and fetches the claimer's (step 4).
#[derive(Debug, Clone, PartialEq, Eq)]
pub struct Invite4GreeterCommunicateReq {
    pub token: InvitationToken,
    pub payload: Vec<u8>,
}

impl Invite4GreeterCommunicateReq {
    pub fn new(token: InvitationToken, payload: Vec<u8>) -> (r: Invite4GreeterCommunicateReq)
        ensures
            r.token@ == token@,
            r.payload@ == payload@,
    {
        Invite4GreeterCommunicateReq { token, payload }
    }

    pub fn token(&self) -> (r: &InvitationToken)
        ensures
            r@ == self.token@,
    {
        &self.token
    }

    pub fn payload(&self) -> (r: &Vec<u8>)
        ensures
            r@ == self.payload@,
    {
        &self.payload
    }
}

/// Reply to `Invite4GreeterCommunicateReq`: the claimer's latest payload.
#[derive(Debug, Clone, PartialEq, Eq)]
pub enum Invite4GreeterCommunicateRep {
    Success { payload: Vec<u8> },
    NotFound,
    AlreadyDeleted,
    InvalidState,
}

/// Every request a greeter (authenticated side) can address to the relay.
#[derive(Debug, Clone, PartialEq, Eq)]
pub enum GreeterRequest {
    New(InviteNewReq),
    Delete(InviteDeleteReq),
    List(InviteListReq),
    WaitPeer(Invite1GreeterWaitPeerReq),
    GetHashedNonce(Invite2aGreeterGetHashedNonceReq),
    SendNonce(Invite2bGreeterSendNonceReq),
    WaitPeerTrust(Invite3aGreeterWaitPeerTrustReq),
    SignifyTrust(Invite3bGreeterSignifyTrustReq),
    Communicate(Invite4GreeterCommunicateReq),
}

/// Every reply a greeter can receive.
#[derive(Debug, Clone, PartialEq, Eq)]
pub enum GreeterReply {
    New(InviteNewRep),
    Delete(InviteDeleteRep),
    List(InviteListRep),
    WaitPeer(Invite1GreeterWaitPeerRep),
    GetHashedNonce(Invite2aGreeterGetHashedNonceRep),
    SendNonce(Invite2bGreeterSendNonceRep),
    WaitPeerTrust(Invite3aGreeterWaitPeerTrustRep),
    SignifyTrust(Invite3bGreeterSignifyTrustRep),
    Communicate(Invite4GreeterCommunicateRep),
}

/// Every request a claimer (invited side) can address to the relay; the
/// claimer's session is already bound to one token.
#[derive(Debug, Clone, PartialEq, Eq)]
pub enum ClaimerRequest {
    Info(InviteInfoReq),
    WaitPeer(Invite1ClaimerWaitPeerReq),
    SendHashedNonce(Invite2aClaimerSendHashedNonceReq),
    SendNonce(Invite2bClaimerSendNonceReq),
    SignifyTrust(Invite3aClaimerSignifyTrustReq),
    WaitPeerTrust(Invite3bClaimerWaitPeerTrustReq),
    Communicate(Invite4ClaimerCommunicateReq),
}

/// Every reply a claimer can receive.
#[derive(Debug, Clone, PartialEq, Eq)]
pub enum ClaimerReply {
    Info(InviteInfoRep),
    WaitPeer(Invite1ClaimerWaitPeerRep),
    SendHashedNonce(Invite2aClaimerSendHashedNonceRep),
    SendNonce(Invite2bClaimerSendNonceRep),
    SignifyTrust(Invite3aClaimerSignifyTrustRep),
    WaitPeerTrust(Invite3bClaimerWaitPeerTrustRep),
    Communicate(Invite4ClaimerCommunicateRep),
}

} // verus!
