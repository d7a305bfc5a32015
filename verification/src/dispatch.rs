//! Command dispatch: maps each request to the registry operation it
//! performs and wraps the operation's reply into the command's closed
//! reply type.  The greeter's identity comes from its authenticated
//! session; the claimer's session is bound to one invitation token.

use crate::handle::HumanHandle;
use crate::ids::UserID;
use crate::invite::{InvitationToken, InvitationType};
use crate::profile::UserProfile;
use crate::protocol::{
    ClaimerReply, ClaimerRequest, GreeterReply, GreeterRequest, InviteListRep, InviteNewReq,
    UserOrDevice,
};
use crate::registry::{
    create_post, find_token, info_matches, item_view, matches_rep_1c, matches_rep_1g,
    matches_rep_2ac, matches_rep_2ag, matches_rep_2bc, matches_rep_2bg, matches_rep_3ac,
    matches_rep_3ag, matches_rep_3bc, matches_rep_3bg, matches_rep_4c, matches_rep_4g, spec_delete,
    spec_list, step_claimer_communicate, step_claimer_send_hashed_nonce, step_claimer_send_nonce,
    step_claimer_signify_trust, step_claimer_wait_peer, step_claimer_wait_peer_trust,
    step_greeter_communicate, step_greeter_get_hashed_nonce, step_greeter_send_nonce,
    step_greeter_signify_trust, step_greeter_wait_peer, step_greeter_wait_peer_trust, Outcome,
    Registry, StepResult,
};
use vstd::prelude::*;

verus! {

/// The reply to a greeter step command wraps the step's own reply type.
pub open spec fn lifts_1g(r: Outcome<GreeterReply>, sr: StepResult) -> bool {
    match r {
        Outcome::Pending => matches_rep_1g(Outcome::Pending, sr),
        Outcome::Reply(GreeterReply::WaitPeer(rep)) => matches_rep_1g(Outcome::Reply(rep), sr),
        _ => false,
    }
}

pub open spec fn lifts_2ag(r: Outcome<GreeterReply>, sr: StepResult) -> bool {
    match r {
        Outcome::Pending => matches_rep_2ag(Outcome::Pending, sr),
        Outcome::Reply(GreeterReply::GetHashedNonce(rep)) => matches_rep_2ag(
            Outcome::Reply(rep),
            sr,
        ),
        _ => false,
    }
}

pub open spec fn lifts_2bg(r: Outcome<GreeterReply>, sr: StepResult) -> bool {
    match r {
        Outcome::Pending => matches_rep_2bg(Outcome::Pending, sr),
        Outcome::Reply(GreeterReply::SendNonce(rep)) => matches_rep_2bg(Outcome::Reply(rep), sr),
        _ => false,
    }
}

pub open spec fn lifts_3ag(r: Outcome<GreeterReply>, sr: StepResult) -> bool {
    match r {
        Outcome::Pending => matches_rep_3ag(Outcome::Pending, sr),
        Outcome::Reply(GreeterReply::WaitPeerTrust(rep)) => matches_rep_3ag(
            Outcome::Reply(rep),
            sr,
        ),
        _ => false,
    }
}

pub open spec fn lifts_3bg(r: Outcome<GreeterReply>, sr: StepResult) -> bool {
    match r {
        Outcome::Pending => matches_rep_3bg(Outcome::Pending, sr),
        Outcome::Reply(GreeterReply::SignifyTrust(rep)) => matches_rep_3bg(
            Outcome::Reply(rep),
            sr,
        ),
        _ => false,
    }
}

pub open spec fn lifts_4g(r: Outcome<GreeterReply>, sr: StepResult) -> bool {
    match r {
        Outcome::Pending => matches_rep_4g(Outcome::Pending, sr),
        Outcome::Reply(GreeterReply::Communicate(rep)) => matches_rep_4g(Outcome::Reply(rep), sr),
        _ => false,
    }
}

/// Runs one authenticated (greeter-side) command against the registry.
pub fn handle_greeter_request(
    reg: &mut Registry,
    author: &UserID,
    author_profile: UserProfile,
    author_handle: Option<HumanHandle>,
    now: u64,
    req: &GreeterRequest,
) -> (r: Outcome<GreeterReply>)
    requires
        old(reg).wf(),
        old(reg).seq_counter() < u64::MAX,
        crate::envelope::greeter_request_wf(*req),
    ensures
        final(reg).wf(),
        final(reg).members() == old(reg).members(),
        final(reg).email_ok() == old(reg).email_ok(),
        match *req {
            GreeterRequest::New(InviteNewReq(UserOrDevice::User { claimer_email, send_email })) => r
                matches Outcome::Reply(GreeterReply::New(rep)) && create_post(
                old(reg)@,
                final(reg)@,
                old(reg).members(),
                old(reg).email_ok(),
                InvitationType::User,
                Some(claimer_email),
                send_email,
                author_profile,
                author@,
                author_handle,
                now,
                rep,
            ),
            GreeterRequest::New(InviteNewReq(UserOrDevice::Device { send_email })) => r
                matches Outcome::Reply(GreeterReply::New(rep)) && create_post(
                old(reg)@,
                final(reg)@,
                old(reg).members(),
                old(reg).email_ok(),
                InvitationType::Device,
                None,
                send_email,
                author_profile,
                author@,
                author_handle,
                now,
                rep,
            ),
            GreeterRequest::Delete(d) => final(reg)@ == spec_delete(old(reg)@, d.token@, d.reason).0
                && r == Outcome::Reply(
                GreeterReply::Delete(spec_delete(old(reg)@, d.token@, d.reason).1),
            ),
            GreeterRequest::List(_) => final(reg)@ == old(reg)@ && (r matches Outcome::Reply(
                GreeterReply::List(InviteListRep::Success { invitations }),
            ) && invitations@.map_values(
                |it: crate::protocol::InviteListItem| item_view(it),
            ) == spec_list(old(reg)@, author@)),
            GreeterRequest::WaitPeer(w) => final(reg)@ == step_greeter_wait_peer(
                old(reg)@,
                w.token@,
                w.greeter_public_key@,
            ).0 && lifts_1g(r, step_greeter_wait_peer(old(reg)@, w.token@, w.greeter_public_key@).1),
            GreeterRequest::GetHashedNonce(g) => final(reg)@ == step_greeter_get_hashed_nonce(
                old(reg)@,
                g.token@,
            ).0 && lifts_2ag(r, step_greeter_get_hashed_nonce(old(reg)@, g.token@).1),
            GreeterRequest::SendNonce(n) => final(reg)@ == step_greeter_send_nonce(
                old(reg)@,
                n.token@,
                n.greeter_nonce@,
            ).0 && lifts_2bg(r, step_greeter_send_nonce(old(reg)@, n.token@, n.greeter_nonce@).1),
            GreeterRequest::WaitPeerTrust(w) => final(reg)@ == step_greeter_wait_peer_trust(
                old(reg)@,
                w.token@,
            ).0 && lifts_3ag(r, step_greeter_wait_peer_trust(old(reg)@, w.token@).1),
            GreeterRequest::SignifyTrust(s) => final(reg)@ == step_greeter_signify_trust(
                old(reg)@,
                s.token@,
            ).0 && lifts_3bg(r, step_greeter_signify_trust(old(reg)@, s.token@).1),
            GreeterRequest::Communicate(c) => final(reg)@ == step_greeter_communicate(
                old(reg)@,
                c.token@,
                c.payload@,
            ).0 && lifts_4g(r, step_greeter_communicate(old(reg)@, c.token@, c.payload@).1),
        },
{
    match req {
        GreeterRequest::New(InviteNewReq(payload)) => {
            let rep = match payload {
                UserOrDevice::User { claimer_email, send_email } => reg.create(
                    InvitationType::User,
                    Some(claimer_email.clone()),
                    *send_email,
                    author,
                    author_profile,
                    author_handle,
                    now,
                ),
                UserOrDevice::Device { send_email } => reg.create(
                    InvitationType::Device,
                    None,
                    *send_email,
                    author,
                    author_profile,
                    author_handle,
                    now,
                ),
            };
            Outcome::Reply(GreeterReply::New(rep))
        },
        GreeterRequest::Delete(d) => Outcome::Reply(
            GreeterReply::Delete(reg.delete(&d.token, d.reason)),
        ),
        GreeterRequest::List(_) => {
            let invitations = reg.list(author);
            Outcome::Reply(GreeterReply::List(InviteListRep::Success { invitations }))
        },
        GreeterRequest::WaitPeer(w) => match reg.greeter_wait_peer(
            &w.token,
            &w.greeter_public_key,
        ) {
            Outcome::Reply(rep) => Outcome::Reply(GreeterReply::WaitPeer(rep)),
            Outcome::Pending => Outcome::Pending,
        },
        GreeterRequest::GetHashedNonce(g) => match reg.greeter_get_hashed_nonce(&g.token) {
            Outcome::Reply(rep) => Outcome::Reply(GreeterReply::GetHashedNonce(rep)),
            Outcome::Pending => Outcome::Pending,
        },
        GreeterRequest::SendNonce(n) => match reg.greeter_send_nonce(&n.token, &n.greeter_nonce) {
            Outcome::Reply(rep) => Outcome::Reply(GreeterReply::SendNonce(rep)),
            Outcome::Pending => Outcome::Pending,
        },
        GreeterRequest::WaitPeerTrust(w) => match reg.greeter_wait_peer_trust(&w.token) {
            Outcome::Reply(rep) => Outcome::Reply(GreeterReply::WaitPeerTrust(rep)),
            Outcome::Pending => Outcome::Pending,
        },
        GreeterRequest::SignifyTrust(s) => match reg.greeter_signify_trust(&s.token) {
            Outcome::Reply(rep) => Outcome::Reply(GreeterReply::SignifyTrust(rep)),
            Outcome::Pending => Outcome::Pending,
        },
        GreeterRequest::Communicate(c) => match reg.greeter_communicate(&c.token, &c.payload) {
            Outcome::Reply(rep) => Outcome::Reply(GreeterReply::Communicate(rep)),
            Outcome::Pending => Outcome::Pending,
        },
    }
}

pub open spec fn lifts_1c(r: Outcome<ClaimerReply>, sr: StepResult) -> bool {
    match r {
        Outcome::Pending => matches_rep_1c(Outcome::Pending, sr),
        Outcome::Reply(ClaimerReply::WaitPeer(rep)) => matches_rep_1c(Outcome::Reply(rep), sr),
        _ => false,
    }
}

pub open spec fn lifts_2ac(r: Outcome<ClaimerReply>, sr: StepResult) -> bool {
    match r {
        Outcome::Pending => matches_rep_2ac(Outcome::Pending, sr),
        Outcome::Reply(ClaimerReply::SendHashedNonce(rep)) => matches_rep_2ac(
            Outcome::Reply(rep),
            sr,
        ),
        _ => false,
    }
}

pub open spec fn lifts_2bc(r: Outcome<ClaimerReply>, sr: StepResult) -> bool {
    match r {
        Outcome::Pending => matches_rep_2bc(Outcome::Pending, sr),
        Outcome::Reply(ClaimerReply::SendNonce(rep)) => matches_rep_2bc(Outcome::Reply(rep), sr),
        _ => false,
    }
}

pub open spec fn lifts_3ac(r: Outcome<ClaimerReply>, sr: StepResult) -> bool {
    match r {
        Outcome::Pending => matches_rep_3ac(Outcome::Pending, sr),
        Outcome::Reply(ClaimerReply::SignifyTrust(rep)) => matches_rep_3ac(
            Outcome::Reply(rep),
            sr,
        ),
        _ => false,
    }
}

pub open spec fn lifts_3bc(r: Outcome<ClaimerReply>, sr: StepResult) -> bool {
    match r {
        Outcome::Pending => matches_rep_3bc(Outcome::Pending, sr),
        Outcome::Reply(ClaimerReply::WaitPeerTrust(rep)) => matches_rep_3bc(
            Outcome::Reply(rep),
            sr,
        ),
        _ => false,
    }
}

pub open spec fn lifts_4c(r: Outcome<ClaimerReply>, sr: StepResult) -> bool {
    match r {
        Outcome::Pending => matches_rep_4c(Outcome::Pending, sr),
        Outcome::Reply(ClaimerReply::Communicate(rep)) => matches_rep_4c(Outcome::Reply(rep), sr),
        _ => false,
    }
}

/// Runs one invited (claimer-side) command against the registry; the
/// session's token addresses the invitation.
pub fn handle_claimer_request(
    reg: &mut Registry,
    token: &InvitationToken,
    req: &ClaimerRequest,
) -> (r: Outcome<ClaimerReply>)
    requires
        old(reg).wf(),
        crate::envelope::claimer_request_wf(*req),
    ensures
        final(reg).wf(),
        final(reg).members() == old(reg).members(),
        final(reg).email_ok() == old(reg).email_ok(),
        final(reg).seq_counter() == old(reg).seq_counter(),
        match *req {
            ClaimerRequest::Info(_) => final(reg)@ == old(reg)@ && (r matches Outcome::Reply(
                ClaimerReply::Info(rep),
            ) && ({
                let i = find_token(old(reg)@, token@);
                if i == old(reg)@.len() {
                    rep == crate::protocol::InviteInfoRep::NotFound
                } else if old(reg)@[i].status is Deleted {
                    rep == crate::protocol::InviteInfoRep::AlreadyDeleted
                } else {
                    info_matches(rep, old(reg)@[i])
                }
            })),
            ClaimerRequest::WaitPeer(w) => final(reg)@ == step_claimer_wait_peer(
                old(reg)@,
                token@,
                w.claimer_public_key@,
            ).0 && lifts_1c(r, step_claimer_wait_peer(old(reg)@, token@, w.claimer_public_key@).1),
            ClaimerRequest::SendHashedNonce(h) => final(reg)@ == step_claimer_send_hashed_nonce(
                old(reg)@,
                token@,
                h.claimer_hashed_nonce@,
            ).0 && lifts_2ac(
                r,
                step_claimer_send_hashed_nonce(old(reg)@, token@, h.claimer_hashed_nonce@).1,
            ),
            ClaimerRequest::SendNonce(n) => final(reg)@ == step_claimer_send_nonce(
                old(reg)@,
                token@,
                n.claimer_nonce@,
            ).0 && lifts_2bc(r, step_claimer_send_nonce(old(reg)@, token@, n.claimer_nonce@).1),
            ClaimerRequest::SignifyTrust(_) => final(reg)@ == step_claimer_signify_trust(
                old(reg)@,
                token@,
            ).0 && lifts_3ac(r, step_claimer_signify_trust(old(reg)@, token@).1),
            ClaimerRequest::WaitPeerTrust(_) => final(reg)@ == step_claimer_wait_peer_trust(
                old(reg)@,
                token@,
            ).0 && lifts_3bc(r, step_claimer_wait_peer_trust(old(reg)@, token@).1),
            ClaimerRequest::Communicate(c) => final(reg)@ == step_claimer_communicate(
                old(reg)@,
                token@,
                c.payload@,
            ).0 && lifts_4c(r, step_claimer_communicate(old(reg)@, token@, c.payload@).1),
        },
{
    match req {
        ClaimerRequest::Info(_) => Outcome::Reply(ClaimerReply::Info(reg.info(token))),
        ClaimerRequest::WaitPeer(w) => match reg.claimer_wait_peer(token, &w.claimer_public_key) {
            Outcome::Reply(rep) => Outcome::Reply(ClaimerReply::WaitPeer(rep)),
            Outcome::Pending => Outcome::Pending,
        },
        ClaimerRequest::SendHashedNonce(h) => match reg.claimer_send_hashed_nonce(
            token,
            &h.claimer_hashed_nonce,
        ) {
            Outcome::Reply(rep) => Outcome::Reply(ClaimerReply::SendHashedNonce(rep)),
            Outcome::Pending => Outcome::Pending,
        },
        ClaimerRequest::SendNonce(n) => match reg.claimer_send_nonce(token, &n.claimer_nonce) {
            Outcome::Reply(rep) => Outcome::Reply(ClaimerReply::SendNonce(rep)),
            Outcome::Pending => Outcome::Pending,
        },
        ClaimerRequest::SignifyTrust(_) => match reg.claimer_signify_trust(token) {
            Outcome::Reply(rep) => Outcome::Reply(ClaimerReply::SignifyTrust(rep)),
            Outcome::Pending => Outcome::Pending,
        },
        ClaimerRequest::WaitPeerTrust(_) => match reg.claimer_wait_peer_trust(token) {
            Outcome::Reply(rep) => Outcome::Reply(ClaimerReply::WaitPeerTrust(rep)),
            Outcome::Pending => Outcome::Pending,
        },
        ClaimerRequest::Communicate(c) => match reg.claimer_communicate(token, &c.payload) {
            Outcome::Reply(rep) => Outcome::Reply(ClaimerReply::Communicate(rep)),
            Outcome::Pending => Outcome::Pending,
        },
    }
}

} // verus!
