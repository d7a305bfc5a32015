//! The wire envelope layer: every request and reply renders to a compact,
//! self-describing field list (see [`crate::wire`]) and back.
//!
//! Encoding is deterministic, and decoding the encoding of any well-formed
//! message returns a message with exactly the same fields, so an untrusted
//! relay cannot desynchronize the peers without the corruption surfacing
//! as a decode failure.

use crate::crypto::{HashDigest, PublicKey};
use crate::handle::HumanHandle;
use crate::ids::UserID;
use crate::invite::{
    clone_bytes, InvitationDeletedReason, InvitationEmailSentStatus, InvitationStatus,
    InvitationToken,
};
use crate::protocol::{
    ClaimerReply, ClaimerRequest, GreeterReply, GreeterRequest, Invite1ClaimerWaitPeerRep,
    Invite1ClaimerWaitPeerReq, Invite1GreeterWaitPeerRep, Invite1GreeterWaitPeerReq,
    Invite2aClaimerSendHashedNonceRep, Invite2aGreeterGetHashedNonceRep,
    Invite2bClaimerSendNonceRep, Invite2bGreeterSendNonceRep, Invite3aClaimerSignifyTrustRep,
    Invite3aGreeterWaitPeerTrustRep, Invite3bClaimerWaitPeerTrustRep,
    Invite3bGreeterSignifyTrustRep, Invite4ClaimerCommunicateRep, Invite4GreeterCommunicateRep,
    InviteDeleteRep, InviteInfoRep, InviteInfoUserOrDevice, InviteListItem, InviteListRep,
    InviteNewRep,
    Invite2aClaimerSendHashedNonceReq, Invite2aGreeterGetHashedNonceReq,
    Invite2bClaimerSendNonceReq, Invite2bGreeterSendNonceReq, Invite3aClaimerSignifyTrustReq,
    Invite3aGreeterWaitPeerTrustReq, Invite3bClaimerWaitPeerTrustReq,
    Invite3bGreeterSignifyTrustReq, Invite4ClaimerCommunicateReq, Invite4GreeterCommunicateReq,
    InviteDeleteReq, InviteInfoReq, InviteListReq, InviteNewReq, UserOrDevice,
};
use crate::wire::{
    dec_fields, decode_fields, enc_fields, encode_fields, field_wf, fields_wf,
    lemma_dec_fields_round_trip,
    WireField, WireFieldView,
};
use vstd::prelude::*;
use vstd::string::*;

verus! {

/// The wire tag of a deletion reason.
pub open spec fn reason_tag(r: InvitationDeletedReason) -> u8 {
    match r {
        InvitationDeletedReason::Finished => 1u8,
        InvitationDeletedReason::Cancelled => 2u8,
        InvitationDeletedReason::Rotten => 3u8,
    }
}

fn reason_to_tag(r: InvitationDeletedReason) -> (t: u8)
    ensures
        t == reason_tag(r),
{
    match r {
        InvitationDeletedReason::Finished => 1,
        InvitationDeletedReason::Cancelled => 2,
        InvitationDeletedReason::Rotten => 3,
    }
}

fn reason_from_tag(t: u8) -> (r: Option<InvitationDeletedReason>)
    ensures
        match r {
            Some(reason) => reason_tag(reason) == t,
            None => t != 1 && t != 2 && t != 3,
        },
{
    if t == 1 {
        Some(InvitationDeletedReason::Finished)
    } else if t == 2 {
        Some(InvitationDeletedReason::Cancelled)
    } else if t == 3 {
        Some(InvitationDeletedReason::Rotten)
    } else {
        None
    }
}

/// Every token, key and digest inside a request has its fixed size.
pub open spec fn greeter_request_wf(q: GreeterRequest) -> bool {
    match q {
        GreeterRequest::New(InviteNewReq(UserOrDevice::User { claimer_email, .. })) =>
            vstd::utf8::encode_utf8(claimer_email@).len() <= u64::MAX,
        GreeterRequest::New(InviteNewReq(UserOrDevice::Device { .. })) => true,
        GreeterRequest::Delete(d) => d.token.wf(),
        GreeterRequest::List(_) => true,
        GreeterRequest::WaitPeer(w) => w.token.wf() && w.greeter_public_key.wf(),
        GreeterRequest::GetHashedNonce(g) => g.token.wf(),
        GreeterRequest::SendNonce(n) => n.token.wf() && n.greeter_nonce@.len() <= u64::MAX,
        GreeterRequest::WaitPeerTrust(w) => w.token.wf(),
        GreeterRequest::SignifyTrust(s) => s.token.wf(),
        GreeterRequest::Communicate(c) => c.token.wf() && c.payload@.len() <= u64::MAX,
    }
}

/// The field rendering of a greeter request: a command tag, then the
/// command's fields in order.
pub open spec fn greeter_request_fields(q: GreeterRequest) -> Seq<WireFieldView> {
    match q {
        GreeterRequest::New(InviteNewReq(UserOrDevice::User { claimer_email, send_email })) => seq![
            WireFieldView::Tag(1u8),
            WireFieldView::Tag(1u8),
            WireFieldView::Text(claimer_email@),
            WireFieldView::Flag(send_email),
        ],
        GreeterRequest::New(InviteNewReq(UserOrDevice::Device { send_email })) => seq![
            WireFieldView::Tag(1u8),
            WireFieldView::Tag(2u8),
            WireFieldView::Flag(send_email),
        ],
        GreeterRequest::Delete(d) => seq![
            WireFieldView::Tag(2u8),
            WireFieldView::Bytes(d.token@),
            WireFieldView::Tag(reason_tag(d.reason)),
        ],
        GreeterRequest::List(_) => seq![WireFieldView::Tag(3u8)],
        GreeterRequest::WaitPeer(w) => seq![
            WireFieldView::Tag(4u8),
            WireFieldView::Bytes(w.token@),
            WireFieldView::Bytes(w.greeter_public_key@),
        ],
        GreeterRequest::GetHashedNonce(g) => seq![
            WireFieldView::Tag(5u8),
            WireFieldView::Bytes(g.token@),
        ],
        GreeterRequest::SendNonce(n) => seq![
            WireFieldView::Tag(6u8),
            WireFieldView::Bytes(n.token@),
            WireFieldView::Bytes(n.greeter_nonce@),
        ],
        GreeterRequest::WaitPeerTrust(w) => seq![
            WireFieldView::Tag(7u8),
            WireFieldView::Bytes(w.token@),
        ],
        GreeterRequest::SignifyTrust(s) => seq![
            WireFieldView::Tag(8u8),
            WireFieldView::Bytes(s.token@),
        ],
        GreeterRequest::Communicate(c) => seq![
            WireFieldView::Tag(9u8),
            WireFieldView::Bytes(c.token@),
            WireFieldView::Bytes(c.payload@),
        ],
    }
}

/// Which field lists are the rendering of some well-formed greeter
/// request.
pub open spec fn valid_greeter_request_fields(fs: Seq<WireFieldView>) -> bool {
    &&& fs.len() >= 1
    &&& match fs[0] {
        WireFieldView::Tag(c) => if c == 1 {
            ||| (fs.len() == 4 && fs[1] == WireFieldView::Tag(1u8) && fs[2] is Text && fs[3]
                is Flag)
            ||| (fs.len() == 3 && fs[1] == WireFieldView::Tag(2u8) && fs[2] is Flag)
        } else if c == 2 {
            &&& fs.len() == 3
            &&& fs[1] matches WireFieldView::Bytes(b) && b.len() == 16
            &&& fs[2] matches WireFieldView::Tag(t) && (t == 1 || t == 2 || t == 3)
        } else if c == 3 {
            fs.len() == 1
        } else if c == 4 {
            &&& fs.len() == 3
            &&& fs[1] matches WireFieldView::Bytes(b) && b.len() == 16
            &&& fs[2] matches WireFieldView::Bytes(k) && k.len() == 32
        } else if c == 5 || c == 7 || c == 8 {
            &&& fs.len() == 2
            &&& fs[1] matches WireFieldView::Bytes(b) && b.len() == 16
        } else if c == 6 || c == 9 {
            &&& fs.len() == 3
            &&& fs[1] matches WireFieldView::Bytes(b) && b.len() == 16
            &&& fs[2] is Bytes
        } else {
            false
        },
        _ => false,
    }
}

/// The rendering of a well-formed greeter request is itself well formed
/// and recognized as valid.
pub proof fn lemma_greeter_request_fields_ok(q: GreeterRequest)
    requires
        greeter_request_wf(q),
    ensures
        fields_wf(greeter_request_fields(q)),
        valid_greeter_request_fields(greeter_request_fields(q)),
{
}

/// Law (round trip, requests from the greeter): the byte encoding of any
/// well-formed greeter request decodes back to exactly its field list.
pub proof fn lemma_greeter_request_round_trip(q: GreeterRequest)
    requires
        greeter_request_wf(q),
    ensures
        dec_fields(enc_fields(greeter_request_fields(q))) == Some(greeter_request_fields(q)),
        valid_greeter_request_fields(greeter_request_fields(q)),
{
    lemma_greeter_request_fields_ok(q);
    lemma_dec_fields_round_trip(greeter_request_fields(q));
}

/// Renders a greeter request for the relay.
pub fn encode_greeter_request(q: &GreeterRequest) -> (r: Vec<u8>)
    ensures
        r@ == enc_fields(greeter_request_fields(*q)),
{
    let mut fields: Vec<WireField> = Vec::new();
    match q {
        GreeterRequest::New(InviteNewReq(UserOrDevice::User { claimer_email, send_email })) => {
            fields.push(WireField::Tag(1));
            fields.push(WireField::Tag(1));
            fields.push(WireField::Text(claimer_email.clone()));
            fields.push(WireField::Flag(*send_email));
        },
        GreeterRequest::New(InviteNewReq(UserOrDevice::Device { send_email })) => {
            fields.push(WireField::Tag(1));
            fields.push(WireField::Tag(2));
            fields.push(WireField::Flag(*send_email));
        },
        GreeterRequest::Delete(d) => {
            fields.push(WireField::Tag(2));
            fields.push(WireField::Bytes(clone_bytes(d.token.as_bytes())));
            fields.push(WireField::Tag(reason_to_tag(d.reason)));
        },
        GreeterRequest::List(_) => {
            fields.push(WireField::Tag(3));
        },
        GreeterRequest::WaitPeer(w) => {
            fields.push(WireField::Tag(4));
            fields.push(WireField::Bytes(clone_bytes(w.token.as_bytes())));
            fields.push(WireField::Bytes(clone_bytes(w.greeter_public_key.as_bytes())));
        },
        GreeterRequest::GetHashedNonce(g) => {
            fields.push(WireField::Tag(5));
            fields.push(WireField::Bytes(clone_bytes(g.token.as_bytes())));
        },
        GreeterRequest::SendNonce(n) => {
            fields.push(WireField::Tag(6));
            fields.push(WireField::Bytes(clone_bytes(n.token.as_bytes())));
            fields.push(WireField::Bytes(clone_bytes(&n.greeter_nonce)));
        },
        GreeterRequest::WaitPeerTrust(w) => {
            fields.push(WireField::Tag(7));
            fields.push(WireField::Bytes(clone_bytes(w.token.as_bytes())));
        },
        GreeterRequest::SignifyTrust(s) => {
            fields.push(WireField::Tag(8));
            fields.push(WireField::Bytes(clone_bytes(s.token.as_bytes())));
        },
        GreeterRequest::Communicate(c) => {
            fields.push(WireField::Tag(9));
            fields.push(WireField::Bytes(clone_bytes(c.token.as_bytes())));
            fields.push(WireField::Bytes(clone_bytes(&c.payload)));
        },
    }
    proof {
        assert(fields@.map_values(|f: WireField| f@) =~= greeter_request_fields(*q));
    }
    encode_fields(&fields)
}

fn take_token(b: &Vec<u8>) -> (r: Option<InvitationToken>)
    ensures
        match r {
            Some(t) => t@ == b@ && t.wf(),
            None => b@.len() != 16,
        },
{
    InvitationToken::from_bytes(clone_bytes(b))
}

fn take_key(b: &Vec<u8>) -> (r: Option<PublicKey>)
    ensures
        match r {
            Some(k) => k@ == b@ && k.wf(),
            None => b@.len() != 32,
        },
{
    PublicKey::from_bytes(clone_bytes(b))
}

fn take_digest(b: &Vec<u8>) -> (r: Option<HashDigest>)
    ensures
        match r {
            Some(d) => d@ == b@ && d.wf(),
            None => b@.len() != 32,
        },
{
    HashDigest::from_bytes(clone_bytes(b))
}

/// Parses a greeter request from relay bytes; any corruption is a failure.
pub fn decode_greeter_request(buf: &Vec<u8>) -> (r: Option<GreeterRequest>)
    ensures
        match r {
            Some(q) => greeter_request_wf(q) && dec_fields(buf@) == Some(
                greeter_request_fields(q),
            ),
            None => dec_fields(buf@) is None || !valid_greeter_request_fields(
                dec_fields(buf@).unwrap(),
            ),
        },
{
    let fields = match decode_fields(buf) {
        Some(fs) => fs,
        None => {
            return None;
        },
    };
    let ghost fv = fields@.map_values(|f: WireField| f@);
    if fields.len() < 1 {
        return None;
    }
    let cmd = match &fields[0] {
        WireField::Tag(c) => *c,
        _ => {
            return None;
        },
    };
    if cmd == 1 {
        if fields.len() == 4 {
            let q = match (&fields[1], &fields[2], &fields[3]) {
                (WireField::Tag(k), WireField::Text(s), WireField::Flag(b)) => {
                    if *k != 1 {
                        return None;
                    }
                    let email = s.clone();
                    let nbytes = email.as_str().as_bytes().len();
                    proof {
                        assert(nbytes as nat == vstd::utf8::encode_utf8(email@).len());
                    }
                    GreeterRequest::New(
                        InviteNewReq(
                            UserOrDevice::User { claimer_email: email, send_email: *b },
                        ),
                    )
                },
                _ => {
                    return None;
                },
            };
            proof {
                assert(greeter_request_fields(q) =~= fv);
            }
            Some(q)
        } else if fields.len() == 3 {
            let q = match (&fields[1], &fields[2]) {
                (WireField::Tag(k), WireField::Flag(b)) => {
                    if *k != 2 {
                        return None;
                    }
                    GreeterRequest::New(InviteNewReq(UserOrDevice::Device { send_email: *b }))
                },
                _ => {
                    return None;
                },
            };
            proof {
                assert(greeter_request_fields(q) =~= fv);
            }
            Some(q)
        } else {
            None
        }
    } else if cmd == 2 {
        if fields.len() != 3 {
            return None;
        }
        let q = match (&fields[1], &fields[2]) {
            (WireField::Bytes(b), WireField::Tag(t)) => {
                let token = match take_token(b) {
                    Some(tk) => tk,
                    None => {
                        return None;
                    },
                };
                let reason = match reason_from_tag(*t) {
                    Some(rs) => rs,
                    None => {
                        return None;
                    },
                };
                GreeterRequest::Delete(InviteDeleteReq { token, reason })
            },
            _ => {
                return None;
            },
        };
        proof {
            assert(greeter_request_fields(q) =~= fv);
        }
        Some(q)
    } else if cmd == 3 {
        if fields.len() != 1 {
            return None;
        }
        let q = GreeterRequest::List(InviteListReq);
        proof {
            assert(greeter_request_fields(q) =~= fv);
        }
        Some(q)
    } else if cmd == 4 {
        if fields.len() != 3 {
            return None;
        }
        let q = match (&fields[1], &fields[2]) {
            (WireField::Bytes(b), WireField::Bytes(kb)) => {
                let token = match take_token(b) {
                    Some(tk) => tk,
                    None => {
                        return None;
                    },
                };
                let greeter_public_key = match take_key(kb) {
                    Some(k) => k,
                    None => {
                        return None;
                    },
                };
                GreeterRequest::WaitPeer(Invite1GreeterWaitPeerReq { token, greeter_public_key })
            },
            _ => {
                return None;
            },
        };
        proof {
            assert(greeter_request_fields(q) =~= fv);
        }
        Some(q)
    } else if cmd == 5 || cmd == 7 || cmd == 8 {
        if fields.len() != 2 {
            return None;
        }
        let token = match &fields[1] {
            WireField::Bytes(b) => match take_token(b) {
                Some(tk) => tk,
                None => {
                    return None;
                },
            },
            _ => {
                return None;
            },
        };
        let q = if cmd == 5 {
            GreeterRequest::GetHashedNonce(Invite2aGreeterGetHashedNonceReq { token })
        } else if cmd == 7 {
            GreeterRequest::WaitPeerTrust(Invite3aGreeterWaitPeerTrustReq { token })
        } else {
            GreeterRequest::SignifyTrust(Invite3bGreeterSignifyTrustReq { token })
        };
        proof {
            assert(greeter_request_fields(q) =~= fv);
        }
        Some(q)
    } else if cmd == 6 || cmd == 9 {
        if fields.len() != 3 {
            return None;
        }
        let q = match (&fields[1], &fields[2]) {
            (WireField::Bytes(b), WireField::Bytes(data)) => {
                let token = match take_token(b) {
                    Some(tk) => tk,
                    None => {
                        return None;
                    },
                };
                if cmd == 6 {
                    GreeterRequest::SendNonce(
                        Invite2bGreeterSendNonceReq { token, greeter_nonce: clone_bytes(data) },
                    )
                } else {
                    GreeterRequest::Communicate(
                        Invite4GreeterCommunicateReq { token, payload: clone_bytes(data) },
                    )
                }
            },
            _ => {
                return None;
            },
        };
        proof {
            assert(greeter_request_fields(q) =~= fv);
        }
        Some(q)
    } else {
        None
    }
}

/// Every digest inside a claimer request has its fixed size.  Claimer
/// requests carry no token: the claimer's session is bound to one.
pub open spec fn claimer_request_wf(q: ClaimerRequest) -> bool {
    match q {
        ClaimerRequest::WaitPeer(w) => w.claimer_public_key.wf(),
        ClaimerRequest::SendHashedNonce(h) => h.claimer_hashed_nonce.wf(),
        ClaimerRequest::SendNonce(n) => n.claimer_nonce@.len() <= u64::MAX,
        ClaimerRequest::Communicate(c) => c.payload@.len() <= u64::MAX,
        _ => true,
    }
}

/// The field rendering of a claimer request.
pub open spec fn claimer_request_fields(q: ClaimerRequest) -> Seq<WireFieldView> {
    match q {
        ClaimerRequest::Info(_) => seq![WireFieldView::Tag(1u8)],
        ClaimerRequest::WaitPeer(w) => seq![
            WireFieldView::Tag(2u8),
            WireFieldView::Bytes(w.claimer_public_key@),
        ],
        ClaimerRequest::SendHashedNonce(h) => seq![
            WireFieldView::Tag(3u8),
            WireFieldView::Bytes(h.claimer_hashed_nonce@),
        ],
        ClaimerRequest::SendNonce(n) => seq![
            WireFieldView::Tag(4u8),
            WireFieldView::Bytes(n.claimer_nonce@),
        ],
        ClaimerRequest::SignifyTrust(_) => seq![WireFieldView::Tag(5u8)],
        ClaimerRequest::WaitPeerTrust(_) => seq![WireFieldView::Tag(6u8)],
        ClaimerRequest::Communicate(c) => seq![
            WireFieldView::Tag(7u8),
            WireFieldView::Bytes(c.payload@),
        ],
    }
}

/// Which field lists are the rendering of some well-formed claimer
/// request.
pub open spec fn valid_claimer_request_fields(fs: Seq<WireFieldView>) -> bool {
    &&& fs.len() >= 1
    &&& match fs[0] {
        WireFieldView::Tag(c) => if c == 1 || c == 5 || c == 6 {
            fs.len() == 1
        } else if c == 2 || c == 3 {
            &&& fs.len() == 2
            &&& fs[1] matches WireFieldView::Bytes(b) && b.len() == 32
        } else if c == 4 || c == 7 {
            fs.len() == 2 && fs[1] is Bytes
        } else {
            false
        },
        _ => false,
    }
}

/// The rendering of a well-formed claimer request is well formed and
/// recognized as valid.
pub proof fn lemma_claimer_request_fields_ok(q: ClaimerRequest)
    requires
        claimer_request_wf(q),
    ensures
        fields_wf(claimer_request_fields(q)),
        valid_claimer_request_fields(claimer_request_fields(q)),
{
}

/// Law (round trip, requests from the claimer): the byte encoding of any
/// well-formed claimer request decodes back to exactly its field list.
pub proof fn lemma_claimer_request_round_trip(q: ClaimerRequest)
    requires
        claimer_request_wf(q),
    ensures
        dec_fields(enc_fields(claimer_request_fields(q))) == Some(claimer_request_fields(q)),
        valid_claimer_request_fields(claimer_request_fields(q)),
{
    lemma_claimer_request_fields_ok(q);
    lemma_dec_fields_round_trip(claimer_request_fields(q));
}

/// Renders a claimer request for the relay.
pub fn encode_claimer_request(q: &ClaimerRequest) -> (r: Vec<u8>)
    ensures
        r@ == enc_fields(claimer_request_fields(*q)),
{
    let mut fields: Vec<WireField> = Vec::new();
    match q {
        ClaimerRequest::Info(_) => {
            fields.push(WireField::Tag(1));
        },
        ClaimerRequest::WaitPeer(w) => {
            fields.push(WireField::Tag(2));
            fields.push(WireField::Bytes(clone_bytes(w.claimer_public_key.as_bytes())));
        },
        ClaimerRequest::SendHashedNonce(h) => {
            fields.push(WireField::Tag(3));
            fields.push(WireField::Bytes(clone_bytes(h.claimer_hashed_nonce.as_bytes())));
        },
        ClaimerRequest::SendNonce(n) => {
            fields.push(WireField::Tag(4));
            fields.push(WireField::Bytes(clone_bytes(&n.claimer_nonce)));
        },
        ClaimerRequest::SignifyTrust(_) => {
            fields.push(WireField::Tag(5));
        },
        ClaimerRequest::WaitPeerTrust(_) => {
            fields.push(WireField::Tag(6));
        },
        ClaimerRequest::Communicate(c) => {
            fields.push(WireField::Tag(7));
            fields.push(WireField::Bytes(clone_bytes(&c.payload)));
        },
    }
    proof {
        assert(fields@.map_values(|f: WireField| f@) =~= claimer_request_fields(*q));
    }
    encode_fields(&fields)
}

/// Parses a claimer request from relay bytes; any corruption is a failure.
pub fn decode_claimer_request(buf: &Vec<u8>) -> (r: Option<ClaimerRequest>)
    ensures
        match r {
            Some(q) => claimer_request_wf(q) && dec_fields(buf@) == Some(
                claimer_request_fields(q),
            ),
            None => dec_fields(buf@) is None || !valid_claimer_request_fields(
                dec_fields(buf@).unwrap(),
            ),
        },
{
    let fields = match decode_fields(buf) {
        Some(fs) => fs,
        None => {
            return None;
        },
    };
    let ghost fv = fields@.map_values(|f: WireField| f@);
    if fields.len() < 1 {
        return None;
    }
    let cmd = match &fields[0] {
        WireField::Tag(c) => *c,
        _ => {
            return None;
        },
    };
    if cmd == 1 || cmd == 5 || cmd == 6 {
        if fields.len() != 1 {
            return None;
        }
        let q = if cmd == 1 {
            ClaimerRequest::Info(InviteInfoReq)
        } else if cmd == 5 {
            ClaimerRequest::SignifyTrust(Invite3aClaimerSignifyTrustReq)
        } else {
            ClaimerRequest::WaitPeerTrust(Invite3bClaimerWaitPeerTrustReq)
        };
        proof {
            assert(claimer_request_fields(q) =~= fv);
        }
        Some(q)
    } else if cmd == 2 || cmd == 3 {
        if fields.len() != 2 {
            return None;
        }
        let q = match &fields[1] {
            WireField::Bytes(b) => {
                if cmd == 2 {
                    match take_key(b) {
                        Some(k) => ClaimerRequest::WaitPeer(
                            Invite1ClaimerWaitPeerReq { claimer_public_key: k },
                        ),
                        None => {
                            return None;
                        },
                    }
                } else {
                    match take_digest(b) {
                        Some(d) => ClaimerRequest::SendHashedNonce(
                            Invite2aClaimerSendHashedNonceReq { claimer_hashed_nonce: d },
                        ),
                        None => {
                            return None;
                        },
                    }
                }
            },
            _ => {
                return None;
            },
        };
        proof {
            assert(claimer_request_fields(q) =~= fv);
        }
        Some(q)
    } else if cmd == 4 || cmd == 7 {
        if fields.len() != 2 {
            return None;
        }
        let q = match &fields[1] {
            WireField::Bytes(b) => if cmd == 4 {
                ClaimerRequest::SendNonce(
                    Invite2bClaimerSendNonceReq { claimer_nonce: clone_bytes(b) },
                )
            } else {
                ClaimerRequest::Communicate(
                    Invite4ClaimerCommunicateReq { payload: clone_bytes(b) },
                )
            },
            _ => {
                return None;
            },
        };
        proof {
            assert(claimer_request_fields(q) =~= fv);
        }
        Some(q)
    } else {
        None
    }
}

/// The wire tag of a lifecycle status.
pub open spec fn status_tag(s: InvitationStatus) -> u8 {
    match s {
        InvitationStatus::Idle => 1u8,
        InvitationStatus::Ready => 2u8,
        InvitationStatus::Deleted => 3u8,
    }
}

fn status_to_tag(s: InvitationStatus) -> (t: u8)
    ensures
        t == status_tag(s),
{
    match s {
        InvitationStatus::Idle => 1,
        InvitationStatus::Ready => 2,
        InvitationStatus::Deleted => 3,
    }
}

fn status_from_tag(t: u8) -> (r: Option<InvitationStatus>)
    ensures
        match r {
            Some(s) => status_tag(s) == t,
            None => t != 1 && t != 2 && t != 3,
        },
{
    if t == 1 {
        Some(InvitationStatus::Idle)
    } else if t == 2 {
        Some(InvitationStatus::Ready)
    } else if t == 3 {
        Some(InvitationStatus::Deleted)
    } else {
        None
    }
}

/// The wire tag of an email report.
pub open spec fn email_sent_tag(s: InvitationEmailSentStatus) -> u8 {
    match s {
        InvitationEmailSentStatus::Success => 1u8,
        InvitationEmailSentStatus::NotAvailable => 2u8,
        InvitationEmailSentStatus::BadRecipient => 3u8,
    }
}

fn email_sent_to_tag(s: InvitationEmailSentStatus) -> (t: u8)
    ensures
        t == email_sent_tag(s),
{
    match s {
        InvitationEmailSentStatus::Success => 1,
        InvitationEmailSentStatus::NotAvailable => 2,
        InvitationEmailSentStatus::BadRecipient => 3,
    }
}

fn email_sent_from_tag(t: u8) -> (r: Option<InvitationEmailSentStatus>)
    ensures
        match r {
            Some(s) => email_sent_tag(s) == t,
            None => t != 1 && t != 2 && t != 3,
        },
{
    if t == 1 {
        Some(InvitationEmailSentStatus::Success)
    } else if t == 2 {
        Some(InvitationEmailSentStatus::NotAvailable)
    } else if t == 3 {
        Some(InvitationEmailSentStatus::BadRecipient)
    } else {
        None
    }
}

/// The field rendering of one listing entry.
pub open spec fn item_fields(it: InviteListItem) -> Seq<WireFieldView> {
    match it {
        InviteListItem::User { token, created_on, claimer_email, status } => seq![
            WireFieldView::Tag(1u8),
            WireFieldView::Bytes(token@),
            WireFieldView::Number(created_on),
            WireFieldView::Text(claimer_email@),
            WireFieldView::Tag(status_tag(status)),
        ],
        InviteListItem::Device { token, created_on, status } => seq![
            WireFieldView::Tag(2u8),
            WireFieldView::Bytes(token@),
            WireFieldView::Number(created_on),
            WireFieldView::Tag(status_tag(status)),
        ],
    }
}

pub open spec fn item_wf(it: InviteListItem) -> bool {
    match it {
        InviteListItem::User { token, claimer_email, .. } => token.wf() && vstd::utf8::encode_utf8(
            claimer_email@,
        ).len() <= u64::MAX,
        InviteListItem::Device { token, .. } => token.wf(),
    }
}

pub open spec fn items_wf(items: Seq<InviteListItem>) -> bool {
    forall|i: int| 0 <= i < items.len() ==> item_wf(#[trigger] items[i])
}

/// The field rendering of a whole listing, entry after entry.
pub open spec fn items_fields(items: Seq<InviteListItem>) -> Seq<WireFieldView>
    decreases items.len(),
{
    if items.len() == 0 {
        Seq::empty()
    } else {
        item_fields(items[0]) + items_fields(items.drop_first())
    }
}

proof fn lemma_items_fields_snoc(items: Seq<InviteListItem>, it: InviteListItem)
    ensures
        items_fields(items.push(it)) == items_fields(items) + item_fields(it),
    decreases items.len(),
{
    if items.len() == 0 {
        assert(items.push(it).len() == 1);
        assert(items.push(it)[0] == it);
        assert(items.push(it).drop_first() =~= Seq::<InviteListItem>::empty());
        assert(items_fields(items.push(it)) == item_fields(it) + items_fields(
            Seq::<InviteListItem>::empty(),
        ));
        assert(item_fields(it) + Seq::<WireFieldView>::empty() =~= item_fields(it));
        assert(items_fields(items) + item_fields(it) =~= item_fields(it));
    } else {
        assert(items.push(it)[0] == items[0]);
        assert(items.push(it).drop_first() =~= items.drop_first().push(it));
        lemma_items_fields_snoc(items.drop_first(), it);
        assert(items_fields(items.push(it)) =~= items_fields(items) + item_fields(it));
    }
}

/// Which field lists render exactly `n` listing entries.
pub open spec fn valid_items_fields(fs: Seq<WireFieldView>, n: int) -> bool
    decreases n,
{
    if n <= 0 {
        fs.len() == 0 && n == 0
    } else {
        &&& fs.len() >= 1
        &&& match fs[0] {
            WireFieldView::Tag(k) => if k == 1 {
                &&& fs.len() >= 5
                &&& fs[1] matches WireFieldView::Bytes(b) && b.len() == 16
                &&& fs[2] is Number
                &&& fs[3] is Text
                &&& fs[4] matches WireFieldView::Tag(st) && (st == 1 || st == 2 || st == 3)
                &&& valid_items_fields(fs.skip(5), n - 1)
            } else if k == 2 {
                &&& fs.len() >= 4
                &&& fs[1] matches WireFieldView::Bytes(b) && b.len() == 16
                &&& fs[2] is Number
                &&& fs[3] matches WireFieldView::Tag(st) && (st == 1 || st == 2 || st == 3)
                &&& valid_items_fields(fs.skip(4), n - 1)
            } else {
                false
            },
            _ => false,
        }
    }
}

proof fn lemma_items_fields_ok(items: Seq<InviteListItem>)
    requires
        items_wf(items),
    ensures
        fields_wf(items_fields(items)),
        valid_items_fields(items_fields(items), items.len() as int),
    decreases items.len(),
{
    if items.len() != 0 {
        assert(item_wf(items[0]));
        assert(items_wf(items.drop_first())) by {
            assert(forall|i: int|
                0 <= i < items.drop_first().len() ==> #[trigger] items.drop_first()[i] == items[i
                    + 1]);
        }
        lemma_items_fields_ok(items.drop_first());
        let fs = items_fields(items);
        let head = item_fields(items[0]);
        let tail = items_fields(items.drop_first());
        match items[0] {
            InviteListItem::User { .. } => {
                assert(fs.skip(5) =~= tail);
            },
            InviteListItem::Device { .. } => {
                assert(fs.skip(4) =~= tail);
            },
        }
        assert forall|i: int| 0 <= i < fs.len() implies field_wf(#[trigger] fs[i]) by {
            if i < head.len() {
                assert(fs[i] == head[i]);
            } else {
                assert(fs[i] == tail[i - head.len()]);
            }
        }
    }
}

/// Every token, key, digest and text inside a greeter reply is renderable.
pub open spec fn greeter_reply_wf(r: GreeterReply) -> bool {
    match r {
        GreeterReply::New(InviteNewRep::Success { token, .. }) => token.wf(),
        GreeterReply::New(_) => true,
        GreeterReply::Delete(_) => true,
        GreeterReply::List(InviteListRep::Success { invitations }) => invitations@.len()
            <= u64::MAX && items_wf(invitations@),
        GreeterReply::WaitPeer(Invite1GreeterWaitPeerRep::Success { claimer_public_key }) =>
            claimer_public_key.wf(),
        GreeterReply::WaitPeer(_) => true,
        GreeterReply::GetHashedNonce(
            Invite2aGreeterGetHashedNonceRep::Success { claimer_hashed_nonce },
        ) => claimer_hashed_nonce.wf(),
        GreeterReply::GetHashedNonce(_) => true,
        GreeterReply::SendNonce(Invite2bGreeterSendNonceRep::Success { claimer_nonce }) =>
            claimer_nonce@.len() <= u64::MAX,
        GreeterReply::SendNonce(_) => true,
        GreeterReply::WaitPeerTrust(_) => true,
        GreeterReply::SignifyTrust(_) => true,
        GreeterReply::Communicate(Invite4GreeterCommunicateRep::Success { payload }) => payload@.len()
            <= u64::MAX,
        GreeterReply::Communicate(_) => true,
    }
}

/// The field rendering of a greeter reply: a command tag, an outcome tag,
/// then the outcome's fields.
pub open spec fn greeter_reply_fields(r: GreeterReply) -> Seq<WireFieldView> {
    match r {
        GreeterReply::New(rep) => match rep {
            InviteNewRep::Success { token, email_sent } => seq![
                WireFieldView::Tag(1u8),
                WireFieldView::Tag(0u8),
                WireFieldView::Bytes(token@),
                WireFieldView::Tag(email_sent_tag(email_sent)),
            ],
            InviteNewRep::NotAllowed => seq![WireFieldView::Tag(1u8), WireFieldView::Tag(4u8)],
            InviteNewRep::AlreadyMember => seq![WireFieldView::Tag(1u8), WireFieldView::Tag(5u8)],
            InviteNewRep::NotAvailable => seq![WireFieldView::Tag(1u8), WireFieldView::Tag(6u8)],
        },
        GreeterReply::Delete(rep) => match rep {
            InviteDeleteRep::Success => seq![WireFieldView::Tag(2u8), WireFieldView::Tag(0u8)],
            InviteDeleteRep::AlreadyDeleted => seq![
                WireFieldView::Tag(2u8),
                WireFieldView::Tag(2u8),
            ],
            InviteDeleteRep::NotFound => seq![WireFieldView::Tag(2u8), WireFieldView::Tag(1u8)],
        },
        GreeterReply::List(InviteListRep::Success { invitations }) => seq![
            WireFieldView::Tag(3u8),
            WireFieldView::Tag(0u8),
            WireFieldView::Number(invitations@.len() as u64),
        ] + items_fields(invitations@),
        GreeterReply::WaitPeer(rep) => match rep {
            Invite1GreeterWaitPeerRep::Success { claimer_public_key } => seq![
                WireFieldView::Tag(4u8),
                WireFieldView::Tag(0u8),
                WireFieldView::Bytes(claimer_public_key@),
            ],
            Invite1GreeterWaitPeerRep::NotFound => seq![
                WireFieldView::Tag(4u8),
                WireFieldView::Tag(1u8),
            ],
            Invite1GreeterWaitPeerRep::AlreadyDeleted => seq![
                WireFieldView::Tag(4u8),
                WireFieldView::Tag(2u8),
            ],
            Invite1GreeterWaitPeerRep::InvalidState => seq![
                WireFieldView::Tag(4u8),
                WireFieldView::Tag(3u8),
            ],
        },
        GreeterReply::GetHashedNonce(rep) => match rep {
            Invite2aGreeterGetHashedNonceRep::Success { claimer_hashed_nonce } => seq![
                WireFieldView::Tag(5u8),
                WireFieldView::Tag(0u8),
                WireFieldView::Bytes(claimer_hashed_nonce@),
            ],
            Invite2aGreeterGetHashedNonceRep::NotFound => seq![
                WireFieldView::Tag(5u8),
                WireFieldView::Tag(1u8),
            ],
            Invite2aGreeterGetHashedNonceRep::AlreadyDeleted => seq![
                WireFieldView::Tag(5u8),
                WireFieldView::Tag(2u8),
            ],
            Invite2aGreeterGetHashedNonceRep::InvalidState => seq![
                WireFieldView::Tag(5u8),
                WireFieldView::Tag(3u8),
            ],
        },
        GreeterReply::SendNonce(rep) => match rep {
            Invite2bGreeterSendNonceRep::Success { claimer_nonce } => seq![
                WireFieldView::Tag(6u8),
                WireFieldView::Tag(0u8),
                WireFieldView::Bytes(claimer_nonce@),
            ],
            Invite2bGreeterSendNonceRep::NotFound => seq![
                WireFieldView::Tag(6u8),
                WireFieldView::Tag(1u8),
            ],
            Invite2bGreeterSendNonceRep::AlreadyDeleted => seq![
                WireFieldView::Tag(6u8),
                WireFieldView::Tag(2u8),
            ],
            Invite2bGreeterSendNonceRep::InvalidState => seq![
                WireFieldView::Tag(6u8),
                WireFieldView::Tag(3u8),
            ],
        },
        GreeterReply::WaitPeerTrust(rep) => match rep {
            Invite3aGreeterWaitPeerTrustRep::Success => seq![
                WireFieldView::Tag(7u8),
                WireFieldView::Tag(0u8),
            ],
            Invite3aGreeterWaitPeerTrustRep::NotFound => seq![
                WireFieldView::Tag(7u8),
                WireFieldView::Tag(1u8),
            ],
            Invite3aGreeterWaitPeerTrustRep::AlreadyDeleted => seq![
                WireFieldView::Tag(7u8),
                WireFieldView::Tag(2u8),
            ],
            Invite3aGreeterWaitPeerTrustRep::InvalidState => seq![
                WireFieldView::Tag(7u8),
                WireFieldView::Tag(3u8),
            ],
        },
        GreeterReply::SignifyTrust(rep) => match rep {
            Invite3bGreeterSignifyTrustRep::Success => seq![
                WireFieldView::Tag(8u8),
                WireFieldView::Tag(0u8),
            ],
            Invite3bGreeterSignifyTrustRep::NotFound => seq![
                WireFieldView::Tag(8u8),
                WireFieldView::Tag(1u8),
            ],
            Invite3bGreeterSignifyTrustRep::AlreadyDeleted => seq![
                WireFieldView::Tag(8u8),
                WireFieldView::Tag(2u8),
            ],
            Invite3bGreeterSignifyTrustRep::InvalidState => seq![
                WireFieldView::Tag(8u8),
                WireFieldView::Tag(3u8),
            ],
        },
        GreeterReply::Communicate(rep) => match rep {
            Invite4GreeterCommunicateRep::Success { payload } => seq![
                WireFieldView::Tag(9u8),
                WireFieldView::Tag(0u8),
                WireFieldView::Bytes(payload@),
            ],
            Invite4GreeterCommunicateRep::NotFound => seq![
                WireFieldView::Tag(9u8),
                WireFieldView::Tag(1u8),
            ],
            Invite4GreeterCommunicateRep::AlreadyDeleted => seq![
                WireFieldView::Tag(9u8),
                WireFieldView::Tag(2u8),
            ],
            Invite4GreeterCommunicateRep::InvalidState => seq![
                WireFieldView::Tag(9u8),
                WireFieldView::Tag(3u8),
            ],
        },
    }
}

/// Which field lists are the rendering of some well-formed greeter reply.
pub open spec fn valid_greeter_reply_fields(fs: Seq<WireFieldView>) -> bool {
    &&& fs.len() >= 2
    &&& match (fs[0], fs[1]) {
        (WireFieldView::Tag(c), WireFieldView::Tag(o)) => if c == 1 {
            ||| (o == 0 && fs.len() == 4 && (fs[2] matches WireFieldView::Bytes(b) && b.len()
                == 16) && (fs[3] matches WireFieldView::Tag(es) && (es == 1 || es == 2 || es
                == 3)))
            ||| ((o == 4 || o == 5 || o == 6) && fs.len() == 2)
        } else if c == 2 {
            (o == 0 || o == 1 || o == 2) && fs.len() == 2
        } else if c == 3 {
            &&& o == 0
            &&& fs.len() >= 3
            &&& fs[2] matches WireFieldView::Number(n) && valid_items_fields(fs.skip(3), n as int)
        } else if c == 4 || c == 5 {
            ||| (o == 0 && fs.len() == 3 && (fs[2] matches WireFieldView::Bytes(b) && b.len()
                == 32))
            ||| ((o == 1 || o == 2 || o == 3) && fs.len() == 2)
        } else if c == 6 || c == 9 {
            ||| (o == 0 && fs.len() == 3 && fs[2] is Bytes)
            ||| ((o == 1 || o == 2 || o == 3) && fs.len() == 2)
        } else if c == 7 || c == 8 {
            (o == 0 || o == 1 || o == 2 || o == 3) && fs.len() == 2
        } else {
            false
        },
        _ => false,
    }
}

/// The rendering of a well-formed greeter reply is well formed and
/// recognized as valid.
pub proof fn lemma_greeter_reply_fields_ok(r: GreeterReply)
    requires
        greeter_reply_wf(r),
    ensures
        fields_wf(greeter_reply_fields(r)),
        valid_greeter_reply_fields(greeter_reply_fields(r)),
{
    match r {
        GreeterReply::List(InviteListRep::Success { invitations }) => {
            lemma_items_fields_ok(invitations@);
            let fs = greeter_reply_fields(r);
            let tail = items_fields(invitations@);
            assert(fs.skip(3) =~= tail);
            assert forall|i: int| 0 <= i < fs.len() implies field_wf(#[trigger] fs[i]) by {
                if i >= 3 {
                    assert(fs[i] == tail[i - 3]);
                }
            }
        },
        _ => {},
    }
}

/// Law (round trip, replies to the greeter): the byte encoding of any
/// well-formed greeter reply decodes back to exactly its field list.
pub proof fn lemma_greeter_reply_round_trip(r: GreeterReply)
    requires
        greeter_reply_wf(r),
    ensures
        dec_fields(enc_fields(greeter_reply_fields(r))) == Some(greeter_reply_fields(r)),
        valid_greeter_reply_fields(greeter_reply_fields(r)),
{
    lemma_greeter_reply_fields_ok(r);
    lemma_dec_fields_round_trip(greeter_reply_fields(r));
}

/// Renders a greeter reply for the relay.
pub fn encode_greeter_reply(r: &GreeterReply) -> (out: Vec<u8>)
    ensures
        out@ == enc_fields(greeter_reply_fields(*r)),
{
    let mut fields: Vec<WireField> = Vec::new();
    match r {
        GreeterReply::New(rep) => match rep {
            InviteNewRep::Success { token, email_sent } => {
                fields.push(WireField::Tag(1));
                fields.push(WireField::Tag(0));
                fields.push(WireField::Bytes(clone_bytes(token.as_bytes())));
                fields.push(WireField::Tag(email_sent_to_tag(*email_sent)));
            },
            InviteNewRep::NotAllowed => {
                fields.push(WireField::Tag(1));
                fields.push(WireField::Tag(4));
            },
            InviteNewRep::AlreadyMember => {
                fields.push(WireField::Tag(1));
                fields.push(WireField::Tag(5));
            },
            InviteNewRep::NotAvailable => {
                fields.push(WireField::Tag(1));
                fields.push(WireField::Tag(6));
            },
        },
        GreeterReply::Delete(rep) => {
            fields.push(WireField::Tag(2));
            match rep {
                InviteDeleteRep::Success => fields.push(WireField::Tag(0)),
                InviteDeleteRep::AlreadyDeleted => fields.push(WireField::Tag(2)),
                InviteDeleteRep::NotFound => fields.push(WireField::Tag(1)),
            }
        },
        GreeterReply::List(InviteListRep::Success { invitations }) => {
            fields.push(WireField::Tag(3));
            fields.push(WireField::Tag(0));
            fields.push(WireField::Number(invitations.len() as u64));
            let ghost header = fields@.map_values(|f: WireField| f@);
            let mut i: usize = 0;
            while i < invitations.len()
                invariant
                    0 <= i <= invitations@.len(),
                    header == seq![
                        WireFieldView::Tag(3u8),
                        WireFieldView::Tag(0u8),
                        WireFieldView::Number(invitations@.len() as u64),
                    ],
                    fields@.map_values(|f: WireField| f@) == header + items_fields(
                        invitations@.take(i as int),
                    ),
                decreases invitations@.len() - i,
            {
                proof {
                    assert(invitations@.take(i + 1) =~= invitations@.take(i as int).push(
                        invitations@[i as int],
                    ));
                    lemma_items_fields_snoc(invitations@.take(i as int), invitations@[i as int]);
                }
                let ghost before = fields@.map_values(|f: WireField| f@);
                match &invitations[i] {
                    InviteListItem::User { token, created_on, claimer_email, status } => {
                        fields.push(WireField::Tag(1));
                        fields.push(WireField::Bytes(clone_bytes(token.as_bytes())));
                        fields.push(WireField::Number(*created_on));
                        fields.push(WireField::Text(claimer_email.clone()));
                        fields.push(WireField::Tag(status_to_tag(*status)));
                    },
                    InviteListItem::Device { token, created_on, status } => {
                        fields.push(WireField::Tag(2));
                        fields.push(WireField::Bytes(clone_bytes(token.as_bytes())));
                        fields.push(WireField::Number(*created_on));
                        fields.push(WireField::Tag(status_to_tag(*status)));
                    },
                }
                proof {
                    assert(fields@.map_values(|f: WireField| f@) =~= before + item_fields(
                        invitations@[i as int],
                    ));
                    assert(before + item_fields(invitations@[i as int]) =~= header + items_fields(
                        invitations@.take(i + 1),
                    ));
                }
                i = i + 1;
            }
            proof {
                assert(invitations@.take(invitations@.len() as int) =~= invitations@);
            }
        },
        GreeterReply::WaitPeer(rep) => {
            fields.push(WireField::Tag(4));
            match rep {
                Invite1GreeterWaitPeerRep::Success { claimer_public_key } => {
                    fields.push(WireField::Tag(0));
                    fields.push(WireField::Bytes(clone_bytes(claimer_public_key.as_bytes())));
                },
                Invite1GreeterWaitPeerRep::NotFound => fields.push(WireField::Tag(1)),
                Invite1GreeterWaitPeerRep::AlreadyDeleted => fields.push(WireField::Tag(2)),
                Invite1GreeterWaitPeerRep::InvalidState => fields.push(WireField::Tag(3)),
            }
        },
        GreeterReply::GetHashedNonce(rep) => {
            fields.push(WireField::Tag(5));
            match rep {
                Invite2aGreeterGetHashedNonceRep::Success { claimer_hashed_nonce } => {
                    fields.push(WireField::Tag(0));
                    fields.push(WireField::Bytes(clone_bytes(claimer_hashed_nonce.as_bytes())));
                },
                Invite2aGreeterGetHashedNonceRep::NotFound => fields.push(WireField::Tag(1)),
                Invite2aGreeterGetHashedNonceRep::AlreadyDeleted => fields.push(WireField::Tag(2)),
                Invite2aGreeterGetHashedNonceRep::InvalidState => fields.push(WireField::Tag(3)),
            }
        },
        GreeterReply::SendNonce(rep) => {
            fields.push(WireField::Tag(6));
            match rep {
                Invite2bGreeterSendNonceRep::Success { claimer_nonce } => {
                    fields.push(WireField::Tag(0));
                    fields.push(WireField::Bytes(clone_bytes(claimer_nonce)));
                },
                Invite2bGreeterSendNonceRep::NotFound => fields.push(WireField::Tag(1)),
                Invite2bGreeterSendNonceRep::AlreadyDeleted => fields.push(WireField::Tag(2)),
                Invite2bGreeterSendNonceRep::InvalidState => fields.push(WireField::Tag(3)),
            }
        },
        GreeterReply::WaitPeerTrust(rep) => {
            fields.push(WireField::Tag(7));
            match rep {
                Invite3aGreeterWaitPeerTrustRep::Success => fields.push(WireField::Tag(0)),
                Invite3aGreeterWaitPeerTrustRep::NotFound => fields.push(WireField::Tag(1)),
                Invite3aGreeterWaitPeerTrustRep::AlreadyDeleted => fields.push(WireField::Tag(2)),
                Invite3aGreeterWaitPeerTrustRep::InvalidState => fields.push(WireField::Tag(3)),
            }
        },
        GreeterReply::SignifyTrust(rep) => {
            fields.push(WireField::Tag(8));
            match rep {
                Invite3bGreeterSignifyTrustRep::Success => fields.push(WireField::Tag(0)),
                Invite3bGreeterSignifyTrustRep::NotFound => fields.push(WireField::Tag(1)),
                Invite3bGreeterSignifyTrustRep::AlreadyDeleted => fields.push(WireField::Tag(2)),
                Invite3bGreeterSignifyTrustRep::InvalidState => fields.push(WireField::Tag(3)),
            }
        },
        GreeterReply::Communicate(rep) => {
            fields.push(WireField::Tag(9));
            match rep {
                Invite4GreeterCommunicateRep::Success { payload } => {
                    fields.push(WireField::Tag(0));
                    fields.push(WireField::Bytes(clone_bytes(payload)));
                },
                Invite4GreeterCommunicateRep::NotFound => fields.push(WireField::Tag(1)),
                Invite4GreeterCommunicateRep::AlreadyDeleted => fields.push(WireField::Tag(2)),
                Invite4GreeterCommunicateRep::InvalidState => fields.push(WireField::Tag(3)),
            }
        },
    }
    proof {
        assert(fields@.map_values(|f: WireField| f@) =~= greeter_reply_fields(*r));
    }
    encode_fields(&fields)
}

/// Parses a greeter reply from relay bytes; any corruption is a failure.
pub fn decode_greeter_reply(buf: &Vec<u8>) -> (r: Option<GreeterReply>)
    ensures
        match r {
            Some(rep) => greeter_reply_wf(rep) && dec_fields(buf@) == Some(
                greeter_reply_fields(rep),
            ),
            None => dec_fields(buf@) is None || !valid_greeter_reply_fields(
                dec_fields(buf@).unwrap(),
            ),
        },
{
    let fields = match decode_fields(buf) {
        Some(fs) => fs,
        None => {
            return None;
        },
    };
    let ghost fv = fields@.map_values(|f: WireField| f@);
    if fields.len() < 2 {
        return None;
    }
    let cmd = match &fields[0] {
        WireField::Tag(c) => *c,
        _ => {
            return None;
        },
    };
    let outcome = match &fields[1] {
        WireField::Tag(o) => *o,
        _ => {
            return None;
        },
    };
    if cmd == 1 {
        if outcome == 0 {
            if fields.len() != 4 {
                return None;
            }
            let rep = match (&fields[2], &fields[3]) {
                (WireField::Bytes(tb), WireField::Tag(es)) => {
                    let token = match take_token(tb) {
                        Some(t) => t,
                        None => {
                            return None;
                        },
                    };
                    let email_sent = match email_sent_from_tag(*es) {
                        Some(s) => s,
                        None => {
                            return None;
                        },
                    };
                    GreeterReply::New(InviteNewRep::Success { token, email_sent })
                },
                _ => {
                    return None;
                },
            };
            proof {
                assert(greeter_reply_fields(rep) =~= fv);
            }
            Some(rep)
        } else if outcome == 4 || outcome == 5 || outcome == 6 {
            if fields.len() != 2 {
                return None;
            }
            let rep = if outcome == 4 {
                GreeterReply::New(InviteNewRep::NotAllowed)
            } else if outcome == 5 {
                GreeterReply::New(InviteNewRep::AlreadyMember)
            } else {
                GreeterReply::New(InviteNewRep::NotAvailable)
            };
            proof {
                assert(greeter_reply_fields(rep) =~= fv);
            }
            Some(rep)
        } else {
            None
        }
    } else if cmd == 2 {
        if fields.len() != 2 {
            return None;
        }
        let rep = if outcome == 0 {
            GreeterReply::Delete(InviteDeleteRep::Success)
        } else if outcome == 1 {
            GreeterReply::Delete(InviteDeleteRep::NotFound)
        } else if outcome == 2 {
            GreeterReply::Delete(InviteDeleteRep::AlreadyDeleted)
        } else {
            return None;
        };
        proof {
            assert(greeter_reply_fields(rep) =~= fv);
        }
        Some(rep)
    } else if cmd == 3 {
        if outcome != 0 {
            return None;
        }
        if fields.len() < 3 {
            return None;
        }
        let count = match &fields[2] {
            WireField::Number(n) => *n,
            _ => {
                return None;
            },
        };
        let mut items: Vec<InviteListItem> = Vec::new();
        let mut pos: usize = 3;
        let mut k: u64 = 0;
        proof {
            assert(items_fields(items@) =~= fv.subrange(3, 3));
        }
        while k < count
            invariant
                3 <= pos <= fields@.len(),
                0 <= k <= count,
                fv == fields@.map_values(|f: WireField| f@),
                fv.len() == fields@.len(),
                fv.len() >= 3,
                fv[0] == WireFieldView::Tag(3u8),
                fv[1] == WireFieldView::Tag(0u8),
                fv[2] == WireFieldView::Number(count),
                dec_fields(buf@) == Some(fv),
                items@.len() == k,
                items_wf(items@),
                items_fields(items@) == fv.subrange(3, pos as int),
                valid_items_fields(fv.skip(3), count as int) == valid_items_fields(
                    fv.skip(pos as int),
                    count - k,
                ),
            decreases count - k,
        {
            let ghost rem = fv.skip(pos as int);
            proof {
                assert(forall|j: int| 0 <= j < rem.len() ==> rem[j] == fv[pos + j]);
            }
            if pos >= fields.len() {
                proof {
                    assert(!valid_items_fields(rem, count - k));
                }
                return None;
            }
            let kind = match &fields[pos] {
                WireField::Tag(t) => *t,
                _ => {
                    proof {
                        assert(!valid_items_fields(rem, count - k));
                    }
                    return None;
                },
            };
            if kind == 1 {
                if fields.len() - pos < 5 {
                    proof {
                        assert(!valid_items_fields(rem, count - k));
                    }
                    return None;
                }
                match (&fields[pos + 1], &fields[pos + 2], &fields[pos + 3], &fields[pos + 4]) {
                    (
                        WireField::Bytes(tb),
                        WireField::Number(co),
                        WireField::Text(em),
                        WireField::Tag(st),
                    ) => {
                        let token = match take_token(tb) {
                            Some(t) => t,
                            None => {
                                proof {
                                    assert(!valid_items_fields(rem, count - k));
                                }
                                return None;
                            },
                        };
                        let status = match status_from_tag(*st) {
                            Some(s) => s,
                            None => {
                                proof {
                                    assert(!valid_items_fields(rem, count - k));
                                }
                                return None;
                            },
                        };
                        let email = em.clone();
                        let nbytes = email.as_str().as_bytes().len();
                        proof {
                            assert(nbytes as nat == vstd::utf8::encode_utf8(email@).len());
                        }
                        let it = InviteListItem::User {
                            token,
                            created_on: *co,
                            claimer_email: email,
                            status,
                        };
                        proof {
                            lemma_items_fields_snoc(items@, it);
                            assert(item_fields(it) =~= fv.subrange(pos as int, pos + 5));
                            assert(items_fields(items@.push(it)) =~= fv.subrange(3, pos + 5));
                            assert(rem.skip(5) =~= fv.skip(pos + 5));
                            assert(valid_items_fields(rem, count - k) == valid_items_fields(
                                fv.skip(pos + 5),
                                count - k - 1,
                            ));
                        }
                        items.push(it);
                        pos = pos + 5;
                    },
                    _ => {
                        proof {
                            assert(!valid_items_fields(rem, count - k));
                        }
                        return None;
                    },
                }
            } else if kind == 2 {
                if fields.len() - pos < 4 {
                    proof {
                        assert(!valid_items_fields(rem, count - k));
                    }
                    return None;
                }
                match (&fields[pos + 1], &fields[pos + 2], &fields[pos + 3]) {
                    (WireField::Bytes(tb), WireField::Number(co), WireField::Tag(st)) => {
                        let token = match take_token(tb) {
                            Some(t) => t,
                            None => {
                                proof {
                                    assert(!valid_items_fields(rem, count - k));
                                }
                                return None;
                            },
                        };
                        let status = match status_from_tag(*st) {
                            Some(s) => s,
                            None => {
                                proof {
                                    assert(!valid_items_fields(rem, count - k));
                                }
                                return None;
                            },
                        };
                        let it = InviteListItem::Device { token, created_on: *co, status };
                        proof {
                            lemma_items_fields_snoc(items@, it);
                            assert(item_fields(it) =~= fv.subrange(pos as int, pos + 4));
                            assert(items_fields(items@.push(it)) =~= fv.subrange(3, pos + 4));
                            assert(rem.skip(4) =~= fv.skip(pos + 4));
                            assert(valid_items_fields(rem, count - k) == valid_items_fields(
                                fv.skip(pos + 4),
                                count - k - 1,
                            ));
                        }
                        items.push(it);
                        pos = pos + 4;
                    },
                    _ => {
                        proof {
                            assert(!valid_items_fields(rem, count - k));
                        }
                        return None;
                    },
                }
            } else {
                proof {
                    assert(!valid_items_fields(rem, count - k));
                }
                return None;
            }
            k = k + 1;
        }
        if pos != fields.len() {
            proof {
                assert(fv.skip(pos as int).len() > 0);
                assert(!valid_items_fields(fv.skip(pos as int), 0));
            }
            return None;
        }
        let rep = GreeterReply::List(InviteListRep::Success { invitations: items });
        proof {
            assert(items_fields(items@) =~= fv.skip(3));
            assert(greeter_reply_fields(rep) =~= fv);
        }
        Some(rep)
    } else if cmd == 4 || cmd == 5 || cmd == 6 || cmd == 9 {
        if outcome == 0 {
            if fields.len() != 3 {
                return None;
            }
            let rep = match &fields[2] {
                WireField::Bytes(b) => {
                    if cmd == 4 {
                        match take_key(b) {
                            Some(key) => GreeterReply::WaitPeer(
                                Invite1GreeterWaitPeerRep::Success { claimer_public_key: key },
                            ),
                            None => {
                                return None;
                            },
                        }
                    } else if cmd == 5 {
                        match take_digest(b) {
                            Some(d) => GreeterReply::GetHashedNonce(
                                Invite2aGreeterGetHashedNonceRep::Success {
                                    claimer_hashed_nonce: d,
                                },
                            ),
                            None => {
                                return None;
                            },
                        }
                    } else if cmd == 6 {
                        GreeterReply::SendNonce(
                            Invite2bGreeterSendNonceRep::Success {
                                claimer_nonce: clone_bytes(b),
                            },
                        )
                    } else {
                        GreeterReply::Communicate(
                            Invite4GreeterCommunicateRep::Success { payload: clone_bytes(b) },
                        )
                    }
                },
                _ => {
                    return None;
                },
            };
            proof {
                assert(greeter_reply_fields(rep) =~= fv);
            }
            Some(rep)
        } else if outcome == 1 || outcome == 2 || outcome == 3 {
            if fields.len() != 2 {
                return None;
            }
            let rep = if cmd == 4 {
                if outcome == 1 {
                    GreeterReply::WaitPeer(Invite1GreeterWaitPeerRep::NotFound)
                } else if outcome == 2 {
                    GreeterReply::WaitPeer(Invite1GreeterWaitPeerRep::AlreadyDeleted)
                } else {
                    GreeterReply::WaitPeer(Invite1GreeterWaitPeerRep::InvalidState)
                }
            } else if cmd == 5 {
                if outcome == 1 {
                    GreeterReply::GetHashedNonce(Invite2aGreeterGetHashedNonceRep::NotFound)
                } else if outcome == 2 {
                    GreeterReply::GetHashedNonce(Invite2aGreeterGetHashedNonceRep::AlreadyDeleted)
                } else {
                    GreeterReply::GetHashedNonce(Invite2aGreeterGetHashedNonceRep::InvalidState)
                }
            } else if cmd == 6 {
                if outcome == 1 {
                    GreeterReply::SendNonce(Invite2bGreeterSendNonceRep::NotFound)
                } else if outcome == 2 {
                    GreeterReply::SendNonce(Invite2bGreeterSendNonceRep::AlreadyDeleted)
                } else {
                    GreeterReply::SendNonce(Invite2bGreeterSendNonceRep::InvalidState)
                }
            } else {
                if outcome == 1 {
                    GreeterReply::Communicate(Invite4GreeterCommunicateRep::NotFound)
                } else if outcome == 2 {
                    GreeterReply::Communicate(Invite4GreeterCommunicateRep::AlreadyDeleted)
                } else {
                    GreeterReply::Communicate(Invite4GreeterCommunicateRep::InvalidState)
                }
            };
            proof {
                assert(greeter_reply_fields(rep) =~= fv);
            }
            Some(rep)
        } else {
            None
        }
    } else if cmd == 7 || cmd == 8 {
        if fields.len() != 2 {
            return None;
        }
        if outcome > 3 {
            return None;
        }
        let rep = if cmd == 7 {
            if outcome == 0 {
                GreeterReply::WaitPeerTrust(Invite3aGreeterWaitPeerTrustRep::Success)
            } else if outcome == 1 {
                GreeterReply::WaitPeerTrust(Invite3aGreeterWaitPeerTrustRep::NotFound)
            } else if outcome == 2 {
                GreeterReply::WaitPeerTrust(Invite3aGreeterWaitPeerTrustRep::AlreadyDeleted)
            } else {
                GreeterReply::WaitPeerTrust(Invite3aGreeterWaitPeerTrustRep::InvalidState)
            }
        } else {
            if outcome == 0 {
                GreeterReply::SignifyTrust(Invite3bGreeterSignifyTrustRep::Success)
            } else if outcome == 1 {
                GreeterReply::SignifyTrust(Invite3bGreeterSignifyTrustRep::NotFound)
            } else if outcome == 2 {
                GreeterReply::SignifyTrust(Invite3bGreeterSignifyTrustRep::AlreadyDeleted)
            } else {
                GreeterReply::SignifyTrust(Invite3bGreeterSignifyTrustRep::InvalidState)
            }
        };
        proof {
            assert(greeter_reply_fields(rep) =~= fv);
        }
        Some(rep)
    } else {
        None
    }
}

/// The field rendering of an optional human handle attached to an info
/// summary: a presence tag, then the email and label.
pub open spec fn handle_fields(h: Option<HumanHandle>) -> Seq<WireFieldView> {
    match h {
        None => seq![WireFieldView::Tag(0u8)],
        Some(hh) => seq![
            WireFieldView::Tag(1u8),
            WireFieldView::Text(hh.email_text()),
            WireFieldView::Text(hh.label_text()),
        ],
    }
}

pub open spec fn valid_handle_fields(fs: Seq<WireFieldView>) -> bool {
    ||| (fs.len() == 1 && fs[0] == WireFieldView::Tag(0u8))
    ||| (fs.len() == 3 && fs[0] == WireFieldView::Tag(1u8) && (fs[1]
        matches WireFieldView::Text(e) && crate::handle::valid_handle_email(e)) && (fs[2]
        matches WireFieldView::Text(l) && crate::handle::valid_handle_label(l)))
}

/// Every identifier, key, digest and text inside a claimer reply is
/// renderable, and identities were validated.
pub open spec fn claimer_reply_wf(r: ClaimerReply) -> bool {
    match r {
        ClaimerReply::Info(InviteInfoRep::Success(u)) => match u {
            InviteInfoUserOrDevice::User {
                claimer_email,
                greeter_user_id,
                greeter_human_handle,
            } => {
                &&& vstd::utf8::encode_utf8(claimer_email@).len() <= u64::MAX
                &&& greeter_user_id.wf()
                &&& (greeter_human_handle matches Some(h) ==> h.wf())
            },
            InviteInfoUserOrDevice::Device { greeter_user_id, greeter_human_handle } => {
                &&& greeter_user_id.wf()
                &&& (greeter_human_handle matches Some(h) ==> h.wf())
            },
        },
        ClaimerReply::Info(_) => true,
        ClaimerReply::WaitPeer(Invite1ClaimerWaitPeerRep::Success { greeter_public_key }) =>
            greeter_public_key.wf(),
        ClaimerReply::WaitPeer(_) => true,
        ClaimerReply::SendHashedNonce(
            Invite2aClaimerSendHashedNonceRep::Success { greeter_nonce },
        ) => greeter_nonce@.len() <= u64::MAX,
        ClaimerReply::SendHashedNonce(_) => true,
        ClaimerReply::SendNonce(_) => true,
        ClaimerReply::SignifyTrust(_) => true,
        ClaimerReply::WaitPeerTrust(_) => true,
        ClaimerReply::Communicate(Invite4ClaimerCommunicateRep::Success { payload }) => payload@.len()
            <= u64::MAX,
        ClaimerReply::Communicate(_) => true,
    }
}

/// The field rendering of a claimer reply.
pub open spec fn claimer_reply_fields(r: ClaimerReply) -> Seq<WireFieldView> {
    match r {
        ClaimerReply::Info(rep) => match rep {
            InviteInfoRep::Success(InviteInfoUserOrDevice::User {
                claimer_email,
                greeter_user_id,
                greeter_human_handle,
            }) => seq![
                WireFieldView::Tag(1u8),
                WireFieldView::Tag(0u8),
                WireFieldView::Tag(1u8),
                WireFieldView::Text(claimer_email@),
                WireFieldView::Text(greeter_user_id@),
            ] + handle_fields(greeter_human_handle),
            InviteInfoRep::Success(InviteInfoUserOrDevice::Device {
                greeter_user_id,
                greeter_human_handle,
            }) => seq![
                WireFieldView::Tag(1u8),
                WireFieldView::Tag(0u8),
                WireFieldView::Tag(2u8),
                WireFieldView::Text(greeter_user_id@),
            ] + handle_fields(greeter_human_handle),
            InviteInfoRep::NotFound => seq![WireFieldView::Tag(1u8), WireFieldView::Tag(1u8)],
            InviteInfoRep::AlreadyDeleted => seq![WireFieldView::Tag(1u8), WireFieldView::Tag(2u8)],
        },
        ClaimerReply::WaitPeer(rep) => match rep {
            Invite1ClaimerWaitPeerRep::Success { greeter_public_key } => seq![
                WireFieldView::Tag(2u8),
                WireFieldView::Tag(0u8),
                WireFieldView::Bytes(greeter_public_key@),
            ],
            Invite1ClaimerWaitPeerRep::NotFound => seq![
                WireFieldView::Tag(2u8),
                WireFieldView::Tag(1u8),
            ],
            Invite1ClaimerWaitPeerRep::InvalidState => seq![
                WireFieldView::Tag(2u8),
                WireFieldView::Tag(3u8),
            ],
        },
        ClaimerReply::SendHashedNonce(rep) => match rep {
            Invite2aClaimerSendHashedNonceRep::Success { greeter_nonce } => seq![
                WireFieldView::Tag(3u8),
                WireFieldView::Tag(0u8),
                WireFieldView::Bytes(greeter_nonce@),
            ],
            Invite2aClaimerSendHashedNonceRep::NotFound => seq![
                WireFieldView::Tag(3u8),
                WireFieldView::Tag(1u8),
            ],
            Invite2aClaimerSendHashedNonceRep::AlreadyDeleted => seq![
                WireFieldView::Tag(3u8),
                WireFieldView::Tag(2u8),
            ],
            Invite2aClaimerSendHashedNonceRep::InvalidState => seq![
                WireFieldView::Tag(3u8),
                WireFieldView::Tag(3u8),
            ],
        },
        ClaimerReply::SendNonce(rep) => match rep {
            Invite2bClaimerSendNonceRep::Success => seq![
                WireFieldView::Tag(4u8),
                WireFieldView::Tag(0u8),
            ],
            Invite2bClaimerSendNonceRep::NotFound => seq![
                WireFieldView::Tag(4u8),
                WireFieldView::Tag(1u8),
            ],
            Invite2bClaimerSendNonceRep::InvalidState => seq![
                WireFieldView::Tag(4u8),
                WireFieldView::Tag(3u8),
            ],
        },
        ClaimerReply::SignifyTrust(rep) => match rep {
            Invite3aClaimerSignifyTrustRep::Success => seq![
                WireFieldView::Tag(5u8),
                WireFieldView::Tag(0u8),
            ],
            Invite3aClaimerSignifyTrustRep::NotFound => seq![
                WireFieldView::Tag(5u8),
                WireFieldView::Tag(1u8),
            ],
            Invite3aClaimerSignifyTrustRep::InvalidState => seq![
                WireFieldView::Tag(5u8),
                WireFieldView::Tag(3u8),
            ],
        },
        ClaimerReply::WaitPeerTrust(rep) => match rep {
            Invite3bClaimerWaitPeerTrustRep::Success => seq![
                WireFieldView::Tag(6u8),
                WireFieldView::Tag(0u8),
            ],
            Invite3bClaimerWaitPeerTrustRep::NotFound => seq![
                WireFieldView::Tag(6u8),
                WireFieldView::Tag(1u8),
            ],
            Invite3bClaimerWaitPeerTrustRep::InvalidState => seq![
                WireFieldView::Tag(6u8),
                WireFieldView::Tag(3u8),
            ],
        },
        ClaimerReply::Communicate(rep) => match rep {
            Invite4ClaimerCommunicateRep::Success { payload } => seq![
                WireFieldView::Tag(7u8),
                WireFieldView::Tag(0u8),
                WireFieldView::Bytes(payload@),
            ],
            Invite4ClaimerCommunicateRep::NotFound => seq![
                WireFieldView::Tag(7u8),
                WireFieldView::Tag(1u8),
            ],
            Invite4ClaimerCommunicateRep::InvalidState => seq![
                WireFieldView::Tag(7u8),
                WireFieldView::Tag(3u8),
            ],
        },
    }
}

/// Which field lists are the rendering of some well-formed claimer reply.
pub open spec fn valid_claimer_reply_fields(fs: Seq<WireFieldView>) -> bool {
    &&& fs.len() >= 2
    &&& match (fs[0], fs[1]) {
        (WireFieldView::Tag(c), WireFieldView::Tag(o)) => if c == 1 {
            ||| (o == 0 && fs.len() >= 5 && fs[2] == WireFieldView::Tag(1u8) && fs[3] is Text && (
            fs[4] matches WireFieldView::Text(g) && crate::ids::valid_id_text(g))
                && valid_handle_fields(fs.skip(5)))
            ||| (o == 0 && fs.len() >= 4 && fs[2] == WireFieldView::Tag(2u8) && (fs[3]
                matches WireFieldView::Text(g) && crate::ids::valid_id_text(g))
                && valid_handle_fields(fs.skip(4)))
            ||| ((o == 1 || o == 2) && fs.len() == 2)
        } else if c == 2 {
            ||| (o == 0 && fs.len() == 3 && (fs[2] matches WireFieldView::Bytes(b) && b.len()
                == 32))
            ||| ((o == 1 || o == 3) && fs.len() == 2)
        } else if c == 3 {
            ||| (o == 0 && fs.len() == 3 && fs[2] is Bytes)
            ||| ((o == 1 || o == 2 || o == 3) && fs.len() == 2)
        } else if c == 4 || c == 5 || c == 6 {
            (o == 0 || o == 1 || o == 3) && fs.len() == 2
        } else if c == 7 {
            ||| (o == 0 && fs.len() == 3 && fs[2] is Bytes)
            ||| ((o == 1 || o == 3) && fs.len() == 2)
        } else {
            false
        },
        _ => false,
    }
}

/// The rendering of a well-formed claimer reply is well formed and
/// recognized as valid.
pub proof fn lemma_claimer_reply_fields_ok(r: ClaimerReply)
    requires
        claimer_reply_wf(r),
    ensures
        fields_wf(claimer_reply_fields(r)),
        valid_claimer_reply_fields(claimer_reply_fields(r)),
{
    match r {
        ClaimerReply::Info(InviteInfoRep::Success(u)) => {
            let fs = claimer_reply_fields(r);
            match u {
                InviteInfoUserOrDevice::User { greeter_human_handle, .. } => {
                    assert(fs.skip(5) =~= handle_fields(greeter_human_handle));
                },
                InviteInfoUserOrDevice::Device { greeter_human_handle, .. } => {
                    assert(fs.skip(4) =~= handle_fields(greeter_human_handle));
                },
            }
            assert forall|i: int| 0 <= i < fs.len() implies field_wf(#[trigger] fs[i]) by {
                match u {
                    InviteInfoUserOrDevice::User { greeter_human_handle, .. } => {
                        if i >= 5 {
                            assert(fs[i] == handle_fields(greeter_human_handle)[i - 5]);
                        }
                    },
                    InviteInfoUserOrDevice::Device { greeter_human_handle, .. } => {
                        if i >= 4 {
                            assert(fs[i] == handle_fields(greeter_human_handle)[i - 4]);
                        }
                    },
                }
            }
        },
        _ => {},
    }
}

/// Law (round trip, replies to the claimer): the byte encoding of any
/// well-formed claimer reply decodes back to exactly its field list.
pub proof fn lemma_claimer_reply_round_trip(r: ClaimerReply)
    requires
        claimer_reply_wf(r),
    ensures
        dec_fields(enc_fields(claimer_reply_fields(r))) == Some(claimer_reply_fields(r)),
        valid_claimer_reply_fields(claimer_reply_fields(r)),
{
    lemma_claimer_reply_fields_ok(r);
    lemma_dec_fields_round_trip(claimer_reply_fields(r));
}

/// Renders a claimer reply for the relay.
pub fn encode_claimer_reply(r: &ClaimerReply) -> (out: Vec<u8>)
    ensures
        out@ == enc_fields(claimer_reply_fields(*r)),
{
    let mut fields: Vec<WireField> = Vec::new();
    match r {
        ClaimerReply::Info(rep) => {
            fields.push(WireField::Tag(1));
            match rep {
                InviteInfoRep::Success(u) => {
                    fields.push(WireField::Tag(0));
                    let handle = match u {
                        InviteInfoUserOrDevice::User {
                            claimer_email,
                            greeter_user_id,
                            greeter_human_handle,
                        } => {
                            fields.push(WireField::Tag(1));
                            fields.push(WireField::Text(claimer_email.clone()));
                            fields.push(
                                WireField::Text(String::from_str(greeter_user_id.as_str())),
                            );
                            greeter_human_handle
                        },
                        InviteInfoUserOrDevice::Device {
                            greeter_user_id,
                            greeter_human_handle,
                        } => {
                            fields.push(WireField::Tag(2));
                            fields.push(
                                WireField::Text(String::from_str(greeter_user_id.as_str())),
                            );
                            greeter_human_handle
                        },
                    };
                    match handle {
                        Some(h) => {
                            fields.push(WireField::Tag(1));
                            fields.push(WireField::Text(String::from_str(h.email())));
                            fields.push(WireField::Text(String::from_str(h.label())));
                        },
                        None => {
                            fields.push(WireField::Tag(0));
                        },
                    }
                },
                InviteInfoRep::NotFound => fields.push(WireField::Tag(1)),
                InviteInfoRep::AlreadyDeleted => fields.push(WireField::Tag(2)),
            }
        },
        ClaimerReply::WaitPeer(rep) => {
            fields.push(WireField::Tag(2));
            match rep {
                Invite1ClaimerWaitPeerRep::Success { greeter_public_key } => {
                    fields.push(WireField::Tag(0));
                    fields.push(WireField::Bytes(clone_bytes(greeter_public_key.as_bytes())));
                },
                Invite1ClaimerWaitPeerRep::NotFound => fields.push(WireField::Tag(1)),
                Invite1ClaimerWaitPeerRep::InvalidState => fields.push(WireField::Tag(3)),
            }
        },
        ClaimerReply::SendHashedNonce(rep) => {
            fields.push(WireField::Tag(3));
            match rep {
                Invite2aClaimerSendHashedNonceRep::Success { greeter_nonce } => {
                    fields.push(WireField::Tag(0));
                    fields.push(WireField::Bytes(clone_bytes(greeter_nonce)));
                },
                Invite2aClaimerSendHashedNonceRep::NotFound => fields.push(WireField::Tag(1)),
                Invite2aClaimerSendHashedNonceRep::AlreadyDeleted => fields.push(
                    WireField::Tag(2),
                ),
                Invite2aClaimerSendHashedNonceRep::InvalidState => fields.push(WireField::Tag(3)),
            }
        },
        ClaimerReply::SendNonce(rep) => {
            fields.push(WireField::Tag(4));
            match rep {
                Invite2bClaimerSendNonceRep::Success => fields.push(WireField::Tag(0)),
                Invite2bClaimerSendNonceRep::NotFound => fields.push(WireField::Tag(1)),
                Invite2bClaimerSendNonceRep::InvalidState => fields.push(WireField::Tag(3)),
            }
        },
        ClaimerReply::SignifyTrust(rep) => {
            fields.push(WireField::Tag(5));
            match rep {
                Invite3aClaimerSignifyTrustRep::Success => fields.push(WireField::Tag(0)),
                Invite3aClaimerSignifyTrustRep::NotFound => fields.push(WireField::Tag(1)),
                Invite3aClaimerSignifyTrustRep::InvalidState => fields.push(WireField::Tag(3)),
            }
        },
        ClaimerReply::WaitPeerTrust(rep) => {
            fields.push(WireField::Tag(6));
            match rep {
                Invite3bClaimerWaitPeerTrustRep::Success => fields.push(WireField::Tag(0)),
                Invite3bClaimerWaitPeerTrustRep::NotFound => fields.push(WireField::Tag(1)),
                Invite3bClaimerWaitPeerTrustRep::InvalidState => fields.push(WireField::Tag(3)),
            }
        },
        ClaimerReply::Communicate(rep) => {
            fields.push(WireField::Tag(7));
            match rep {
                Invite4ClaimerCommunicateRep::Success { payload } => {
                    fields.push(WireField::Tag(0));
                    fields.push(WireField::Bytes(clone_bytes(payload)));
                },
                Invite4ClaimerCommunicateRep::NotFound => fields.push(WireField::Tag(1)),
                Invite4ClaimerCommunicateRep::InvalidState => fields.push(WireField::Tag(3)),
            }
        },
    }
    proof {
        assert(fields@.map_values(|f: WireField| f@) =~= claimer_reply_fields(*r));
    }
    encode_fields(&fields)
}

/// Parses a claimer reply from relay bytes; any corruption is a failure.
pub fn decode_claimer_reply(buf: &Vec<u8>) -> (r: Option<ClaimerReply>)
    ensures
        match r {
            Some(rep) => claimer_reply_wf(rep) && dec_fields(buf@) == Some(
                claimer_reply_fields(rep),
            ),
            None => dec_fields(buf@) is None || !valid_claimer_reply_fields(
                dec_fields(buf@).unwrap(),
            ),
        },
{
    let fields = match decode_fields(buf) {
        Some(fs) => fs,
        None => {
            return None;
        },
    };
    let ghost fv = fields@.map_values(|f: WireField| f@);
    if fields.len() < 2 {
        return None;
    }
    let cmd = match &fields[0] {
        WireField::Tag(c) => *c,
        _ => {
            return None;
        },
    };
    let outcome = match &fields[1] {
        WireField::Tag(o) => *o,
        _ => {
            return None;
        },
    };
    if cmd == 1 {
        if outcome == 1 || outcome == 2 {
            if fields.len() != 2 {
                return None;
            }
            let rep = if outcome == 1 {
                ClaimerReply::Info(InviteInfoRep::NotFound)
            } else {
                ClaimerReply::Info(InviteInfoRep::AlreadyDeleted)
            };
            proof {
                assert(claimer_reply_fields(rep) =~= fv);
            }
            Some(rep)
        } else if outcome == 0 {
            if fields.len() < 4 {
                return None;
            }
            let kind = match &fields[2] {
                WireField::Tag(t) => *t,
                _ => {
                    return None;
                },
            };
            if kind != 1 && kind != 2 {
                return None;
            }
            let base: usize = if kind == 1 {
                5
            } else {
                4
            };
            if fields.len() <= base {
                return None;
            }
            let claimer_email: Option<String> = if kind == 1 {
                match &fields[3] {
                    WireField::Text(e) => Some(e.clone()),
                    _ => {
                        return None;
                    },
                }
            } else {
                None
            };
            let greeter_user_id = match &fields[base - 1] {
                WireField::Text(g) => match UserID::from_validated(g.clone()) {
                    Some(u) => u,
                    None => {
                        return None;
                    },
                },
                _ => {
                    return None;
                },
            };
            let handle_tag = match &fields[base] {
                WireField::Tag(t) => *t,
                _ => {
                    return None;
                },
            };
            let greeter_human_handle: Option<HumanHandle> = if handle_tag == 0 {
                if fields.len() != base + 1 {
                    return None;
                }
                None
            } else if handle_tag == 1 {
                if fields.len() != base + 3 {
                    return None;
                }
                match (&fields[base + 1], &fields[base + 2]) {
                    (WireField::Text(he), WireField::Text(hl)) => {
                        match HumanHandle::from_validated(he.clone(), hl.clone()) {
                            Some(h) => Some(h),
                            None => {
                                return None;
                            },
                        }
                    },
                    _ => {
                        return None;
                    },
                }
            } else {
                return None;
            };
            let rep = if kind == 1 {
                let email = match claimer_email {
                    Some(e) => e,
                    None => unreached(),
                };
                let nbytes = email.as_str().as_bytes().len();
                proof {
                    assert(nbytes as nat == vstd::utf8::encode_utf8(email@).len());
                }
                ClaimerReply::Info(
                    InviteInfoRep::Success(
                        InviteInfoUserOrDevice::User {
                            claimer_email: email,
                            greeter_user_id,
                            greeter_human_handle,
                        },
                    ),
                )
            } else {
                ClaimerReply::Info(
                    InviteInfoRep::Success(
                        InviteInfoUserOrDevice::Device { greeter_user_id, greeter_human_handle },
                    ),
                )
            };
            proof {
                assert(claimer_reply_fields(rep) =~= fv);
            }
            Some(rep)
        } else {
            None
        }
    } else if cmd == 2 || cmd == 3 || cmd == 7 {
        if outcome == 0 {
            if fields.len() != 3 {
                return None;
            }
            let rep = match &fields[2] {
                WireField::Bytes(b) => {
                    if cmd == 2 {
                        match take_key(b) {
                            Some(key) => ClaimerReply::WaitPeer(
                                Invite1ClaimerWaitPeerRep::Success { greeter_public_key: key },
                            ),
                            None => {
                                return None;
                            },
                        }
                    } else if cmd == 3 {
                        ClaimerReply::SendHashedNonce(
                            Invite2aClaimerSendHashedNonceRep::Success {
                                greeter_nonce: clone_bytes(b),
                            },
                        )
                    } else {
                        ClaimerReply::Communicate(
                            Invite4ClaimerCommunicateRep::Success { payload: clone_bytes(b) },
                        )
                    }
                },
                _ => {
                    return None;
                },
            };
            proof {
                assert(claimer_reply_fields(rep) =~= fv);
            }
            Some(rep)
        } else {
            if fields.len() != 2 {
                return None;
            }
            let rep = if cmd == 2 {
                if outcome == 1 {
                    ClaimerReply::WaitPeer(Invite1ClaimerWaitPeerRep::NotFound)
                } else if outcome == 3 {
                    ClaimerReply::WaitPeer(Invite1ClaimerWaitPeerRep::InvalidState)
                } else {
                    return None;
                }
            } else if cmd == 3 {
                if outcome == 1 {
                    ClaimerReply::SendHashedNonce(Invite2aClaimerSendHashedNonceRep::NotFound)
                } else if outcome == 2 {
                    ClaimerReply::SendHashedNonce(Invite2aClaimerSendHashedNonceRep::AlreadyDeleted)
                } else if outcome == 3 {
                    ClaimerReply::SendHashedNonce(Invite2aClaimerSendHashedNonceRep::InvalidState)
                } else {
                    return None;
                }
            } else {
                if outcome == 1 {
                    ClaimerReply::Communicate(Invite4ClaimerCommunicateRep::NotFound)
                } else if outcome == 3 {
                    ClaimerReply::Communicate(Invite4ClaimerCommunicateRep::InvalidState)
                } else {
                    return None;
                }
            };
            proof {
                assert(claimer_reply_fields(rep) =~= fv);
            }
            Some(rep)
        }
    } else if cmd == 4 || cmd == 5 || cmd == 6 {
        if fields.len() != 2 {
            return None;
        }
        if outcome != 0 && outcome != 1 && outcome != 3 {
            return None;
        }
        let rep = if cmd == 4 {
            if outcome == 0 {
                ClaimerReply::SendNonce(Invite2bClaimerSendNonceRep::Success)
            } else if outcome == 1 {
                ClaimerReply::SendNonce(Invite2bClaimerSendNonceRep::NotFound)
            } else {
                ClaimerReply::SendNonce(Invite2bClaimerSendNonceRep::InvalidState)
            }
        } else if cmd == 5 {
            if outcome == 0 {
                ClaimerReply::SignifyTrust(Invite3aClaimerSignifyTrustRep::Success)
            } else if outcome == 1 {
                ClaimerReply::SignifyTrust(Invite3aClaimerSignifyTrustRep::NotFound)
            } else {
                ClaimerReply::SignifyTrust(Invite3aClaimerSignifyTrustRep::InvalidState)
            }
        } else {
            if outcome == 0 {
                ClaimerReply::WaitPeerTrust(Invite3bClaimerWaitPeerTrustRep::Success)
            } else if outcome == 1 {
                ClaimerReply::WaitPeerTrust(Invite3bClaimerWaitPeerTrustRep::NotFound)
            } else {
                ClaimerReply::WaitPeerTrust(Invite3bClaimerWaitPeerTrustRep::InvalidState)
            }
        };
        proof {
            assert(claimer_reply_fields(rep) =~= fv);
        }
        Some(rep)
    } else {
        None
    }
}

} // verus!
