use invite_protocol::crypto::{HashDigest, PublicKey};
use invite_protocol::envelope::{
    decode_claimer_reply, decode_claimer_request, decode_greeter_reply, decode_greeter_request,
    encode_claimer_reply, encode_claimer_request, encode_greeter_reply, encode_greeter_request,
};
use invite_protocol::handle::HumanHandle;
use invite_protocol::ids::UserID;
use invite_protocol::invite::{
    InvitationDeletedReason, InvitationEmailSentStatus, InvitationStatus, InvitationToken,
};
use invite_protocol::protocol::{
    ClaimerReply, ClaimerRequest, GreeterReply, GreeterRequest, Invite1ClaimerWaitPeerRep,
    Invite1ClaimerWaitPeerReq, Invite1GreeterWaitPeerRep, Invite1GreeterWaitPeerReq,
    Invite2aClaimerSendHashedNonceRep, Invite2aClaimerSendHashedNonceReq,
    Invite2aGreeterGetHashedNonceReq, Invite2bClaimerSendNonceRep, Invite2bClaimerSendNonceReq,
    Invite2bGreeterSendNonceReq, Invite3aClaimerSignifyTrustReq, Invite3aGreeterWaitPeerTrustRep,
    Invite3aGreeterWaitPeerTrustReq, Invite3bClaimerWaitPeerTrustReq,
    Invite3bGreeterSignifyTrustReq, Invite4ClaimerCommunicateRep, Invite4ClaimerCommunicateReq,
    Invite4GreeterCommunicateReq, InviteDeleteRep, InviteDeleteReq, InviteInfoRep,
    InviteInfoUserOrDevice, InviteListItem, InviteListRep, InviteListReq, InviteNewRep,
    InviteNewReq,
};

fn token() -> InvitationToken {
    InvitationToken::from_bytes((0u8..16u8).collect()).unwrap()
}

fn key(fill: u8) -> PublicKey {
    PublicKey::from_bytes(vec![fill; 32]).unwrap()
}

fn greeter_request_round_trip(q: GreeterRequest) {
    let bytes = encode_greeter_request(&q);
    assert_eq!(decode_greeter_request(&bytes), Some(q));
}

fn claimer_request_round_trip(q: ClaimerRequest) {
    let bytes = encode_claimer_request(&q);
    assert_eq!(decode_claimer_request(&bytes), Some(q));
}

fn greeter_reply_round_trip(r: GreeterReply) {
    let bytes = encode_greeter_reply(&r);
    assert_eq!(decode_greeter_reply(&bytes), Some(r));
}

fn claimer_reply_round_trip(r: ClaimerReply) {
    let bytes = encode_claimer_reply(&r);
    assert_eq!(decode_claimer_reply(&bytes), Some(r));
}

#[test]
fn greeter_requests_round_trip() {
    greeter_request_round_trip(GreeterRequest::New(InviteNewReq::user(
        "bob@example.com".to_string(),
        true,
    )));
    greeter_request_round_trip(GreeterRequest::New(InviteNewReq::device(false)));
    greeter_request_round_trip(GreeterRequest::Delete(InviteDeleteReq::new(
        token(),
        InvitationDeletedReason::Finished,
    )));
    greeter_request_round_trip(GreeterRequest::List(InviteListReq::new()));
    greeter_request_round_trip(GreeterRequest::WaitPeer(Invite1GreeterWaitPeerReq::new(
        token(),
        key(7),
    )));
    greeter_request_round_trip(GreeterRequest::GetHashedNonce(
        Invite2aGreeterGetHashedNonceReq::new(token()),
    ));
    greeter_request_round_trip(GreeterRequest::SendNonce(Invite2bGreeterSendNonceReq::new(
        token(),
        b"greeter-nonce".to_vec(),
    )));
    greeter_request_round_trip(GreeterRequest::WaitPeerTrust(
        Invite3aGreeterWaitPeerTrustReq::new(token()),
    ));
    greeter_request_round_trip(GreeterRequest::SignifyTrust(
        Invite3bGreeterSignifyTrustReq::new(token()),
    ));
    // Payloads round-trip empty and large.
    greeter_request_round_trip(GreeterRequest::Communicate(
        Invite4GreeterCommunicateReq::new(token(), Vec::new()),
    ));
    greeter_request_round_trip(GreeterRequest::Communicate(
        Invite4GreeterCommunicateReq::new(token(), vec![0xAB; 100_000]),
    ));
}

#[test]
fn claimer_requests_round_trip() {
    claimer_request_round_trip(ClaimerRequest::Info(
        invite_protocol::protocol::InviteInfoReq::new(),
    ));
    claimer_request_round_trip(ClaimerRequest::WaitPeer(Invite1ClaimerWaitPeerReq::new(key(
        9,
    ))));
    claimer_request_round_trip(ClaimerRequest::SendHashedNonce(
        Invite2aClaimerSendHashedNonceReq::new(HashDigest::from_data(&b"nonce".to_vec())),
    ));
    claimer_request_round_trip(ClaimerRequest::SendNonce(Invite2bClaimerSendNonceReq::new(
        Vec::new(),
    )));
    claimer_request_round_trip(ClaimerRequest::SendNonce(Invite2bClaimerSendNonceReq::new(
        b"claimer-nonce".to_vec(),
    )));
    claimer_request_round_trip(ClaimerRequest::SignifyTrust(Invite3aClaimerSignifyTrustReq::new()));
    claimer_request_round_trip(ClaimerRequest::WaitPeerTrust(
        Invite3bClaimerWaitPeerTrustReq::new(),
    ));
    claimer_request_round_trip(ClaimerRequest::Communicate(
        Invite4ClaimerCommunicateReq::new(vec![0x5A; 65_536]),
    ));
}

#[test]
fn greeter_replies_round_trip() {
    greeter_reply_round_trip(GreeterReply::New(InviteNewRep::Success {
        token: token(),
        email_sent: InvitationEmailSentStatus::Success,
    }));
    greeter_reply_round_trip(GreeterReply::New(InviteNewRep::NotAllowed));
    greeter_reply_round_trip(GreeterReply::New(InviteNewRep::AlreadyMember));
    greeter_reply_round_trip(GreeterReply::New(InviteNewRep::NotAvailable));
    greeter_reply_round_trip(GreeterReply::Delete(InviteDeleteRep::Success));
    greeter_reply_round_trip(GreeterReply::Delete(InviteDeleteRep::AlreadyDeleted));
    greeter_reply_round_trip(GreeterReply::Delete(InviteDeleteRep::NotFound));
    greeter_reply_round_trip(GreeterReply::List(InviteListRep::Success {
        invitations: vec![],
    }));
    greeter_reply_round_trip(GreeterReply::List(InviteListRep::Success {
        invitations: vec![
            InviteListItem::user(
                token(),
                1000,
                "bob@example.com".to_string(),
                InvitationStatus::Idle,
            ),
            InviteListItem::device(token(), 2000, InvitationStatus::Ready),
        ],
    }));
    greeter_reply_round_trip(GreeterReply::WaitPeer(
        Invite1GreeterWaitPeerRep::Success {
            claimer_public_key: key(3),
        },
    ));
    greeter_reply_round_trip(GreeterReply::WaitPeer(
        Invite1GreeterWaitPeerRep::InvalidState,
    ));
    greeter_reply_round_trip(GreeterReply::SendNonce(
        invite_protocol::protocol::Invite2bGreeterSendNonceRep::Success {
            claimer_nonce: Vec::new(),
        },
    ));
    greeter_reply_round_trip(GreeterReply::WaitPeerTrust(
        Invite3aGreeterWaitPeerTrustRep::AlreadyDeleted,
    ));
    greeter_reply_round_trip(GreeterReply::Communicate(
        invite_protocol::protocol::Invite4GreeterCommunicateRep::Success {
            payload: vec![0xCD; 50_000],
        },
    ));
}

#[test]
fn claimer_replies_round_trip() {
    claimer_reply_round_trip(ClaimerReply::Info(InviteInfoRep::Success(
        InviteInfoUserOrDevice::User {
            claimer_email: "bob@example.com".to_string(),
            greeter_user_id: UserID::parse("alice").unwrap(),
            greeter_human_handle: Some(HumanHandle::new("alice@example.com", "Alice").unwrap()),
        },
    )));
    claimer_reply_round_trip(ClaimerReply::Info(InviteInfoRep::Success(
        InviteInfoUserOrDevice::Device {
            greeter_user_id: UserID::parse("alice").unwrap(),
            greeter_human_handle: None,
        },
    )));
    claimer_reply_round_trip(ClaimerReply::Info(InviteInfoRep::NotFound));
    claimer_reply_round_trip(ClaimerReply::Info(InviteInfoRep::AlreadyDeleted));
    claimer_reply_round_trip(ClaimerReply::WaitPeer(Invite1ClaimerWaitPeerRep::Success {
        greeter_public_key: key(4),
    }));
    claimer_reply_round_trip(ClaimerReply::SendHashedNonce(
        Invite2aClaimerSendHashedNonceRep::Success {
            greeter_nonce: b"greeter-nonce".to_vec(),
        },
    ));
    claimer_reply_round_trip(ClaimerReply::SendNonce(Invite2bClaimerSendNonceRep::Success));
    claimer_reply_round_trip(ClaimerReply::Communicate(
        Invite4ClaimerCommunicateRep::Success {
            payload: Vec::new(),
        },
    ));
    claimer_reply_round_trip(ClaimerReply::Communicate(
        Invite4ClaimerCommunicateRep::InvalidState,
    ));
}

#[test]
fn corrupted_bytes_are_rejected() {
    let q = GreeterRequest::Delete(InviteDeleteReq::new(
        token(),
        InvitationDeletedReason::Finished,
    ));
    let good = encode_greeter_request(&q);

    // Truncation.
    let mut cut = good.clone();
    cut.pop();
    assert_eq!(decode_greeter_request(&cut), None);

    // Trailing garbage.
    let mut extended = good.clone();
    extended.push(0);
    assert_eq!(decode_greeter_request(&extended), None);

    // A corrupted shape byte.
    let mut flipped = good.clone();
    flipped[0] = 0xFF;
    assert_eq!(decode_greeter_request(&flipped), None);

    // An empty buffer holds no request.
    assert_eq!(decode_greeter_request(&Vec::new()), None);
    assert_eq!(decode_claimer_reply(&Vec::new()), None);
}

#[test]
fn digests_match_the_standard_sha256() {
    // SHA-256 of the empty string, as published with the algorithm.
    let digest = HashDigest::from_data(&Vec::new());
    let expected: Vec<u8> = vec![
        0xe3, 0xb0, 0xc4, 0x42, 0x98, 0xfc, 0x1c, 0x14, 0x9a, 0xfb, 0xf4, 0xc8, 0x99, 0x6f,
        0xb9, 0x24, 0x27, 0xae, 0x41, 0xe4, 0x64, 0x9b, 0x93, 0x4c, 0xa4, 0x95, 0x99, 0x1b,
        0x78, 0x52, 0xb8, 0x55,
    ];
    assert_eq!(digest.as_bytes(), &expected);
}
