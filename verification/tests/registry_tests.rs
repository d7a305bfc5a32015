use invite_protocol::crypto::{HashDigest, PublicKey};
use invite_protocol::handle::HumanHandle;
use invite_protocol::ids::UserID;
use invite_protocol::invite::{
    InvitationDeletedReason, InvitationEmailSentStatus, InvitationStatus, InvitationToken,
    InvitationType,
};
use invite_protocol::profile::UserProfile;
use invite_protocol::protocol::{
    Invite1ClaimerWaitPeerRep, Invite1GreeterWaitPeerRep, Invite2aClaimerSendHashedNonceRep,
    Invite2aGreeterGetHashedNonceRep, Invite2bClaimerSendNonceRep, Invite2bGreeterSendNonceRep,
    Invite3aClaimerSignifyTrustRep, Invite3aGreeterWaitPeerTrustRep,
    Invite3bClaimerWaitPeerTrustRep, Invite3bGreeterSignifyTrustRep,
    Invite4ClaimerCommunicateRep, Invite4GreeterCommunicateRep, InviteDeleteRep, InviteInfoRep,
    InviteInfoUserOrDevice, InviteNewRep,
};
use invite_protocol::registry::{Outcome, Registry};
use invite_protocol::sas::compute_sas;

fn greeter() -> UserID {
    UserID::parse("alice").unwrap()
}

fn new_user_invitation(reg: &mut Registry, email: &str) -> InvitationToken {
    let rep = reg.create(
        InvitationType::User,
        Some(email.to_string()),
        false,
        &greeter(),
        UserProfile::Admin,
        Some(HumanHandle::new("alice@example.com", "Alice").unwrap()),
        1000,
    );
    match rep {
        InviteNewRep::Success { token, .. } => token,
        _ => panic!("invitation was not created"),
    }
}

#[test]
fn end_to_end_user_enrollment() {
    // Scenario: a full successful enrollment of bob@example.com.
    let mut reg = Registry::new(vec![], true);
    let token = new_user_invitation(&mut reg, "bob@example.com");

    // The claimer can read the invitation before starting.
    match reg.info(&token) {
        InviteInfoRep::Success(InviteInfoUserOrDevice::User {
            claimer_email,
            greeter_user_id,
            greeter_human_handle,
        }) => {
            assert_eq!(claimer_email, "bob@example.com");
            assert_eq!(greeter_user_id.as_str(), "alice");
            assert_eq!(greeter_human_handle.unwrap().email(), "alice@example.com");
        }
        other => panic!("unexpected info reply: {:?}", other),
    }

    // Step 1: both sides deposit their public keys.
    let ck = PublicKey::from_bytes(vec![1u8; 32]).unwrap();
    let gk = PublicKey::from_bytes(vec![2u8; 32]).unwrap();
    assert!(matches!(
        reg.claimer_wait_peer(&token, &ck),
        Outcome::Pending
    ));
    match reg.greeter_wait_peer(&token, &gk) {
        Outcome::Reply(Invite1GreeterWaitPeerRep::Success { claimer_public_key }) => {
            assert_eq!(claimer_public_key.as_bytes(), ck.as_bytes());
        }
        other => panic!("unexpected step 1 reply: {:?}", other),
    }
    match reg.claimer_wait_peer(&token, &ck) {
        Outcome::Reply(Invite1ClaimerWaitPeerRep::Success { greeter_public_key }) => {
            assert_eq!(greeter_public_key.as_bytes(), gk.as_bytes());
        }
        other => panic!("unexpected step 1 reply: {:?}", other),
    }

    // Step 2a: the claimer commits to its nonce; the greeter fetches the
    // commitment.
    let nonce_c = b"claimer-nonce".to_vec();
    let nonce_g = b"greeter-nonce".to_vec();
    let hash_c = HashDigest::from_data(&nonce_c);
    assert!(matches!(
        reg.claimer_send_hashed_nonce(&token, &hash_c),
        Outcome::Pending
    ));
    match reg.greeter_get_hashed_nonce(&token) {
        Outcome::Reply(Invite2aGreeterGetHashedNonceRep::Success {
            claimer_hashed_nonce,
        }) => assert!(claimer_hashed_nonce.matches(&hash_c)),
        other => panic!("unexpected step 2a reply: {:?}", other),
    }

    // Step 2b: the greeter reveals first, then the claimer.
    assert!(matches!(
        reg.greeter_send_nonce(&token, &nonce_g),
        Outcome::Pending
    ));
    match reg.claimer_send_hashed_nonce(&token, &hash_c) {
        Outcome::Reply(Invite2aClaimerSendHashedNonceRep::Success { greeter_nonce }) => {
            assert_eq!(greeter_nonce, nonce_g);
        }
        other => panic!("unexpected step 2a reply: {:?}", other),
    }
    assert!(matches!(
        reg.claimer_send_nonce(&token, &nonce_c),
        Outcome::Reply(Invite2bClaimerSendNonceRep::Success)
    ));
    match reg.greeter_send_nonce(&token, &nonce_g) {
        Outcome::Reply(Invite2bGreeterSendNonceRep::Success { claimer_nonce }) => {
            assert_eq!(claimer_nonce, nonce_c);
        }
        other => panic!("unexpected step 2b reply: {:?}", other),
    }

    // Both sides derive the same codes from the same material.
    let claimer_view = compute_sas(&gk, &ck, &nonce_g, &nonce_c);
    let greeter_view = compute_sas(&gk, &ck, &nonce_g, &nonce_c);
    assert_eq!(claimer_view, greeter_view);

    // Step 3: both sides signify trust once the humans compared the codes.
    assert!(matches!(
        reg.claimer_signify_trust(&token),
        Outcome::Reply(Invite3aClaimerSignifyTrustRep::Success)
    ));
    assert!(matches!(
        reg.greeter_wait_peer_trust(&token),
        Outcome::Reply(Invite3aGreeterWaitPeerTrustRep::Success)
    ));
    assert!(matches!(
        reg.greeter_signify_trust(&token),
        Outcome::Reply(Invite3bGreeterSignifyTrustRep::Success)
    ));
    assert!(matches!(
        reg.claimer_wait_peer_trust(&token),
        Outcome::Reply(Invite3bClaimerWaitPeerTrustRep::Success)
    ));

    // Step 4: one round of payload exchange.
    assert!(matches!(
        reg.claimer_communicate(&token, &b"cert-draft".to_vec()),
        Outcome::Pending
    ));
    match reg.greeter_communicate(&token, &b"cert-signed".to_vec()) {
        Outcome::Reply(Invite4GreeterCommunicateRep::Success { payload }) => {
            assert_eq!(payload, b"cert-draft".to_vec());
        }
        other => panic!("unexpected step 4 reply: {:?}", other),
    }
    match reg.claimer_communicate(&token, &b"cert-draft".to_vec()) {
        Outcome::Reply(Invite4ClaimerCommunicateRep::Success { payload }) => {
            assert_eq!(payload, b"cert-signed".to_vec());
        }
        other => panic!("unexpected step 4 reply: {:?}", other),
    }

    // The issuer finally consumes the invitation.
    assert_eq!(
        reg.delete(&token, InvitationDeletedReason::Finished),
        InviteDeleteRep::Success
    );
    assert_eq!(reg.info(&token), InviteInfoRep::AlreadyDeleted);
}

#[test]
fn greeter_cannot_reveal_before_commitment() {
    // Scenario: the greeter tries to reveal its nonce before the claimer
    // has committed a hash.
    let mut reg = Registry::new(vec![], true);
    let token = new_user_invitation(&mut reg, "bob@example.com");
    let ck = PublicKey::from_bytes(vec![1u8; 32]).unwrap();
    let gk = PublicKey::from_bytes(vec![2u8; 32]).unwrap();
    let _ = reg.claimer_wait_peer(&token, &ck);
    let _ = reg.greeter_wait_peer(&token, &gk);
    assert!(matches!(
        reg.greeter_send_nonce(&token, &b"greeter-nonce".to_vec()),
        Outcome::Reply(Invite2bGreeterSendNonceRep::InvalidState)
    ));
}

#[test]
fn tampered_nonce_is_rejected() {
    // Scenario: the revealed nonce does not hash to the commitment.
    let mut reg = Registry::new(vec![], true);
    let token = new_user_invitation(&mut reg, "bob@example.com");
    let ck = PublicKey::from_bytes(vec![1u8; 32]).unwrap();
    let gk = PublicKey::from_bytes(vec![2u8; 32]).unwrap();
    let _ = reg.claimer_wait_peer(&token, &ck);
    let _ = reg.greeter_wait_peer(&token, &gk);
    let nonce_c = b"claimer-nonce".to_vec();
    let hash_c = HashDigest::from_data(&nonce_c);
    let _ = reg.claimer_send_hashed_nonce(&token, &hash_c);
    let _ = reg.greeter_send_nonce(&token, &b"greeter-nonce".to_vec());
    assert!(matches!(
        reg.claimer_send_nonce(&token, &b"tampered-nonce".to_vec()),
        Outcome::Reply(Invite2bClaimerSendNonceRep::InvalidState)
    ));
    // The matching nonce still goes through afterwards.
    assert!(matches!(
        reg.claimer_send_nonce(&token, &nonce_c),
        Outcome::Reply(Invite2bClaimerSendNonceRep::Success)
    ));
}

#[test]
fn info_reply_getters_return_what_was_passed() {
    let handle = HumanHandle::new("alice@example.com", "Alice").unwrap();
    let rep = InviteInfoRep::new(
        InvitationType::User,
        Some("bob@example.com".to_string()),
        UserID::parse("alice").unwrap(),
        Some(handle.clone()),
    );
    assert_eq!(rep.invitation_type(), Some(InvitationType::User));
    assert_eq!(rep.claimer_email().unwrap(), "bob@example.com");
    assert_eq!(rep.greeter_user_id().unwrap().as_str(), "alice");
    assert_eq!(rep.greeter_human_handle(), Some(&handle));

    let rep = InviteInfoRep::new(
        InvitationType::Device,
        None,
        UserID::parse("alice").unwrap(),
        None,
    );
    assert_eq!(rep.invitation_type(), Some(InvitationType::Device));
    assert!(rep.claimer_email().is_none());
    assert!(rep.greeter_human_handle().is_none());
}

#[test]
fn delete_twice_fails_with_already_deleted() {
    // Scenario: the issuer deletes the same invitation twice.
    let mut reg = Registry::new(vec![], true);
    let token = new_user_invitation(&mut reg, "bob@example.com");
    assert_eq!(
        reg.delete(&token, InvitationDeletedReason::Cancelled),
        InviteDeleteRep::Success
    );
    assert_eq!(
        reg.delete(&token, InvitationDeletedReason::Cancelled),
        InviteDeleteRep::AlreadyDeleted
    );
}

#[test]
fn deleted_tokens_always_fail_with_already_deleted() {
    let mut reg = Registry::new(vec![], true);
    let token = new_user_invitation(&mut reg, "bob@example.com");
    let gk = PublicKey::from_bytes(vec![2u8; 32]).unwrap();
    let _ = reg.delete(&token, InvitationDeletedReason::Rotten);
    assert!(matches!(
        reg.greeter_wait_peer(&token, &gk),
        Outcome::Reply(Invite1GreeterWaitPeerRep::AlreadyDeleted)
    ));
    assert!(matches!(
        reg.greeter_get_hashed_nonce(&token),
        Outcome::Reply(Invite2aGreeterGetHashedNonceRep::AlreadyDeleted)
    ));
    assert!(matches!(
        reg.greeter_communicate(&token, &b"data".to_vec()),
        Outcome::Reply(Invite4GreeterCommunicateRep::AlreadyDeleted)
    ));
    assert_eq!(reg.info(&token), InviteInfoRep::AlreadyDeleted);
}

#[test]
fn unknown_tokens_always_fail_with_not_found() {
    let mut reg = Registry::new(vec![], true);
    let stranger = InvitationToken::generate();
    let gk = PublicKey::from_bytes(vec![2u8; 32]).unwrap();
    assert!(matches!(
        reg.greeter_wait_peer(&stranger, &gk),
        Outcome::Reply(Invite1GreeterWaitPeerRep::NotFound)
    ));
    assert!(matches!(
        reg.claimer_wait_peer(&stranger, &gk),
        Outcome::Reply(Invite1ClaimerWaitPeerRep::NotFound)
    ));
    assert_eq!(
        reg.delete(&stranger, InvitationDeletedReason::Cancelled),
        InviteDeleteRep::NotFound
    );
    assert_eq!(reg.info(&stranger), InviteInfoRep::NotFound);
}

#[test]
fn steps_cannot_run_out_of_order() {
    let mut reg = Registry::new(vec![], true);
    let token = new_user_invitation(&mut reg, "bob@example.com");
    let ck = PublicKey::from_bytes(vec![1u8; 32]).unwrap();
    let hash = HashDigest::from_data(&b"n".to_vec());

    // Step 2 commands before step 1 is complete.
    assert!(matches!(
        reg.claimer_send_hashed_nonce(&token, &hash),
        Outcome::Reply(Invite2aClaimerSendHashedNonceRep::InvalidState)
    ));
    assert!(matches!(
        reg.greeter_get_hashed_nonce(&token),
        Outcome::Reply(Invite2aGreeterGetHashedNonceRep::InvalidState)
    ));

    // One key deposited is still not enough.
    let _ = reg.claimer_wait_peer(&token, &ck);
    assert!(matches!(
        reg.claimer_send_hashed_nonce(&token, &hash),
        Outcome::Reply(Invite2aClaimerSendHashedNonceRep::InvalidState)
    ));

    // Step 3 and 4 commands before step 2 is complete.
    assert!(matches!(
        reg.claimer_signify_trust(&token),
        Outcome::Reply(Invite3aClaimerSignifyTrustRep::InvalidState)
    ));
    assert!(matches!(
        reg.greeter_wait_peer_trust(&token),
        Outcome::Reply(Invite3aGreeterWaitPeerTrustRep::InvalidState)
    ));
    assert!(matches!(
        reg.claimer_communicate(&token, &b"p".to_vec()),
        Outcome::Reply(Invite4ClaimerCommunicateRep::InvalidState)
    ));
}

#[test]
fn only_admins_may_invite_users() {
    let mut reg = Registry::new(vec![], true);
    let rep = reg.create(
        InvitationType::User,
        Some("bob@example.com".to_string()),
        false,
        &greeter(),
        UserProfile::Standard,
        None,
        1000,
    );
    assert_eq!(rep, InviteNewRep::NotAllowed);
    // A standard user may still invite a new device for themselves.
    let rep = reg.create(
        InvitationType::Device,
        None,
        false,
        &greeter(),
        UserProfile::Standard,
        None,
        1000,
    );
    assert!(matches!(rep, InviteNewRep::Success { .. }));
}

#[test]
fn enrolled_members_cannot_be_invited_again() {
    let mut reg = Registry::new(vec!["bob@example.com".to_string()], true);
    let rep = reg.create(
        InvitationType::User,
        Some("bob@example.com".to_string()),
        false,
        &greeter(),
        UserProfile::Admin,
        None,
        1000,
    );
    assert_eq!(rep, InviteNewRep::AlreadyMember);
}

#[test]
fn email_report_reflects_the_mail_channel() {
    let mut reg = Registry::new(vec![], false);
    match reg.create(
        InvitationType::User,
        Some("bob@example.com".to_string()),
        true,
        &greeter(),
        UserProfile::Admin,
        None,
        1000,
    ) {
        InviteNewRep::Success { email_sent, .. } => {
            assert_eq!(email_sent, InvitationEmailSentStatus::NotAvailable)
        }
        other => panic!("unexpected reply: {:?}", other),
    }
    match reg.create(
        InvitationType::User,
        Some("not-an-email".to_string()),
        true,
        &greeter(),
        UserProfile::Admin,
        None,
        1000,
    ) {
        InviteNewRep::Success { email_sent, .. } => {
            assert_eq!(email_sent, InvitationEmailSentStatus::BadRecipient)
        }
        other => panic!("unexpected reply: {:?}", other),
    }
    let mut reg = Registry::new(vec![], true);
    match reg.create(
        InvitationType::User,
        Some("bob@example.com".to_string()),
        true,
        &greeter(),
        UserProfile::Admin,
        None,
        1000,
    ) {
        InviteNewRep::Success { email_sent, .. } => {
            assert_eq!(email_sent, InvitationEmailSentStatus::Success)
        }
        other => panic!("unexpected reply: {:?}", other),
    }
}

#[test]
fn listing_shows_the_issuers_invitations_in_creation_order() {
    let mut reg = Registry::new(vec![], true);
    let t1 = new_user_invitation(&mut reg, "bob@example.com");
    let rep = reg.create(
        InvitationType::Device,
        None,
        false,
        &greeter(),
        UserProfile::Admin,
        None,
        2000,
    );
    let t2 = match rep {
        InviteNewRep::Success { token, .. } => token,
        _ => panic!("invitation was not created"),
    };
    let other = UserID::parse("carol").unwrap();
    let items = reg.list(&greeter());
    assert_eq!(items.len(), 2);
    assert!(items[0].token().matches(&t1));
    assert_eq!(items[0].invitation_type(), InvitationType::User);
    assert_eq!(items[0].claimer_email().unwrap(), "bob@example.com");
    assert_eq!(items[0].created_on(), 1000);
    assert_eq!(items[0].status(), InvitationStatus::Idle);
    assert!(items[1].token().matches(&t2));
    assert_eq!(items[1].invitation_type(), InvitationType::Device);
    assert!(reg.list(&other).is_empty());
}

#[test]
fn created_tokens_are_never_reused() {
    let mut reg = Registry::new(vec![], true);
    let mut seen: Vec<Vec<u8>> = Vec::new();
    for _ in 0..16 {
        let token = new_user_invitation(&mut reg, "bob@example.com");
        assert!(!seen.contains(token.as_bytes()));
        seen.push(token.as_bytes().clone());
        let _ = reg.delete(&token, InvitationDeletedReason::Rotten);
    }
}
