use invite_protocol::handle::HumanHandle;
use invite_protocol::ids::{DeviceID, DeviceLabel, DeviceName, OrganizationID, UserID};
use invite_protocol::invite::{
    InvitationDeletedReason, InvitationStatus, InvitationToken, InvitationType,
};
use invite_protocol::path::StrPath;
use invite_protocol::profile::UserProfile;

#[test]
fn test_from_str() {
    let too_long = "a".repeat(33);

    assert!(too_long.parse::<DeviceName>().is_err());
    assert!("pc1".parse::<DeviceName>().is_ok());

    assert!(too_long.parse::<UserID>().is_err());
    assert!("alice".parse::<UserID>().is_ok());

    assert!("dummy".parse::<DeviceID>().is_err());
    assert!(format!("alice@{}", too_long).parse::<DeviceID>().is_err());
    assert!("alice@pc1".parse::<DeviceID>().is_ok());
}

#[test]
fn id_pattern_rejects_special_characters() {
    assert!(UserID::parse("al ice").is_none());
    assert!(UserID::parse("al!ce").is_none());
    assert!(UserID::parse("").is_none());
    assert!(UserID::parse("al-ice_01").is_some());
    assert!(OrganizationID::parse("Org-1").is_some());
    assert!(DeviceLabel::parse("").is_none());
    assert!(DeviceLabel::parse("My laptop!").is_some());
}

#[test]
fn device_id_combines_user_and_device() {
    let user = UserID::parse("alice").unwrap();
    let name = DeviceName::parse("pc1").unwrap();
    let device = user.to_device_id(name);
    assert_eq!(device.as_str(), "alice@pc1");
    assert_eq!(device.user_id().as_str(), "alice");
    assert_eq!(device.device_name().as_str(), "pc1");
}

#[test]
fn id_parse_normalizes_input() {
    // The same name written with a combining accent normalizes to the
    // precomposed form.
    let decomposed = "re\u{0301}my";
    let composed = "r\u{00e9}my";
    let a = UserID::parse(decomposed).unwrap();
    let b = UserID::parse(composed).unwrap();
    assert_eq!(a.as_str(), composed);
    assert_eq!(a.as_str(), b.as_str());
}

#[test]
fn human_handle_validates_email_and_label() {
    let h = HumanHandle::new("bob@example.com", "Boby McBobFace").unwrap();
    assert_eq!(h.email(), "bob@example.com");
    assert_eq!(h.label(), "Boby McBobFace");
    assert_eq!(h.as_str(), "Boby McBobFace <bob@example.com>");

    assert_eq!(
        HumanHandle::new("not-an-email", "Boby"),
        Err("Invalid email address")
    );
    assert_eq!(HumanHandle::new("bob@example.com", ""), Err("Invalid label"));
    assert_eq!(
        HumanHandle::new("bob@example.com", "Bo<by"),
        Err("Invalid label")
    );
    let big = "x".repeat(255);
    assert_eq!(
        HumanHandle::new("bob@example.com", &big),
        Err("Invalid label")
    );
}

#[test]
fn human_handle_parses_display_form() {
    let h = HumanHandle::parse("Boby McBobFace <bob@example.com>").unwrap();
    assert_eq!(h.email(), "bob@example.com");
    assert_eq!(h.label(), "Boby McBobFace");
    assert!(HumanHandle::parse("no email here").is_err());
    assert!(HumanHandle::parse("<bob@example.com>").is_err());
}

#[test]
fn human_handle_compares_by_email_only() {
    let a = HumanHandle::new("bob@example.com", "Bob").unwrap();
    let b = HumanHandle::new("bob@example.com", "Robert").unwrap();
    let c = HumanHandle::new("bob2@example.com", "Bob").unwrap();
    assert_eq!(a, b);
    assert_ne!(a, c);
}

#[test]
fn user_profile_names() {
    assert_eq!(UserProfile::new("ADMIN"), Ok(UserProfile::Admin));
    assert_eq!(UserProfile::new("admin"), Err("Invalid UserProfile"));
    assert_eq!(UserProfile::parse("admin"), Ok(UserProfile::Admin));
    assert_eq!(UserProfile::parse("Standard"), Ok(UserProfile::Standard));
    assert_eq!(UserProfile::parse("OUTSIDER"), Ok(UserProfile::Outsider));
    assert!(UserProfile::parse("boss").is_err());
    assert_eq!(UserProfile::Admin.value(), "ADMIN");
    assert_eq!(UserProfile::Standard.to_string(), "STANDARD");
    assert_eq!(
        UserProfile::iter(),
        [
            UserProfile::Admin,
            UserProfile::Standard,
            UserProfile::Outsider
        ]
    );
}

#[test]
fn invitation_enums_have_canonical_names() {
    assert_eq!(InvitationType::new("USER"), Ok(InvitationType::User));
    assert_eq!(InvitationType::new("DEVICE"), Ok(InvitationType::Device));
    assert!(InvitationType::new("OTHER").is_err());
    assert_eq!(InvitationType::User.value(), "USER");
    assert_eq!(InvitationStatus::Idle.name(), "IDLE");
    assert_eq!(InvitationStatus::Ready.name(), "READY");
    assert_eq!(InvitationStatus::Deleted.name(), "DELETED");
    assert_eq!(InvitationDeletedReason::Finished.value(), "FINISHED");
    assert_eq!(InvitationDeletedReason::Cancelled.value(), "CANCELLED");
    assert_eq!(InvitationDeletedReason::Rotten.value(), "ROTTEN");
}

#[test]
fn tokens_are_sixteen_random_bytes() {
    let a = InvitationToken::generate();
    let b = InvitationToken::generate();
    assert_eq!(a.as_bytes().len(), 16);
    assert_eq!(b.as_bytes().len(), 16);
    assert_ne!(a.as_bytes(), b.as_bytes());
    assert!(a.matches(&a.duplicate()));
    assert!(!a.matches(&b));
    assert!(InvitationToken::from_bytes(vec![0u8; 15]).is_none());
    assert!(InvitationToken::from_bytes(vec![0u8; 16]).is_some());
}

#[test]
fn token_hex_rendering() {
    let token = InvitationToken::from_bytes((0u8..16u8).collect()).unwrap();
    assert_eq!(token.hex(), "000102030405060708090a0b0c0d0e0f");
    let token = InvitationToken::from_bytes(vec![0xff; 16]).unwrap();
    assert_eq!(token.hex(), "ffffffffffffffffffffffffffffffff");
}

#[test]
fn str_path_keeps_its_text() {
    let p: StrPath = "/tmp/workdir".parse().unwrap();
    assert_eq!(p.as_str(), "/tmp/workdir");
    assert_eq!(p, StrPath::new("/tmp/workdir"));
}
