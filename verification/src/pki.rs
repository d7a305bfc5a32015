//! Enrollment payloads exchanged over a public-key infrastructure: the
//! request a candidate submits and the answer an administrator signs.
//! Their key material is opaque byte strings; validation of the signature
//! chain is the trust-chain collaborator's work.

use crate::handle::HumanHandle;
use crate::ids::{DeviceID, DeviceLabel};
use crate::profile::UserProfile;
use vstd::prelude::*;

verus! {

/// What the administrator sends back when accepting an enrollment.
pub struct PkiEnrollmentAnswerPayload {
    pub device_id: DeviceID,
    pub device_label: Option<DeviceLabel>,
    pub human_handle: Option<HumanHandle>,
    pub profile: UserProfile,
    pub root_verify_key: Vec<u8>,
}

impl PkiEnrollmentAnswerPayload {
    /// The enrolled device's identity.
    pub fn device_id(&self) -> (r: &DeviceID)
        ensures
            r == self.device_id,
    {
        &self.device_id
    }

    /// The label requested for the enrolled device, if any.
    pub fn device_label(&self) -> (r: &Option<DeviceLabel>)
        ensures
            r == self.device_label,
    {
        &self.device_label
    }

    /// The enrolled user's human identity, if any.
    pub fn human_handle(&self) -> (r: &Option<HumanHandle>)
        ensures
            r == self.human_handle,
    {
        &self.human_handle
    }

    /// The profile granted to the enrolled user.
    pub fn profile(&self) -> (r: UserProfile)
        ensures
            r == self.profile,
    {
        self.profile
    }

    /// The organization's root verification key.
    pub fn root_verify_key(&self) -> (r: &Vec<u8>)
        ensures
            r@ == self.root_verify_key@,
    {
        &self.root_verify_key
    }
}

/// What a candidate submits when asking to be enrolled.
pub struct PkiEnrollmentSubmitPayload {
    pub verify_key: Vec<u8>,
    pub public_key: Vec<u8>,
    pub requested_device_label: DeviceLabel,
}

impl PkiEnrollmentSubmitPayload {
    /// The candidate's signature verification key.
    pub fn verify_key(&self) -> (r: &Vec<u8>)
        ensures
            r@ == self.verify_key@,
    {
        &self.verify_key
    }

    /// The candidate's encryption public key.
    pub fn public_key(&self) -> (r: &Vec<u8>)
        ensures
            r@ == self.public_key@,
    {
        &self.public_key
    }

    /// The device label the candidate asks for.
    pub fn requested_device_label(&self) -> (r: &DeviceLabel)
        ensures
            r == self.requested_device_label,
    {
        &self.requested_device_label
    }
}

} // verus!
