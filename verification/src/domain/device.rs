//! The device domain: validated device identifiers and device records.

use vstd::prelude::*;

use crate::ids;

verus! {

/// Represents always valid device identifier: the 128-bit value of a
/// non-nil UUID.
#[derive(Clone, Copy, Debug, PartialEq, Eq, Structural, Hash)]
pub struct DeviceId(u128);

/// The raw text that failed to parse as a non-nil UUID.
#[derive(Debug)]
pub struct DeviceIdError(String);

impl View for DeviceIdError {
    type V = Seq<char>;

    closed spec fn view(&self) -> Seq<char> {
        self.0@
    }
}

impl DeviceId {
    /// The 128-bit value of the identifier.
    pub closed spec fn spec_value(&self) -> u128 {
        self.0
    }

    #[verifier::type_invariant]
    closed spec fn inv(&self) -> bool {
        self.0 != 0
    }

    /// An identifier is valid exactly when the raw text denotes a UUID
    /// other than the nil UUID.
    pub fn new(raw_idfa: &str) -> (r: Result<Self, DeviceIdError>)
        ensures
            r is Ok <==> (ids::parsed_uuid(raw_idfa@) matches Some(u) && u != 0),
            r matches Ok(d) ==> ids::parsed_uuid(raw_idfa@) == Some(d.spec_value()),
            r matches Err(e) ==> e@ == raw_idfa@,
    {
        match ids::parse_uuid(raw_idfa) {
            Some(value) => {
                if value == 0 {
                    Err(DeviceIdError(String::from_str(raw_idfa)))
                } else {
                    Ok(DeviceId(value))
                }
            },
            None => Err(DeviceIdError(String::from_str(raw_idfa))),
        }
    }

    /// The 128-bit value of the identifier.
    pub fn into_inner(self) -> (r: u128)
        ensures
            r == self.spec_value(),
    {
        self.0
    }

    /// The canonical hyphenated text of the identifier; this text is the
    /// identity that variant assignment hashes.
    pub fn to_string(&self) -> (r: String)
        ensures
            r@ == ids::uuid_text(self.spec_value()),
    {
        ids::uuid_to_string(self.0)
    }
}

impl DeviceIdError {
    /// The raw text that was rejected.
    pub fn as_str(&self) -> (r: &str)
        ensures
            r@ == self@,
    {
        self.0.as_str()
    }

    /// The message of the error: the rejected text, marked as no valid
    /// IDFA.
    pub fn to_string(&self) -> (r: String)
        ensures
            r@ == self@ + " is not a valid IDFA"@,
    {
        self.0.clone().concat(" is not a valid IDFA")
    }
}

impl Clone for DeviceIdError {
    fn clone(&self) -> (r: Self)
        ensures
            r == *self,
    {
        DeviceIdError(self.0.clone())
    }
}

impl PartialEq for DeviceIdError {
    fn eq(&self, other: &Self) -> (r: bool) {
        self.0 == other.0
    }
}

impl vstd::std_specs::cmp::PartialEqSpecImpl for DeviceIdError {
    open spec fn obeys_eq_spec() -> bool {
        true
    }

    open spec fn eq_spec(&self, other: &Self) -> bool {
        self@ == other@
    }
}

/// A device: its identifier and the instant it was first observed. Created
/// once, immutable thereafter.
#[derive(Clone, Copy, Debug, PartialEq, Eq, Structural, Hash)]
pub struct Device {
    id: DeviceId,
    created_at: i64,
}

impl Device {
    /// The 128-bit value of the device's identifier.
    pub closed spec fn spec_id(&self) -> u128 {
        self.id.spec_value()
    }

    /// The instant the device was first observed.
    pub closed spec fn spec_created_at(&self) -> i64 {
        self.created_at
    }

    pub fn new(id: DeviceId, created_at: i64) -> (r: Self)
        ensures
            r.spec_id() == id.spec_value(),
            r.spec_created_at() == created_at,
    {
        Device { id, created_at }
    }

    pub fn id(&self) -> (r: &DeviceId)
        ensures
            r.spec_value() == self.spec_id(),
    {
        &self.id
    }

    pub fn created_at(&self) -> (r: i64)
        ensures
            r == self.spec_created_at(),
    {
        self.created_at
    }
}

/// Data required by the domain to create a [`Device`].
#[derive(Clone, Copy, Debug, PartialEq, Eq, Structural, Hash)]
pub struct CreateDeviceRequest {
    id: DeviceId,
}

impl CreateDeviceRequest {
    pub closed spec fn spec_id(&self) -> u128 {
        self.id.spec_value()
    }

    pub fn new(id: DeviceId) -> (r: Self)
        ensures
            r.spec_id() == id.spec_value(),
    {
        CreateDeviceRequest { id }
    }

    pub fn id(&self) -> (r: &DeviceId)
        ensures
            r.spec_value() == self.spec_id(),
    {
        &self.id
    }
}

/// Failure of device creation: the id already exists, or an opaque storage
/// failure.
#[derive(Debug)]
pub enum CreateDeviceError {
    Duplicate { id: DeviceId },
    Unknown(String),
}

/// Failure of a device lookup by id.
#[derive(Debug)]
pub enum GetDeviceByIdError {
    NotFound { id: DeviceId },
    Unknown(String),
}

/// Failure of listing the device population.
#[derive(Debug)]
pub enum GetAllDevicesError {
    Unknown(String),
}

} // verus!
