//! Motor addresses.
use crate::lkmotor::error::Error;
use vstd::prelude::*;

verus! {

/// A motor address, `1..=32`.
#[derive(Debug, Clone, Copy, PartialEq, Eq, Hash)]
pub struct MotorId(u8);

impl View for MotorId {
    type V = u8;

    closed spec fn view(&self) -> u8 {
        self.0
    }
}

/// Whether `id` is a motor address.
pub open spec fn is_motor_id(id: u8) -> bool {
    1 <= id <= MotorId::MAX
}

impl MotorId {
    /// The highest address.
    pub const MAX: u8 = 32;

    #[verifier::type_invariant]
    spec fn in_range(self) -> bool {
        is_motor_id(self.0)
    }

    /// The address `id`, if it is one.
    pub fn new(id: u8) -> (r: Option<Self>)
        ensures
            r is Some <==> is_motor_id(id),
            r matches Some(m) ==> m@ == id,
    {
        if id == 0 || id > Self::MAX {
            None
        } else {
            Some(MotorId(id))
        }
    }

    /// The address `id`, or [`Error::InvalidMotorId`].
    pub fn try_from_u8(id: u8) -> (r: Result<Self, Error>)
        ensures
            match r {
                Ok(m) => is_motor_id(id) && m@ == id,
                Err(e) => !is_motor_id(id) && e == Error::InvalidMotorId(id),
            },
    {
        match Self::new(id) {
            Some(m) => Ok(m),
            None => Err(Error::InvalidMotorId(id)),
        }
    }

    /// The address byte.
    pub fn get(self) -> (r: u8)
        ensures
            r == self@,
            is_motor_id(r),
    {
        proof {
            use_type_invariant(&self);
        }
        self.0
    }
}

impl vstd::std_specs::convert::FromSpecImpl<MotorId> for u8 {
    open spec fn obeys_from_spec() -> bool {
        true
    }

    open spec fn from_spec(id: MotorId) -> u8 {
        id@
    }
}

impl From<MotorId> for u8 {
    fn from(id: MotorId) -> (r: u8) {
        id.0
    }
}

/// The addresses are 1 to 32.
pub proof fn law_which_ids_are_addresses(id: u8)
    ensures
        is_motor_id(id) <==> 0 < id < 33,
{
}

} // verus!
