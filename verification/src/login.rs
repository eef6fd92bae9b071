//! Identities and permission sets.

use vstd::prelude::*;

verus! {

/// The identifier of a user in the user directory.
pub type UserId = u64;

/// The identifier of the root user, who speaks on the control channel.
pub const ROOT_ID: UserId = 0;

/// The identifier of the guest user, who stands for unauthenticated peers.
pub const GUEST_ID: UserId = 1;

/// A set of account permissions, one bit per permission.
#[derive(Clone, Copy, Debug, PartialEq, Eq, Hash, Structural)]
pub struct Permissions(pub u8);

impl View for Permissions {
    type V = u8;

    open spec fn view(&self) -> u8 {
        self.0
    }
}

impl Permissions {
    /// The empty set.
    pub fn none() -> (r: Permissions)
        ensures
            r@ == 0x00,
    {
        Permissions(0x00)
    }

    /// The set of all permissions.
    pub fn all() -> (r: Permissions)
        ensures
            r@ == 0xFF,
    {
        Permissions(0xFF)
    }

    /// Whether a set with bits `have` includes every bit of `req`.
    pub open spec fn includes(have: u8, req: u8) -> bool {
        have & req == req
    }

    /// Whether this set holds (at least) every permission in `req`.
    pub fn has(&self, req: u8) -> (r: bool)
        ensures
            r == Self::includes(self@, req),
    {
        (self.0 & req) == req
    }
}

impl std::ops::BitOr for Permissions {
    type Output = Permissions;

    /// Both sets together.
    fn bitor(self, rhs: Permissions) -> (r: Permissions)
        ensures
            r@ == self@ | rhs@,
    {
        Permissions(self.0 | rhs.0)
    }
}

impl vstd::std_specs::ops::BitOrSpecImpl for Permissions {
    open spec fn obeys_bitor_spec() -> bool {
        true
    }

    open spec fn bitor_req(self, rhs: Permissions) -> bool {
        true
    }

    open spec fn bitor_spec(self, rhs: Permissions) -> Permissions {
        Permissions(self.0 | rhs.0)
    }
}

impl std::ops::BitOr<u8> for Permissions {
    type Output = Permissions;

    /// The set with the permissions of `rhs` added.
    fn bitor(self, rhs: u8) -> (r: Permissions)
        ensures
            r@ == self@ | rhs,
    {
        Permissions(self.0 | rhs)
    }
}

impl vstd::std_specs::ops::BitOrSpecImpl<u8> for Permissions {
    open spec fn obeys_bitor_spec() -> bool {
        true
    }

    open spec fn bitor_req(self, rhs: u8) -> bool {
        true
    }

    open spec fn bitor_spec(self, rhs: u8) -> Permissions {
        Permissions(self.0 | rhs)
    }
}

impl std::ops::BitOrAssign for Permissions {
    /// Adds the permissions of `rhs` to this set.
    fn bitor_assign(&mut self, rhs: Permissions)
        ensures
            final(self)@ == old(self)@ | rhs@,
    {
        self.0 = self.0 | rhs.0;
    }
}

impl std::ops::BitOrAssign<u8> for Permissions {
    /// Adds the permissions of `rhs` to this set.
    fn bitor_assign(&mut self, rhs: u8)
        ensures
            final(self)@ == old(self)@ | rhs,
    {
        self.0 = self.0 | rhs;
    }
}

impl From<u8> for Permissions {
    fn from(value: u8) -> (r: Permissions)
        ensures
            r@ == value,
    {
        Permissions(value)
    }
}

impl vstd::std_specs::convert::FromSpecImpl<u8> for Permissions {
    open spec fn obeys_from_spec() -> bool {
        true
    }

    open spec fn from_spec(value: u8) -> Permissions {
        Permissions(value)
    }
}

impl From<Permissions> for u8 {
    fn from(value: Permissions) -> (r: u8)
        ensures
            r == value@,
    {
        value.0
    }
}

impl vstd::std_specs::convert::FromSpecImpl<Permissions> for u8 {
    open spec fn obeys_from_spec() -> bool {
        true
    }

    open spec fn from_spec(value: Permissions) -> u8 {
        value.0
    }
}

/// A set holds what it was put together from, and what it holds of a
/// request it holds of every part of the request.
pub proof fn law_permissions(have: u8, more: u8, req: u8)
    ensures
        Permissions::includes(have | more, have),
        Permissions::includes(have | more, more),
        Permissions::includes(have, 0),
        Permissions::includes(0xFF, req),
        Permissions::includes(have, req | more) <==> Permissions::includes(have, req)
            && Permissions::includes(have, more),
        Permissions::includes(0x00u8 | 0x05u8, 0x01),
        !Permissions::includes(0x00u8 | 0x05u8, 0x02),
{
    assert((have | more) & have == have) by (bit_vector);
    assert((have | more) & more == more) by (bit_vector);
    assert(have & 0 == 0) by (bit_vector);
    assert(0xFFu8 & req == req) by (bit_vector);
    assert(have & (req | more) == (req | more) <==> have & req == req && have & more == more)
        by (bit_vector);
    assert((0x00u8 | 0x05u8) & 0x01u8 == 0x01u8) by (bit_vector);
    assert((0x00u8 | 0x05u8) & 0x02u8 != 0x02u8) by (bit_vector);
}

} // verus!
