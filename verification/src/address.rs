//! Addresses on the ledger: thirty-two bytes that name an account, a caller
//! or a program.

use vstd::prelude::*;

verus! {

/// The address of an account, of a caller or of a program.
#[derive(Clone, Copy, Debug, Eq)]
pub struct Address {
    pub bytes: [u8; 32],
}

impl View for Address {
    type V = Seq<u8>;

    open spec fn view(&self) -> Seq<u8> {
        self.bytes@
    }
}

impl PartialEq for Address {
    fn eq(&self, other: &Address) -> (r: bool) {
        let mut i: usize = 0;
        while i < 32
            invariant
                i <= 32,
                forall|j: int| 0 <= j < i ==> self.bytes[j] == other.bytes[j],
            decreases 32 - i,
        {
            if self.bytes[i] != other.bytes[i] {
                return false;
            }
            i += 1;
        }
        assert(self.bytes =~= other.bytes);
        true
    }
}

impl vstd::std_specs::cmp::PartialEqSpecImpl for Address {
    open spec fn obeys_eq_spec() -> bool {
        true
    }

    open spec fn eq_spec(&self, other: &Address) -> bool {
        *self == *other
    }
}

/// Two addresses with the same bytes are the same address.
pub proof fn lemma_address_by_bytes(a: Address, b: Address)
    requires
        a@ == b@,
    ensures
        a == b,
{
    assert(a.bytes =~= b.bytes);
}

/// The bytes of the address under which this program is deployed.
pub const PROGRAM_ID: [u8; 32] = [
    37, 218, 46, 23, 80, 194, 186, 135, 200, 81, 123, 255, 113, 144, 188, 62,
    80, 148, 59, 10, 122, 209, 55, 234, 100, 169, 214, 142, 17, 224, 54, 141,
];

/// The address under which this program is deployed.
pub open spec fn program_id() -> Address {
    Address { bytes: PROGRAM_ID }
}

/// The address under which this program is deployed.
pub fn id() -> (r: Address)
    ensures
        r == program_id(),
{
    Address { bytes: PROGRAM_ID }
}

/// The bytes of the system program's address.
pub const SYSTEM_PROGRAM_ID: [u8; 32] = [
    0, 0, 0, 0, 0, 0, 0, 0, 0, 0, 0, 0, 0, 0, 0, 0,
    0, 0, 0, 0, 0, 0, 0, 0, 0, 0, 0, 0, 0, 0, 0, 0,
];

/// The address of the system program, which holds every account that carries
/// value and no data.
pub open spec fn system_program_id() -> Address {
    Address { bytes: SYSTEM_PROGRAM_ID }
}

/// The address of the system program.
pub fn system_program() -> (r: Address)
    ensures
        r == system_program_id(),
{
    Address { bytes: SYSTEM_PROGRAM_ID }
}

} // verus!
