//! Account identifiers and the values that accompany every call.
use vstd::prelude::*;

use crate::mapping::MapKey;

verus! {

/// An amount of an asset or of liquidity shares.
pub type Balance = u128;

/// Seconds on the host's clock.
pub type Timestamp = u64;

/// A 32-byte account identifier.
#[derive(Clone, Copy, Debug)]
pub struct AccountId {
    pub bytes: [u8; 32],
}

/// `a` comes before `b` in the order of their bytes, first byte first.
pub open spec fn bytes_before(a: Seq<u8>, b: Seq<u8>) -> bool {
    exists|i: int|
        0 <= i < a.len() && i < b.len() && #[trigger] a[i] < b[i] && forall|j: int|
            0 <= j < i ==> a[j] == b[j]
}

impl PartialEq for AccountId {
    fn eq(&self, other: &Self) -> (r: bool) {
        let mut i: usize = 0;
        while i < 32
            invariant
                i <= 32,
                forall|j: int| 0 <= j < i ==> self.bytes[j] == other.bytes[j],
            decreases 32 - i,
        {
            if self.bytes[i] != other.bytes[i] {
                return false;
            }
            i += 1;
        }
        assert(self.bytes =~= other.bytes);
        true
    }
}

impl Eq for AccountId {

}

impl vstd::std_specs::cmp::PartialEqSpecImpl for AccountId {
    open spec fn obeys_eq_spec() -> bool {
        true
    }

    open spec fn eq_spec(&self, other: &Self) -> bool {
        *self == *other
    }
}

impl From<[u8; 32]> for AccountId {
    fn from(bytes: [u8; 32]) -> (r: Self) {
        AccountId { bytes }
    }
}

impl vstd::std_specs::convert::FromSpecImpl<[u8; 32]> for AccountId {
    open spec fn obeys_from_spec() -> bool {
        true
    }

    open spec fn from_spec(bytes: [u8; 32]) -> Self {
        AccountId { bytes }
    }
}

impl View for AccountId {
    type V = Seq<u8>;

    open spec fn view(&self) -> Seq<u8> {
        self.bytes@
    }
}

impl AccountId {
    /// The account whose bytes are all zero.
    pub open spec fn spec_zero() -> AccountId {
        AccountId { bytes: vstd::array::spec_array_fill_for_copy_type::<u8, 32>(0u8) }
    }

    /// Whether every byte is zero.
    pub open spec fn spec_is_zero(&self) -> bool {
        forall|i: int| 0 <= i < 32 ==> self.bytes[i] == 0u8
    }

    /// The account whose bytes are all zero: nobody holds its key.
    #[verifier::when_used_as_spec(spec_zero)]
    pub fn zero() -> (r: AccountId)
        ensures
            r == Self::spec_zero(),
            r.spec_is_zero(),
    {
        AccountId { bytes: [0u8; 32] }
    }

    /// Whether this is the zero account.
    #[verifier::when_used_as_spec(spec_is_zero)]
    pub fn is_zero(&self) -> (r: bool)
        ensures
            r == self.spec_is_zero(),
            r == (*self == Self::spec_zero()),
    {
        proof {
            Self::lemma_zero_is_zero(*self);
        }
        let mut i: usize = 0;
        while i < 32
            invariant
                i <= 32,
                forall|j: int| 0 <= j < i ==> self.bytes[j] == 0u8,
            decreases 32 - i,
        {
            if self.bytes[i] != 0 {
                return false;
            }
            i += 1;
        }
        true
    }

    /// An account is the zero account exactly when all its bytes are zero.
    pub proof fn lemma_zero_is_zero(a: AccountId)
        ensures
            a.spec_is_zero() <==> a == Self::spec_zero(),
            Self::spec_zero().spec_is_zero(),
    {
        let z = Self::spec_zero();
        assert(forall|i: int| 0 <= i < 32 ==> z.bytes[i] == 0u8);
        if a.spec_is_zero() {
            assert(a.bytes =~= z.bytes);
        }
    }

    /// The bytes of the account.
    pub fn to_bytes(&self) -> (r: [u8; 32])
        ensures
            r == self.bytes,
    {
        self.bytes
    }

    /// Whether `self` comes before `other` in the order of their bytes.
    pub fn lt(&self, other: &AccountId) -> (r: bool)
        ensures
            r == bytes_before(self@, other@),
    {
        let mut i: usize = 0;
        while i < 32
            invariant
                i <= 32,
                forall|j: int| 0 <= j < i ==> self.bytes[j] == other.bytes[j],
            decreases 32 - i,
        {
            if self.bytes[i] < other.bytes[i] {
                assert(self@[i as int] < other@[i as int]);
                return true;
            }
            if self.bytes[i] > other.bytes[i] {
                assert(!bytes_before(self@, other@)) by {
                    if bytes_before(self@, other@) {
                        let k = choose|k: int|
                            0 <= k < 32 && #[trigger] self@[k] < other@[k] && forall|j: int|
                                0 <= j < k ==> self@[j] == other@[j];
                        if k < i {
                            assert(self.bytes[k] == other.bytes[k]);
                        } else if k > i {
                            assert(self@[i as int] == other@[i as int]);
                        }
                    }
                }
                return false;
            }
            i += 1;
        }
        assert(!bytes_before(self@, other@)) by {
            if bytes_before(self@, other@) {
                let k = choose|k: int|
                    0 <= k < 32 && #[trigger] self@[k] < other@[k] && forall|j: int|
                        0 <= j < k ==> self@[j] == other@[j];
                assert(self.bytes[k] == other.bytes[k]);
            }
        }
        false
    }
}

impl MapKey for AccountId {
    fn same_key(&self, other: &Self) -> (r: bool) {
        *self == *other
    }
}

impl MapKey for (AccountId, AccountId) {
    fn same_key(&self, other: &Self) -> (r: bool) {
        self.0 == other.0 && self.1 == other.1
    }
}

impl MapKey for (u32, AccountId) {
    fn same_key(&self, other: &Self) -> (r: bool) {
        self.0 == other.0 && self.1 == other.1
    }
}

impl MapKey for u32 {
    fn same_key(&self, other: &Self) -> (r: bool) {
        *self == *other
    }
}

/// What the host tells an operation about the call it serves.
#[derive(Clone, Copy, Debug)]
pub struct Env {
    /// Who makes the call.
    pub caller: AccountId,
    /// The host's clock at the call.
    pub block_timestamp: Timestamp,
    /// Native value sent along with the call.
    pub transferred_value: Balance,
    /// Native value that the called contract holds, the value sent along included.
    pub balance: Balance,
}

} // verus!
