//! The registry of pools: one pool for each pair of assets, at an address
//! that the two assets determine.
use vstd::prelude::*;

use crate::mapping::Mapping;
use crate::types::{bytes_before, AccountId, Env};

verus! {

/// The hash of a pool's code.
pub type Hash = [u8; 32];

/// A pool was made.
#[derive(Debug, PartialEq, Eq, Clone, Copy)]
pub struct PairCreated {
    pub token_0: AccountId,
    pub token_1: AccountId,
    pub pair: AccountId,
    /// How many pools there are now.
    pub length: u64,
}

/// Why the registry refused a request.
#[derive(Debug, PartialEq, Eq, Clone, Copy, Structural)]
pub enum FactoryError {
    IdenticalAddresses,
    PairExists,
    CallerIsNotFeeSetter,
    ZeroAddress,
}

/// The BLAKE2b hash of 256 bits of `input`.
pub uninterp spec fn blake2x256(input: Seq<u8>) -> Seq<u8>;

/// Hashes `input` with `ink::env::hash_bytes` for `Blake2x256`: the result is
/// the BLAKE2b hash of 256 bits of the input, a function of the input alone.
#[verifier::external_body]
fn hash_blake2x256(input: &Vec<u8>) -> (r: [u8; 32])
    ensures
        r@ == blake2x256(input@),
{
    let mut output = [0u8; 32];
    ink::env::hash_bytes::<ink::env::hash::Blake2x256>(input.as_slice(), &mut output);
    output
}

/// The registry.
#[derive(Clone, Debug)]
pub struct FactoryContract {
    fee_to: AccountId,
    fee_to_setter: AccountId,
    get_pair: Mapping<(AccountId, AccountId), AccountId>,
    all_pairs: Vec<AccountId>,
    pair_contract_code_hash: Hash,
}

/// The state of the registry.
pub struct FactoryView {
    /// Who receives the protocol's fees; the zero account while nobody does.
    pub fee_to: AccountId,
    /// Who may name the receiver of fees.
    pub fee_to_setter: AccountId,
    /// The pool of each ordered pair of assets that has one.
    pub pairs: Map<(AccountId, AccountId), AccountId>,
    /// The pools in the order in which they were made.
    pub all_pairs: Seq<AccountId>,
    pub pair_contract_code_hash: Hash,
}

/// The two assets in the order of their bytes, the smaller first.
pub open spec fn sorted(token_a: AccountId, token_b: AccountId) -> (AccountId, AccountId) {
    if bytes_before(token_a@, token_b@) {
        (token_a, token_b)
    } else {
        (token_b, token_a)
    }
}

/// What stands in the way of a pool for two assets, as far as the assets
/// themselves go.
pub open spec fn creation_error(token_a: AccountId, token_b: AccountId) -> Option<FactoryError> {
    if token_a.spec_is_zero() || token_b.spec_is_zero() {
        Some(FactoryError::ZeroAddress)
    } else if token_a == token_b {
        Some(FactoryError::IdenticalAddresses)
    } else {
        None
    }
}

/// The bytes of the address of the pool of two assets: the hash of the bytes
/// of the first followed by those of the second.
pub open spec fn pair_address_bytes(token_0: AccountId, token_1: AccountId) -> Seq<u8> {
    blake2x256(token_0@ + token_1@)
}

impl FactoryView {
    /// The registry with the pool at `pair` entered for two assets, in both
    /// orders.
    pub open spec fn registered(self, token_0: AccountId, token_1: AccountId, pair: AccountId)
        -> FactoryView {
        FactoryView {
            pairs: self.pairs.insert((token_0, token_1), pair).insert((token_1, token_0), pair),
            all_pairs: self.all_pairs.push(pair),
            ..self
        }
    }

    /// What holds of a registry: somebody may name the receiver of fees, a
    /// pool is entered for both orders of its assets or for neither, and each
    /// pool that is entered is listed.
    pub open spec fn consistent(self) -> bool {
        &&& !self.fee_to_setter.spec_is_zero()
        &&& forall|a: AccountId, b: AccountId| #[trigger]
            self.pairs.dom().contains((a, b)) ==> self.pairs.dom().contains((b, a))
                && self.pairs[(b, a)] == self.pairs[(a, b)] && self.all_pairs.contains(
                self.pairs[(a, b)],
            )
    }
}

impl View for FactoryContract {
    type V = FactoryView;

    closed spec fn view(&self) -> FactoryView {
        FactoryView {
            fee_to: self.fee_to,
            fee_to_setter: self.fee_to_setter,
            pairs: self.get_pair@,
            all_pairs: self.all_pairs@,
            pair_contract_code_hash: self.pair_contract_code_hash,
        }
    }
}

impl FactoryContract {
    /// The table of pools is in order.
    pub closed spec fn table_wf(&self) -> bool {
        self.get_pair.wf()
    }

    /// The registry is in order.
    pub open spec fn wf(&self) -> bool {
        self.table_wf() && self@.consistent()
    }

    /// A registry without pools. `fee_to_setter` may name the receiver of
    /// fees later; until then nobody receives them.
    pub fn new(fee_to_setter: AccountId, pair_code_hash: Hash) -> (r: Self)
        requires
            !fee_to_setter.spec_is_zero(),
        ensures
            r.wf(),
            r@ == (FactoryView {
                fee_to: AccountId::spec_zero(),
                fee_to_setter,
                pairs: Map::empty(),
                all_pairs: Seq::empty(),
                pair_contract_code_hash: pair_code_hash,
            }),
    {
        FactoryContract {
            fee_to: AccountId::zero(),
            fee_to_setter,
            get_pair: Mapping::new(),
            all_pairs: Vec::new(),
            pair_contract_code_hash: pair_code_hash,
        }
    }

    /// Lets only the one who may name the receiver of fees pass.
    pub fn ensure_caller_is_fee_setter(&self, env: &Env) -> (r: Result<(), FactoryError>)
        ensures
            r == (if env.caller != self@.fee_to_setter {
                Err::<(), FactoryError>(FactoryError::CallerIsNotFeeSetter)
            } else {
                Ok::<(), FactoryError>(())
            }),
    {
        if env.caller != self.fee_to_setter {
            return Err(FactoryError::CallerIsNotFeeSetter);
        }
        Ok(())
    }

    /// Refuses two assets of which one is the zero account, or which are the
    /// same.
    pub fn validate_pair_creation(&self, token_a: AccountId, token_b: AccountId) -> (r: Result<
        (),
        FactoryError,
    >)
        ensures
            r == (match creation_error(token_a, token_b) {
                Some(e) => Err::<(), FactoryError>(e),
                None => Ok::<(), FactoryError>(()),
            }),
    {
        if token_a.is_zero() || token_b.is_zero() {
            return Err(FactoryError::ZeroAddress);
        }
        if token_a == token_b {
            return Err(FactoryError::IdenticalAddresses);
        }
        Ok(())
    }

    /// The two assets in the order of their bytes, the smaller first.
    pub fn sort_tokens(&self, token_a: AccountId, token_b: AccountId) -> (r: (
        AccountId,
        AccountId,
    ))
        ensures
            r == sorted(token_a, token_b),
    {
        if token_a.lt(&token_b) {
            (token_a, token_b)
        } else {
            (token_b, token_a)
        }
    }

    /// The address of the pool of two assets: the hash of their bytes, those
    /// of `token_0` first.
    pub fn generate_pair_address(&self, token_0: AccountId, token_1: AccountId) -> (r: AccountId)
        ensures
            r@ == pair_address_bytes(token_0, token_1),
    {
        let mut salt_input: Vec<u8> = Vec::new();
        let first = token_0.to_bytes();
        let second = token_1.to_bytes();
        let mut i: usize = 0;
        while i < 32
            invariant
                i <= 32,
                first == token_0.bytes,
                salt_input@ == token_0@.subrange(0, i as int),
            decreases 32 - i,
        {
            salt_input.push(first[i]);
            assert(salt_input@ =~= token_0@.subrange(0, i + 1));
            i += 1;
        }
        assert(salt_input@ =~= token_0@);
        let mut j: usize = 0;
        while j < 32
            invariant
                j <= 32,
                second == token_1.bytes,
                salt_input@ == token_0@ + token_1@.subrange(0, j as int),
            decreases 32 - j,
        {
            salt_input.push(second[j]);
            assert(salt_input@ =~= token_0@ + token_1@.subrange(0, j + 1));
            j += 1;
        }
        assert(salt_input@ =~= token_0@ + token_1@);
        AccountId { bytes: hash_blake2x256(&salt_input) }
    }

    /// Enters the pool at `pair_address` for two assets, in both orders, and
    /// lists it.
    pub fn register_pair(&mut self, token_0: AccountId, token_1: AccountId, pair_address: AccountId)
        requires
            old(self).wf(),
            !old(self)@.pairs.dom().contains((token_0, token_1)),
        ensures
            final(self).wf(),
            final(self)@ == old(self)@.registered(token_0, token_1, pair_address),
    {
        let ghost before = self@;
        self.get_pair.insert((token_0, token_1), pair_address);
        self.get_pair.insert((token_1, token_0), pair_address);
        self.all_pairs.push(pair_address);
        proof {
            let after = self@;
            assert(after.all_pairs[before.all_pairs.len() as int] == pair_address);
            assert forall|a: AccountId, b: AccountId| #[trigger]
                after.pairs.dom().contains((a, b)) implies after.pairs.dom().contains((b, a))
                && after.pairs[(b, a)] == after.pairs[(a, b)] && after.all_pairs.contains(
                after.pairs[(a, b)],
            ) by {
                if (a, b) == (token_0, token_1) || (a, b) == (token_1, token_0) {
                } else {
                    assert(before.pairs.dom().contains((a, b)));
                    assert(before.pairs.dom().contains((b, a)));
                    let k = choose|k: int|
                        0 <= k < before.all_pairs.len() && before.all_pairs[k] == before.pairs[(
                            a,
                            b,
                        )];
                    assert(after.all_pairs[k] == before.pairs[(a, b)]);
                }
            }
        }
    }

    /// The pool that was made as number `pid`, counting from zero.
    pub fn all_pairs(&self, pid: u64) -> (r: Option<AccountId>)
        ensures
            r == (if pid < self@.all_pairs.len() {
                Some(self@.all_pairs[pid as int])
            } else {
                None
            }),
    {
        if pid < self.all_pairs.len() as u64 {
            Some(self.all_pairs[pid as usize])
        } else {
            None
        }
    }

    /// How many pools there are.
    pub fn all_pairs_length(&self) -> (r: u64)
        ensures
            r == self@.all_pairs.len(),
    {
        self.all_pairs.len() as u64
    }

    /// Who receives the protocol's fees; the zero account while nobody does.
    pub fn fee_to(&self) -> (r: AccountId)
        ensures
            r == self@.fee_to,
    {
        self.fee_to
    }

    /// Who may name the receiver of fees.
    pub fn fee_to_setter(&self) -> (r: AccountId)
        ensures
            r == self@.fee_to_setter,
    {
        self.fee_to_setter
    }

    /// The pool of two assets, in whichever order they are given.
    pub fn get_pair(&self, token_a: AccountId, token_b: AccountId) -> (r: Option<AccountId>)
        requires
            self.wf(),
        ensures
            r == (if self@.pairs.dom().contains((token_a, token_b)) {
                Some(self@.pairs[(token_a, token_b)])
            } else {
                None
            }),
            (r is Some) == self@.pairs.dom().contains((token_b, token_a)),
    {
        match self.get_pair.get(&(token_a, token_b)) {
            Some(pair) => Some(*pair),
            None => None,
        }
    }

    /// The hash of the code that pools are made of.
    pub fn pair_contract_code_hash(&self) -> (r: Hash)
        ensures
            r == self@.pair_contract_code_hash,
    {
        self.pair_contract_code_hash
    }

    /// Makes the pool of two assets: refused where one is the zero account
    /// or both are the same, and where their pool exists. The pool's address
    /// is the hash of the assets' bytes, the smaller asset first.
    pub fn create_pair(&mut self, token_a: AccountId, token_b: AccountId) -> (r: Result<
        (AccountId, PairCreated),
        FactoryError,
    >)
        requires
            old(self).wf(),
        ensures
            final(self).wf(),
            match r {
                Ok((pair, event)) => {
                    &&& creation_error(token_a, token_b) is None
                    &&& !old(self)@.pairs.dom().contains((token_a, token_b))
                    &&& pair@ == pair_address_bytes(
                        sorted(token_a, token_b).0,
                        sorted(token_a, token_b).1,
                    )
                    &&& final(self)@ == old(self)@.registered(
                        sorted(token_a, token_b).0,
                        sorted(token_a, token_b).1,
                        pair,
                    )
                    &&& event == (PairCreated {
                        token_0: sorted(token_a, token_b).0,
                        token_1: sorted(token_a, token_b).1,
                        pair,
                        length: (old(self)@.all_pairs.len() + 1) as u64,
                    })
                },
                Err(e) => {
                    &&& *final(self) == *old(self)
                    &&& e == (match creation_error(token_a, token_b) {
                        Some(e) => e,
                        None => FactoryError::PairExists,
                    })
                    &&& creation_error(token_a, token_b) is None ==> old(self)@.pairs.dom().contains(
                        (token_a, token_b),
                    )
                },
            },
    {
        match self.validate_pair_creation(token_a, token_b) {
            Err(e) => {
                return Err(e);
            },
            Ok(_) => {},
        }
        let (token_0, token_1) = self.sort_tokens(token_a, token_b);
        if self.get_pair.contains(&(token_0, token_1)) {
            return Err(FactoryError::PairExists);
        }
        let pair_address = self.generate_pair_address(token_0, token_1);
        self.register_pair(token_0, token_1, pair_address);
        let event = PairCreated {
            token_0,
            token_1,
            pair: pair_address,
            length: self.all_pairs.len() as u64,
        };
        Ok((pair_address, event))
    }

    /// Names the receiver of the protocol's fees. Only the one who may do
    /// so is heard.
    pub fn set_fee_to(&mut self, env: &Env, fee_to: AccountId) -> (r: Result<(), FactoryError>)
        requires
            old(self).wf(),
        ensures
            final(self).wf(),
            env.caller == old(self)@.fee_to_setter ==> r is Ok && final(self)@ == (FactoryView {
                fee_to,
                ..old(self)@
            }),
            env.caller != old(self)@.fee_to_setter ==> r == Err::<(), FactoryError>(
                FactoryError::CallerIsNotFeeSetter,
            ) && *final(self) == *old(self),
    {
        match self.ensure_caller_is_fee_setter(env) {
            Err(e) => {
                return Err(e);
            },
            Ok(_) => {},
        }
        self.fee_to = fee_to;
        Ok(())
    }

    /// Hands the right to name the receiver of fees to another, who cannot
    /// be the zero account. Only the one who has the right is heard.
    pub fn set_fee_to_setter(&mut self, env: &Env, fee_to_setter: AccountId) -> (r: Result<
        (),
        FactoryError,
    >)
        requires
            old(self).wf(),
        ensures
            final(self).wf(),
            match r {
                Ok(_) => env.caller == old(self)@.fee_to_setter && !fee_to_setter.spec_is_zero()
                    && final(self)@ == (FactoryView { fee_to_setter, ..old(self)@ }),
                Err(e) => *final(self) == *old(self) && e == (if env.caller != old(self)@.fee_to_setter {
                    FactoryError::CallerIsNotFeeSetter
                } else {
                    FactoryError::ZeroAddress
                }) && (env.caller != old(self)@.fee_to_setter || fee_to_setter.spec_is_zero()),
            },
    {
        match self.ensure_caller_is_fee_setter(env) {
            Err(e) => {
                return Err(e);
            },
            Ok(_) => {},
        }
        if fee_to_setter.is_zero() {
            return Err(FactoryError::ZeroAddress);
        }
        self.fee_to_setter = fee_to_setter;
        Ok(())
    }
}

} // verus!
