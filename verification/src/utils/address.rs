//! Zero-address rejection and address ordering checks.
use crate::types::{addr_lt, Address, ContractError};
use vstd::prelude::*;

verus! {

/// The Stellar "zero" account address (strkey of an all-zero public key).
pub const ZERO_ADDRESS_STR: &'static str = "GAAAAAAAAAAAAAAAAAAAAAAAAAAAAAAAAAAAAAAAAAAAAAAAAAAAAWHF";

/// Rejects the zero account address with `InvalidAddress`.
pub fn validate_address(address: &Address) -> (r: Result<(), ContractError>)
    ensures
        r == (if address.spec_is_zero() {
            Err(ContractError::InvalidAddress)
        } else {
            Ok(())
        }),
{
    if address.is_zero() {
        return Err(ContractError::InvalidAddress);
    }
    Ok(())
}

/// Every address is strictly greater than its predecessor.
pub open spec fn strictly_sorted(s: Seq<Address>) -> bool {
    forall|i: int| 1 <= i < s.len() ==> addr_lt(s[i - 1], #[trigger] s[i])
}

/// Returns `true` iff `addrs` is strictly ascending (so has no duplicates).
pub fn is_strictly_sorted_addresses(addrs: &Vec<Address>) -> (b: bool)
    ensures
        b == strictly_sorted(addrs@),
{
    if addrs.len() < 2 {
        return true;
    }
    let mut i: usize = 1;
    while i < addrs.len()
        invariant
            1 <= i <= addrs@.len(),
            forall|j: int| 1 <= j < i ==> addr_lt(addrs@[j - 1], #[trigger] addrs@[j]),
        decreases addrs@.len() - i,
    {
        if !crate::types::addr_less(&addrs[i - 1], &addrs[i]) {
            assert(!addr_lt(addrs@[i - 1], addrs@[i as int]));
            return false;
        }
        i += 1;
    }
    true
}

/// In a strictly sorted list, earlier addresses are smaller than later ones.
pub proof fn lemma_sorted_pairwise(s: Seq<Address>, i: int, j: int)
    requires
        strictly_sorted(s),
        0 <= i < j < s.len(),
    ensures
        addr_lt(s[i], s[j]),
    decreases j - i,
{
    if j == i + 1 {
        assert(addr_lt(s[j - 1], s[j]));
    } else {
        lemma_sorted_pairwise(s, i, j - 1);
        assert(addr_lt(s[j - 1], s[j]));
    }
}

/// A strictly sorted list has no repeated address.
pub proof fn lemma_sorted_no_duplicates(s: Seq<Address>)
    requires
        strictly_sorted(s),
    ensures
        s.no_duplicates(),
{
    assert forall|i: int, j: int| 0 <= i < s.len() && 0 <= j < s.len() && i != j implies s[i]
        != s[j] by {
        if i < j {
            lemma_sorted_pairwise(s, i, j);
        } else {
            lemma_sorted_pairwise(s, j, i);
        }
    }
}

} // verus!
