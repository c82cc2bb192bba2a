//! The outside items that the marketplace relies on: bounded byte vectors and
//! the derivation of an account from a pallet identifier. Nothing stated in
//! this file is proved; each contract records what the outside code does.

use frame_support::pallet_prelude::ConstU32;
use frame_support::sp_runtime::traits::AccountIdConversion;
use frame_support::BoundedVec;
use frame_support::PalletId;
use vstd::prelude::*;

verus! {

#[verifier::external_type_specification]
#[verifier::external_body]
#[verifier::reject_recursive_types(T)]
#[verifier::reject_recursive_types(S)]
pub struct ExBoundedVec<T, S>(BoundedVec<T, S>);

#[verifier::external_type_specification]
#[verifier::external_body]
pub struct ExConstU32<const N: u32>(ConstU32<N>);

/// `Clone::clone` of `BoundedVec`, which clones the vector inside and keeps
/// the bound. Nothing is claimed of the copy: it is declared so that types
/// holding a bounded vector can derive `Clone`, and the marketplace itself
/// moves bounded vectors without copying them.
pub assume_specification<T, S>[ <BoundedVec<T, S> as Clone>::clone ](
    v: &BoundedVec<T, S>,
) -> BoundedVec<T, S> where T: Clone
;

/// The bytes that a bounded byte vector holds, in order.
pub uninterp spec fn bounded_bytes(v: BoundedVec<u8, ConstU32<99>>) -> Seq<u8>;

/// `Deref::deref` of `BoundedVec`: a shared reference to the vector inside,
/// which holds exactly the bytes of the bounded vector.
#[verifier::external_body]
pub(crate) fn bounded_as_vec(v: &BoundedVec<u8, ConstU32<99>>) -> (inner: &Vec<u8>)
    ensures
        inner@ == bounded_bytes(*v),
{
    core::ops::Deref::deref(v)
}

/// The account that a pallet identifier stands for when accounts are 64-bit
/// numbers: the little-endian number made of the four bytes `modl` followed
/// by the first four bytes of the identifier.
pub open spec fn pallet_account_of(id: Seq<u8>) -> int {
    0x6d + 0x6f * 0x100 + 0x64 * 0x1_0000 + 0x6c * 0x100_0000 + id[0] * 0x1_0000_0000 + id[1]
        * 0x100_0000_0000 + id[2] * 0x1_0000_0000_0000 + id[3] * 0x100_0000_0000_0000
}

/// `AccountIdConversion::into_account_truncating` on a `PalletId`, decoded as
/// a `u64`. The seed is the type tag `modl`, then the identifier; decoding a
/// `u64` reads the first eight bytes of it, least significant byte first.
#[verifier::external_body]
pub(crate) fn pallet_account(id: &[u8; 8]) -> (account: u64)
    ensures
        account == pallet_account_of(id@),
{
    PalletId(*id).into_account_truncating()
}

} // verus!
