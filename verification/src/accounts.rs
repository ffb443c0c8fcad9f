use vstd::prelude::*;

use solana_program::account_info::AccountInfo;

use crate::errors::VrfError;

verus! {

/// `AccountInfo` is the host runtime's reference to one account of the
/// invocation's account list. Its contents are opaque here; only the trusted
/// wrappers of the oracle client read it.
#[verifier::external_type_specification]
#[verifier::external_body]
pub struct ExAccountInfo<'a>(AccountInfo<'a>);

/// The account resolver: walks the invocation's ordered account list from
/// the front, consuming exactly one reference per resolution.
pub struct AccountCursor<'a, 'b> {
    accounts: &'b [AccountInfo<'a>],
    next: usize,
}

impl<'a, 'b> AccountCursor<'a, 'b> {
    /// The full account list the cursor walks.
    pub closed spec fn account_seq(self) -> Seq<AccountInfo<'a>> {
        self.accounts@
    }

    /// How many references have been consumed from the front.
    pub closed spec fn position(self) -> int {
        self.next as int
    }

    pub open spec fn wf(self) -> bool {
        0 <= self.position() <= self.account_seq().len()
    }

    /// Start walking `accounts` at its front.
    pub fn new(accounts: &'b [AccountInfo<'a>]) -> (c: Self)
        ensures
            c.account_seq() == accounts@,
            c.position() == 0,
            c.wf(),
    {
        AccountCursor { accounts, next: 0 }
    }

    /// Consume one account reference from the front of the list. Fails with
    /// `MissingAccount` exactly when the list is exhausted; the account's
    /// contents are neither read nor validated here.
    pub fn resolve_next(&mut self) -> (r: Result<&'b AccountInfo<'a>, VrfError>)
        requires
            old(self).wf(),
        ensures
            final(self).wf(),
            final(self).account_seq() == old(self).account_seq(),
            r is Ok <==> old(self).position() < old(self).account_seq().len(),
            r is Ok ==> *r->Ok_0 == old(self).account_seq()[old(self).position()]
                && final(self).position() == old(self).position() + 1,
            r is Err ==> r->Err_0 == VrfError::MissingAccount
                && final(self).position() == old(self).position(),
    {
        if self.next < self.accounts.len() {
            let account = vstd::slice::slice_index_get(self.accounts, self.next);
            self.next = self.next + 1;
            Ok(account)
        } else {
            Err(VrfError::MissingAccount)
        }
    }
}

} // verus!
