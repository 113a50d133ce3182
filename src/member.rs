use vstd::prelude::*;
use crate::entity::Balances;
use crate::error::RegistryError;
use crate::pubkey::Pubkey;

verus! {

/// A sub-ledger of a member, controlled by one authority.
#[derive(Clone, Copy, Debug)]
pub struct Book {
    pub owner: Pubkey,
    pub balances: Balances,
}

/// The two sub-ledgers of a member.
#[derive(Clone, Copy, Debug)]
pub struct MemberBooks {
    /// Controlled by the beneficiary.
    pub main: Book,
    /// Controlled by a delegate with restricted rights.
    pub delegate: Book,
}

impl MemberBooks {
    pub open spec fn book_of(self, is_delegate: bool) -> Book {
        if is_delegate {
            self.delegate
        } else {
            self.main
        }
    }

    /// The delegate's sub-ledger when `is_delegate`, else the beneficiary's.
    pub fn book(&self, is_delegate: bool) -> (r: &Book)
        ensures
            *r == self.book_of(is_delegate),
    {
        if is_delegate {
            &self.delegate
        } else {
            &self.main
        }
    }

    pub fn main(&self) -> (r: &Book)
        ensures
            *r == self.main,
    {
        &self.main
    }

    pub fn delegate(&self) -> (r: &Book)
        ensures
            *r == self.delegate,
    {
        &self.delegate
    }
}

/// A staker's account with one entity.
#[derive(Clone, Copy, Debug)]
pub struct Member {
    pub initialized: bool,
    /// The entity this member stakes with.
    pub entity: Pubkey,
    /// The primary authority of the member.
    pub beneficiary: Pubkey,
    pub books: MemberBooks,
}

impl Member {
    /// The member with the balances of one sub-ledger replaced.
    pub open spec fn with_book_balances(self, is_delegate: bool, b: Balances) -> Member {
        if is_delegate {
            Member {
                books: MemberBooks {
                    delegate: Book { balances: b, ..self.books.delegate },
                    ..self.books
                },
                ..self
            }
        } else {
            Member {
                books: MemberBooks { main: Book { balances: b, ..self.books.main }, ..self.books },
                ..self
            }
        }
    }

    /// The stake intent of one class in one sub-ledger.
    pub open spec fn intent_of(self, mega: bool, is_delegate: bool) -> u64 {
        self.books.book_of(is_delegate).balances.intent_of(mega)
    }

    /// The member after a deposit of `amount` into one sub-ledger's stake
    /// intent of one class.
    pub open spec fn add_stake_intent_spec(
        self,
        amount: u64,
        mega: bool,
        is_delegate: bool,
    ) -> Member {
        let b = self.books.book_of(is_delegate).balances;
        self.with_book_balances(is_delegate, b.with_intent(mega, b.intent_of(mega) + amount))
    }

    /// Records a deposit in the stake intent of one class, in the delegate's
    /// sub-ledger or the beneficiary's.
    pub fn add_stake_intent(&mut self, amount: u64, mega: bool, is_delegate: bool) -> (r: Result<
        (),
        RegistryError,
    >)
        ensures
            old(self).intent_of(mega, is_delegate) + amount > u64::MAX ==> r == Err::<
                (),
                RegistryError,
            >(RegistryError::ArithmeticOverflow) && *final(self) == *old(self),
            old(self).intent_of(mega, is_delegate) + amount <= u64::MAX ==> r is Ok && *final(self)
                == old(self).add_stake_intent_spec(amount, mega, is_delegate),
    {
        let book = if is_delegate {
            &mut self.books.delegate
        } else {
            &mut self.books.main
        };
        if mega {
            if book.balances.mega_stake_intent > u64::MAX - amount {
                return Err(RegistryError::ArithmeticOverflow);
            }
            book.balances.mega_stake_intent = book.balances.mega_stake_intent + amount;
        } else {
            if book.balances.stake_intent > u64::MAX - amount {
                return Err(RegistryError::ArithmeticOverflow);
            }
            book.balances.stake_intent = book.balances.stake_intent + amount;
        }
        Ok(())
    }
}

} // verus!
