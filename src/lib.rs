//! An escrow ledger entry: a small state machine that guards one balance
//! on behalf of a buyer and a seller.
//!
//! The entry moves along three edges only:
//! `AwaitingPayment --deposit--> AwaitingDelivery`,
//! `AwaitingDelivery --confirm_delivery--> Completed` and
//! `AwaitingDelivery --refund_buyer--> Refunded`.
//! Each operation checks the current state first, then the sender, then
//! (for a deposit) the amount, and a failed operation changes nothing.
use vstd::prelude::*;

pub mod laws;

verus! {

/// Why an operation on an [`Escrow`] was turned down.
#[derive(Debug, PartialEq)]
pub enum EscrowError {
    /// The sender is not the party that may perform the operation.
    Unauthorized,
    /// The operation is not allowed in the current state; the text says
    /// which state it needs.
    InvalidState(String),
    /// The deposited amount differs from the amount the agreement requires
    /// (too little or too much).
    InsufficientFunds,
    /// Reserved for hosts that guard construction against re-entry.
    AlreadyInitialized,
}

/// The lifecycle state of an [`Escrow`].
#[derive(Debug, PartialEq, Eq, Structural, Clone, Copy)]
pub enum EscrowState {
    AwaitingPayment,
    AwaitingDelivery,
    Completed,
    Refunded,
}

/// Message carried by `InvalidState` when a deposit comes too late.
pub const DEPOSIT_STATE_MESSAGE: &'static str = "Deposit only allowed in AwaitingPayment state";

/// Message carried by `InvalidState` when delivery is confirmed before a deposit.
pub const CONFIRM_STATE_MESSAGE: &'static str = "Cannot confirm delivery unless funds are deposited";

/// Message carried by `InvalidState` when a refund is asked while no funds are held.
pub const REFUND_STATE_MESSAGE: &'static str = "Can only refund when funds are held";

/// One escrow agreement: who pays, who is paid, the agreed amount, the
/// amount currently held and where the agreement stands.
pub struct Escrow {
    pub buyer: String,
    pub seller: String,
    pub arbiter: Option<String>,
    pub amount: u64,
    pub balance: u64,
    pub state: EscrowState,
}

impl EscrowState {
    /// Completed and Refunded have no outgoing edge.
    pub open spec fn is_terminal(self) -> bool {
        self is Completed || self is Refunded
    }
}

impl EscrowState {
    /// The edges of the lifecycle: `from` may be followed directly by `to`.
    pub open spec fn is_edge(from: EscrowState, to: EscrowState) -> bool {
        ||| from is AwaitingPayment && to is AwaitingDelivery
        ||| from is AwaitingDelivery && to is Completed
        ||| from is AwaitingDelivery && to is Refunded
    }
}

impl Escrow {
    /// The balance held is the agreed amount while delivery is awaited,
    /// and zero in every other state.
    pub open spec fn wf(&self) -> bool {
        if self.state is AwaitingDelivery {
            self.balance == self.amount
        } else {
            self.balance == 0
        }
    }

    /// The same agreement (parties, arbiter and amount) as `other`.
    pub open spec fn same_terms(&self, other: &Escrow) -> bool {
        &&& self.buyer@ == other.buyer@
        &&& self.seller@ == other.seller@
        &&& self.arbiter == other.arbiter
        &&& self.amount == other.amount
    }

    /// When a deposit of `amount` by `sender` is accepted.
    pub open spec fn can_deposit(&self, sender: Seq<char>, amount: u64) -> bool {
        &&& self.state is AwaitingPayment
        &&& sender == self.buyer@
        &&& amount == self.amount
    }

    /// When `sender` may confirm delivery.
    pub open spec fn can_confirm_delivery(&self, sender: Seq<char>) -> bool {
        &&& self.state is AwaitingDelivery
        &&& sender == self.buyer@
    }

    /// When `sender` may refund the buyer.
    pub open spec fn can_refund_buyer(&self, sender: Seq<char>) -> bool {
        &&& self.state is AwaitingDelivery
        &&& sender == self.seller@
    }

    /// The entry after a deposit of `amount` by `sender`; unchanged when the
    /// deposit is turned down.
    pub open spec fn after_deposit(self, sender: Seq<char>, amount: u64) -> Escrow {
        if self.can_deposit(sender, amount) {
            Escrow { balance: self.amount, state: EscrowState::AwaitingDelivery, ..self }
        } else {
            self
        }
    }

    /// The entry after `sender` confirms delivery; unchanged when turned down.
    pub open spec fn after_confirm_delivery(self, sender: Seq<char>) -> Escrow {
        if self.can_confirm_delivery(sender) {
            Escrow { balance: 0, state: EscrowState::Completed, ..self }
        } else {
            self
        }
    }

    /// The entry after `sender` asks to refund the buyer; unchanged when
    /// turned down.
    pub open spec fn after_refund_buyer(self, sender: Seq<char>) -> Escrow {
        if self.can_refund_buyer(sender) {
            Escrow { balance: 0, state: EscrowState::Refunded, ..self }
        } else {
            self
        }
    }

    /// A new agreement between `buyer` and `seller` for `amount`, awaiting
    /// payment, with nothing held and no arbiter.
    pub fn new(buyer: String, seller: String, amount: u64) -> (r: Self)
        ensures
            r.buyer == buyer,
            r.seller == seller,
            r.arbiter is None,
            r.amount == amount,
            r.balance == 0,
            r.state == EscrowState::AwaitingPayment,
            r.wf(),
    {
        Escrow {
            buyer,
            seller,
            arbiter: None,
            amount,
            balance: 0,
            state: EscrowState::AwaitingPayment,
        }
    }

    /// Records a deposit of `amount` by `sender`.
    ///
    /// Turned down with `InvalidState` unless the entry awaits payment, then
    /// with `Unauthorized` unless the sender is the buyer, then with
    /// `InsufficientFunds` unless `amount` is exactly the agreed amount.
    /// On success the agreed amount is held and delivery is awaited; on
    /// failure nothing changes.
    pub fn deposit(&mut self, sender: &str, amount: u64) -> (r: Result<(), EscrowError>)
        ensures
            *final(self) == old(self).after_deposit(sender@, amount),
            r is Ok <==> old(self).can_deposit(sender@, amount),
            r is Ok ==> final(self).state == EscrowState::AwaitingDelivery
                && final(self).balance == old(self).amount,
            r is Err ==> *final(self) == *old(self),
            !(old(self).state is AwaitingPayment) ==> (r matches Err(EscrowError::InvalidState(m))
                && m@ == DEPOSIT_STATE_MESSAGE@),
            old(self).state is AwaitingPayment && sender@ != old(self).buyer@
                ==> r == Err::<(), EscrowError>(EscrowError::Unauthorized),
            old(self).state is AwaitingPayment && sender@ == old(self).buyer@
                && amount != old(self).amount
                ==> r == Err::<(), EscrowError>(EscrowError::InsufficientFunds),
            old(self).wf() ==> final(self).wf(),
    {
        if self.state != EscrowState::AwaitingPayment {
            return Err(EscrowError::InvalidState(DEPOSIT_STATE_MESSAGE.to_owned()));
        }
        if !is_party(sender, &self.buyer) {
            return Err(EscrowError::Unauthorized);
        }
        if amount != self.amount {
            return Err(EscrowError::InsufficientFunds);
        }
        self.balance = amount;
        self.state = EscrowState::AwaitingDelivery;
        Ok(())
    }

    /// The buyer confirms that the goods arrived, releasing the held
    /// balance to the seller.
    ///
    /// Turned down with `InvalidState` unless delivery is awaited, then with
    /// `Unauthorized` unless the sender is the buyer. On success returns the
    /// balance that was held, which drops to zero, and the entry is
    /// completed; on failure nothing changes.
    pub fn confirm_delivery(&mut self, sender: &str) -> (r: Result<u64, EscrowError>)
        ensures
            *final(self) == old(self).after_confirm_delivery(sender@),
            r is Ok <==> old(self).can_confirm_delivery(sender@),
            r is Ok ==> r == Ok::<u64, EscrowError>(old(self).balance)
                && final(self).balance == 0 && final(self).state == EscrowState::Completed,
            r is Err ==> *final(self) == *old(self),
            !(old(self).state is AwaitingDelivery) ==> (r matches Err(EscrowError::InvalidState(m))
                && m@ == CONFIRM_STATE_MESSAGE@),
            old(self).state is AwaitingDelivery && sender@ != old(self).buyer@
                ==> r == Err::<u64, EscrowError>(EscrowError::Unauthorized),
            old(self).wf() ==> final(self).wf(),
    {
        if self.state != EscrowState::AwaitingDelivery {
            return Err(EscrowError::InvalidState(CONFIRM_STATE_MESSAGE.to_owned()));
        }
        if !is_party(sender, &self.buyer) {
            return Err(EscrowError::Unauthorized);
        }
        let payment = self.balance;
        self.balance = 0;
        self.state = EscrowState::Completed;
        Ok(payment)
    }

    /// The seller gives up the deal, returning the held balance to the buyer.
    ///
    /// Turned down with `InvalidState` unless delivery is awaited, then with
    /// `Unauthorized` unless the sender is the seller. On success returns the
    /// balance that was held, which drops to zero, and the entry is
    /// refunded; on failure nothing changes.
    pub fn refund_buyer(&mut self, sender: &str) -> (r: Result<u64, EscrowError>)
        ensures
            *final(self) == old(self).after_refund_buyer(sender@),
            r is Ok <==> old(self).can_refund_buyer(sender@),
            r is Ok ==> r == Ok::<u64, EscrowError>(old(self).balance)
                && final(self).balance == 0 && final(self).state == EscrowState::Refunded,
            r is Err ==> *final(self) == *old(self),
            !(old(self).state is AwaitingDelivery) ==> (r matches Err(EscrowError::InvalidState(m))
                && m@ == REFUND_STATE_MESSAGE@),
            old(self).state is AwaitingDelivery && sender@ != old(self).seller@
                ==> r == Err::<u64, EscrowError>(EscrowError::Unauthorized),
            old(self).wf() ==> final(self).wf(),
    {
        if self.state != EscrowState::AwaitingDelivery {
            return Err(EscrowError::InvalidState(REFUND_STATE_MESSAGE.to_owned()));
        }
        if !is_party(sender, &self.seller) {
            return Err(EscrowError::Unauthorized);
        }
        let refund_amount = self.balance;
        self.balance = 0;
        self.state = EscrowState::Refunded;
        Ok(refund_amount)
    }
}

/// Whether the identity `sender` names `party`.
fn is_party(sender: &str, party: &String) -> (r: bool)
    ensures
        r == (sender@ == party@),
{
    let claimed: String = sender.to_owned();
    claimed == *party
}

} // verus!
