//! Facts about how the operations of an escrow entry combine, stated over
//! the models that the operations' own contracts use.
use vstd::prelude::*;

use crate::{Escrow, EscrowState};

verus! {

/// A completed or refunded entry is final: no deposit, confirmation of
/// delivery or refund, by any sender and of any amount, is accepted, and
/// none of them changes the entry.
pub proof fn lemma_terminal_states_are_final(e: Escrow, sender: Seq<char>, amount: u64)
    requires
        e.state.is_terminal(),
    ensures
        !e.can_deposit(sender, amount),
        !e.can_confirm_delivery(sender),
        !e.can_refund_buyer(sender),
        e.after_deposit(sender, amount) == e,
        e.after_confirm_delivery(sender) == e,
        e.after_refund_buyer(sender) == e,
{
}

/// An operation that is turned down leaves every field of the entry as it
/// was.
pub proof fn lemma_refused_operations_change_nothing(e: Escrow, sender: Seq<char>, amount: u64)
    ensures
        !e.can_deposit(sender, amount) ==> e.after_deposit(sender, amount) == e,
        !e.can_confirm_delivery(sender) ==> e.after_confirm_delivery(sender) == e,
        !e.can_refund_buyer(sender) ==> e.after_refund_buyer(sender) == e,
{
}

/// Every operation either leaves the state where it was or moves it along
/// one edge of the lifecycle; it never touches the parties, the arbiter or
/// the agreed amount, and it keeps the balance consistent with the state.
pub proof fn lemma_operations_follow_the_lifecycle(e: Escrow, sender: Seq<char>, amount: u64)
    requires
        e.wf(),
    ensures
        ({
            let d = e.after_deposit(sender, amount);
            &&& d.wf()
            &&& d.same_terms(&e)
            &&& d.state == e.state || EscrowState::is_edge(e.state, d.state)
        }),
        ({
            let c = e.after_confirm_delivery(sender);
            &&& c.wf()
            &&& c.same_terms(&e)
            &&& c.state == e.state || EscrowState::is_edge(e.state, c.state)
        }),
        ({
            let f = e.after_refund_buyer(sender);
            &&& f.wf()
            &&& f.same_terms(&e)
            &&& f.state == e.state || EscrowState::is_edge(e.state, f.state)
        }),
{
}

/// A fresh entry accepts exactly one deposit: the buyer's, of the agreed
/// amount; a second deposit after it is turned down whoever sends it.
pub proof fn lemma_deposit_is_not_repeatable(
    e: Escrow,
    first: Seq<char>,
    second: Seq<char>,
    amount: u64,
    again: u64,
)
    requires
        e.can_deposit(first, amount),
    ensures
        !e.after_deposit(first, amount).can_deposit(second, again),
        e.after_deposit(first, amount).after_deposit(second, again) == e.after_deposit(first, amount),
{
}

} // verus!
