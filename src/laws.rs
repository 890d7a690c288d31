//! Properties of the governance engine that relate several operations or hold
//! of every state, proved over the model that the operations' contracts use.
use vstd::prelude::*;

use crate::action::Action;
use crate::address::Address;
use crate::model::{
    lemma_remove_role_holder, lemma_with_role, valid_signer_count, with_signer, MultisigError,
    MultisigView,
};
use crate::multisig::spec_initial_state;
use crate::seq_facts::{lemma_push_absent, lemma_remove_absent_value};
use crate::user_role::UserRole;

verus! {

/// Every identity holds exactly one role: board member when it is on the
/// board, proposer when it is among the proposers, and no role otherwise; no
/// identity is both a board member and a proposer.
pub proof fn lemma_role_is_unique(v: MultisigView, a: Address)
    requires
        v.wf(),
    ensures
        v.role_of(a) == UserRole::BoardMember <==> v.board.contains(a),
        v.role_of(a) == UserRole::Proposer <==> v.proposers.contains(a),
        v.role_of(a) == UserRole::NoRole <==> !v.board.contains(a) && !v.proposers.contains(a),
        !(v.board.contains(a) && v.proposers.contains(a)),
{
    if v.board.contains(a) && v.proposers.contains(a) {
        let i = choose|i: int| 0 <= i < v.board.len() && v.board[i] == a;
        let j = choose|j: int| 0 <= j < v.proposers.len() && v.proposers[j] == a;
        assert(v.board[i] != v.proposers[j]);
    }
}

/// Setting the signers of a stored action to a sequence without repeats
/// keeps the invariant.
proof fn lemma_with_signers_wf(v: MultisigView, id: nat, signers: Seq<Address>)
    requires
        v.wf(),
        v.has_action(id),
        signers.no_duplicates(),
    ensures
        v.with_signers(id, signers).wf(),
{
}

/// The effect of an action that can be carried out keeps the invariant.
proof fn lemma_apply_wf(v: MultisigView, action: Action)
    requires
        v.wf(),
    ensures
        v.apply(action) matches Ok(w) ==> w.wf(),
{
    match action {
        Action::AddBoardMember(a) => lemma_with_role(v, a, UserRole::BoardMember),
        Action::AddProposer(a) => lemma_with_role(v, a, UserRole::Proposer),
        Action::RemoveUser(a) => lemma_with_role(v, a, UserRole::NoRole),
        _ => {},
    }
}

/// The quorum stays between one and the number of board members: deployment
/// sets it up so, and every operation that succeeds (proposing, signing,
/// unsigning, discarding, performing) keeps it so, together with the rest of
/// the invariant.
pub proof fn lemma_quorum_stays_in_bounds(
    v: MultisigView,
    caller: Address,
    id: nat,
    action: Action,
    quorum: nat,
    board: Seq<Address>,
    proposers: Seq<Address>,
)
    requires
        v.wf(),
    ensures
        spec_initial_state(quorum, board, proposers) matches Ok(w) ==> w.wf() && 1 <= w.quorum
            <= w.board.len(),
        v.propose(caller, action) matches Ok(w) ==> w.wf() && 1 <= w.quorum <= w.board.len(),
        v.sign(caller, id) matches Ok(w) ==> w.wf() && 1 <= w.quorum <= w.board.len(),
        v.unsign(caller, id) matches Ok(w) ==> w.wf() && 1 <= w.quorum <= w.board.len(),
        v.discard(caller, id) matches Ok(w) ==> w.wf() && 1 <= w.quorum <= w.board.len(),
        v.perform(caller, id) matches Ok(w) ==> w.wf() && 1 <= w.quorum <= w.board.len(),
{
    if v.has_action(id) {
        let s = v.entry(id).signers;
        if !s.contains(caller) {
            lemma_push_absent(s, caller);
        }
        lemma_remove_role_holder(s, caller);
        lemma_with_signers_wf(v, id, with_signer(s, caller));
        lemma_with_signers_wf(v, id, s.remove_value(caller));
        lemma_apply_wf(v, v.entry(id).action);
    }
    if v.propose(caller, action) is Ok {
        let w = v.propose(caller, action)->Ok_0;
        assert forall|k: int| 0 <= k < w.actions.len() && (#[trigger] w.actions[k]) is Some
            implies w.actions[k]->Some_0.signers.no_duplicates() by {
            if k < v.actions.len() {
                assert(w.actions[k] == v.actions[k]);
            }
        }
    }
}

/// Signing twice is signing once: a second signature by the same board member
/// changes nothing, and one signature raises the count by at most one.
/// Likewise a second unsign changes nothing.
pub proof fn lemma_sign_is_idempotent(v: MultisigView, caller: Address, id: nat)
    requires
        v.wf(),
    ensures
        v.sign(caller, id) matches Ok(w) ==> w.sign(caller, id) == Ok::<MultisigView, MultisigError>(w) && w.signature_count(id) <= v.signature_count(id) + 1,
        v.unsign(caller, id) matches Ok(w) ==> w.unsign(caller, id) == Ok::<MultisigView, MultisigError>(w),
{
    if v.sign(caller, id) is Ok {
        let w = v.sign(caller, id)->Ok_0;
        let s = v.entry(id).signers;
        let t = with_signer(s, caller);
        assert(t.contains(caller)) by {
            if !s.contains(caller) {
                assert(t[s.len() as int] == caller);
            }
        }
        assert(w.entry(id).signers == t);
        assert(with_signer(t, caller) == t);
        assert(w.with_signers(id, t).actions =~= w.actions);
        if !s.contains(caller) {
            assert(t.drop_last() =~= s);
        }
    }
    if v.unsign(caller, id) is Ok {
        let w = v.unsign(caller, id)->Ok_0;
        let s = v.entry(id).signers;
        lemma_remove_role_holder(s, caller);
        let t = s.remove_value(caller);
        assert(w.entry(id).signers == t);
        lemma_remove_absent_value(t, caller);
        assert(w.with_signers(id, t).actions =~= w.actions);
    }
}

/// Action ids only grow and are never handed out twice: a proposal gets the
/// id after the highest one allocated so far, under which nothing was ever
/// stored, and no other operation changes the highest id.
pub proof fn lemma_action_ids_increase(v: MultisigView, caller: Address, id: nat, action: Action)
    requires
        v.wf(),
    ensures
        v.propose(caller, action) matches Ok(w) ==> {
            &&& w.last_action_id() == v.last_action_id() + 1
            &&& !v.has_action(w.last_action_id())
            &&& w.has_action(w.last_action_id())
            &&& forall|k: nat| #[trigger] v.has_action(k) ==> k < w.last_action_id()
        },
        v.sign(caller, id) matches Ok(w) ==> w.last_action_id() == v.last_action_id(),
        v.unsign(caller, id) matches Ok(w) ==> w.last_action_id() == v.last_action_id(),
        v.discard(caller, id) matches Ok(w) ==> w.last_action_id() == v.last_action_id()
            && !w.has_action(id),
        v.perform(caller, id) matches Ok(w) ==> w.last_action_id() == v.last_action_id()
            && !w.has_action(id),
{
    if v.has_action(id) {
        let action_at = v.entry(id).action;
        match action_at {
            Action::AddBoardMember(a) => lemma_with_role(v, a, UserRole::BoardMember),
            Action::AddProposer(a) => lemma_with_role(v, a, UserRole::Proposer),
            Action::RemoveUser(a) => lemma_with_role(v, a, UserRole::NoRole),
            _ => {},
        }
    }
}

/// An action that has reached its quorum cannot be discarded, by anyone: it
/// stays stored, ready to be performed.
pub proof fn lemma_discard_refused_when_ready(v: MultisigView, caller: Address, id: nat)
    requires
        v.quorum_reached(id),
    ensures
        v.discard(caller, id) is Err,
{
}

/// How many of `signers` are on the board after `a` leaves it: one fewer
/// when `a` had signed and was on the board, else as many as before.
proof fn lemma_count_without_member(signers: Seq<Address>, board: Seq<Address>, a: Address)
    requires
        signers.no_duplicates(),
        board.no_duplicates(),
    ensures
        valid_signer_count(signers, board.remove_value(a)) + (if signers.contains(a)
            && board.contains(a) {
            1int
        } else {
            0int
        }) == valid_signer_count(signers, board),
    decreases signers.len(),
{
    lemma_remove_role_holder(board, a);
    if signers.len() > 0 {
        let t = signers.drop_last();
        let x = signers.last();
        assert(t.no_duplicates());
        lemma_count_without_member(t, board, a);
        assert(signers.contains(a) <==> (t.contains(a) || x == a)) by {
            if signers.contains(a) {
                let k = choose|k: int| 0 <= k < signers.len() && signers[k] == a;
                if k < t.len() {
                    assert(t[k] == a);
                }
            }
            if t.contains(a) {
                let k = choose|k: int| 0 <= k < t.len() && t[k] == a;
                assert(signers[k] == a);
            }
        }
        if x == a {
            assert(!t.contains(a)) by {
                if t.contains(a) {
                    let k = choose|k: int| 0 <= k < t.len() && t[k] == a;
                    assert(signers[k] == signers[signers.len() - 1]);
                }
            }
        }
    }
}

/// Signatures of an identity that leaves the board stop counting, though they
/// stay stored: after `a` loses the board-member role, every stored action
/// keeps its signers, and its count of valid signatures drops by one exactly
/// when `a` had signed it.
pub proof fn lemma_stale_signatures_do_not_count(v: MultisigView, a: Address, id: nat)
    requires
        v.wf(),
        v.role_of(a) == UserRole::BoardMember,
        v.has_action(id),
    ensures
        v.with_role(a, UserRole::NoRole).has_action(id),
        v.with_role(a, UserRole::NoRole).entry(id) == v.entry(id),
        v.with_role(a, UserRole::NoRole).signature_count(id) + (if v.entry(id).signers.contains(a) {
            1int
        } else {
            0int
        }) == v.signature_count(id),
{
    lemma_with_role(v, a, UserRole::NoRole);
    let k = id - 1;
    assert(v.actions[k] is Some);
    lemma_count_without_member(v.entry(id).signers, v.board, a);
}

} // verus!
