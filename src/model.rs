//! The mathematical model of the governance engine: its state as sequences
//! and numbers, and each operation as a function from state to outcome.
use vstd::prelude::*;

use crate::action::{spec_has_endpoint, Action, ActionEntry};
use crate::address::Address;
use crate::seq_facts::{
    lemma_push_absent, lemma_remove_absent_value, lemma_remove_index, lemma_remove_value_at,
};
use crate::user_role::UserRole;

verus! {

/// Why an operation was refused. A refused operation changes nothing.
#[derive(Clone, Copy, Debug, PartialEq, Eq, Structural)]
pub enum MultisigError {
    /// The caller lacks the role that the operation needs.
    Unauthorized,
    /// No action is stored under the id: it never existed, or it was
    /// performed or discarded.
    NotFound,
    /// The action has fewer signatures of current board members than the quorum.
    QuorumNotMet,
    /// The quorum would be zero or above the number of board members.
    InvalidQuorum,
    /// Demoting the board member would leave fewer board members than the quorum.
    QuorumWouldBeUnreachable,
    /// The identity to remove holds no role.
    NothingToRemove,
    /// The action has reached its quorum and can no longer be discarded.
    QuorumReached,
    /// The call does nothing without an endpoint, and names none.
    MissingEndpoint,
    /// An identity is listed twice among the initial board members and proposers.
    DuplicateUser,
}

/// The engine's state: board members and proposers in the order in which
/// they got their role, the quorum, and one slot per action id ever
/// allocated (id `k` lives in slot `k - 1`; a performed or discarded action
/// leaves its slot empty).
pub struct MultisigView {
    pub board: Seq<Address>,
    pub proposers: Seq<Address>,
    pub quorum: nat,
    pub actions: Seq<Option<ActionEntry>>,
}

/// How many of `signers` are in `board`.
pub open spec fn valid_signer_count(signers: Seq<Address>, board: Seq<Address>) -> nat
    decreases signers.len(),
{
    if signers.len() == 0 {
        0
    } else {
        valid_signer_count(signers.drop_last(), board) + if board.contains(signers.last()) {
            1nat
        } else {
            0nat
        }
    }
}

/// `signers` with `s` added, unless it is there already.
pub open spec fn with_signer(signers: Seq<Address>, s: Address) -> Seq<Address> {
    if signers.contains(s) {
        signers
    } else {
        signers.push(s)
    }
}

impl MultisigView {
    /// The state's invariant: roles are unique, and the quorum is at least one
    /// and at most the number of board members.
    pub open spec fn wf(self) -> bool {
        &&& self.board.no_duplicates()
        &&& self.proposers.no_duplicates()
        &&& self.board.disjoint(self.proposers)
        &&& 1 <= self.quorum <= self.board.len()
        &&& forall|k: int|
            0 <= k < self.actions.len() && (#[trigger] self.actions[k]) is Some
                ==> self.actions[k]->Some_0.signers.no_duplicates()
    }

    /// The role of `a`.
    pub open spec fn role_of(self, a: Address) -> UserRole {
        if self.board.contains(a) {
            UserRole::BoardMember
        } else if self.proposers.contains(a) {
            UserRole::Proposer
        } else {
            UserRole::NoRole
        }
    }

    /// The highest action id allocated so far (0 before the first proposal).
    pub open spec fn last_action_id(self) -> nat {
        self.actions.len()
    }

    /// Whether an action is stored under `id`.
    pub open spec fn has_action(self, id: nat) -> bool {
        1 <= id <= self.actions.len() && self.actions[id - 1] is Some
    }

    /// The action stored under `id`.
    pub open spec fn entry(self, id: nat) -> ActionEntry
        recommends
            self.has_action(id),
    {
        self.actions[id - 1]->Some_0
    }

    /// The signatures of the action under `id` that come from current board
    /// members; signatures of demoted members stay stored but do not count.
    pub open spec fn signature_count(self, id: nat) -> nat {
        if self.has_action(id) {
            valid_signer_count(self.entry(id).signers, self.board)
        } else {
            0
        }
    }

    /// Whether the action under `id` has as many valid signatures as the quorum.
    pub open spec fn quorum_reached(self, id: nat) -> bool {
        self.has_action(id) && self.signature_count(id) >= self.quorum
    }

    /// The state after `a` is given `role`, replacing any role it held.
    pub open spec fn with_role(self, a: Address, role: UserRole) -> MultisigView {
        if self.role_of(a) == role {
            self
        } else {
            MultisigView {
                board: if role == UserRole::BoardMember {
                    self.board.push(a)
                } else {
                    self.board.remove_value(a)
                },
                proposers: if role == UserRole::Proposer {
                    self.proposers.push(a)
                } else {
                    self.proposers.remove_value(a)
                },
                ..self
            }
        }
    }

    /// The state with the action under `id` removed.
    pub open spec fn without_action(self, id: nat) -> MultisigView {
        MultisigView { actions: self.actions.update(id - 1, None), ..self }
    }

    /// The state with the signers of the action under `id` replaced.
    pub open spec fn with_signers(self, id: nat, signers: Seq<Address>) -> MultisigView {
        MultisigView {
            actions: self.actions.update(
                id - 1,
                Some(ActionEntry { signers, ..self.entry(id) }),
            ),
            ..self
        }
    }

    /// Proposing `action`: allowed to proposers and board members; the action
    /// gets the next id, with no signatures.
    pub open spec fn propose(self, caller: Address, action: Action) -> Result<
        MultisigView,
        MultisigError,
    > {
        if self.role_of(caller) == UserRole::NoRole {
            Err(MultisigError::Unauthorized)
        } else {
            Ok(
                MultisigView {
                    actions: self.actions.push(
                        Some(ActionEntry { proposer: caller, action, signers: Seq::empty() }),
                    ),
                    ..self
                },
            )
        }
    }

    /// Signing: allowed to board members, on a stored action; signing twice
    /// is the same as signing once.
    pub open spec fn sign(self, caller: Address, id: nat) -> Result<MultisigView, MultisigError> {
        if self.role_of(caller) != UserRole::BoardMember {
            Err(MultisigError::Unauthorized)
        } else if !self.has_action(id) {
            Err(MultisigError::NotFound)
        } else {
            Ok(self.with_signers(id, with_signer(self.entry(id).signers, caller)))
        }
    }

    /// Unsigning: allowed to board members, on a stored action; removes the
    /// caller's signature if there is one.
    pub open spec fn unsign(self, caller: Address, id: nat) -> Result<MultisigView, MultisigError> {
        if self.role_of(caller) != UserRole::BoardMember {
            Err(MultisigError::Unauthorized)
        } else if !self.has_action(id) {
            Err(MultisigError::NotFound)
        } else {
            Ok(self.with_signers(id, self.entry(id).signers.remove_value(caller)))
        }
    }

    /// Discarding: allowed to board members and to the action's proposer,
    /// while the action has not reached its quorum.
    pub open spec fn discard(self, caller: Address, id: nat) -> Result<MultisigView, MultisigError> {
        if !self.has_action(id) {
            Err(MultisigError::NotFound)
        } else if self.role_of(caller) != UserRole::BoardMember && self.entry(id).proposer
            != caller {
            Err(MultisigError::Unauthorized)
        } else if self.quorum_reached(id) {
            Err(MultisigError::QuorumReached)
        } else {
            Ok(self.without_action(id))
        }
    }

    /// The effect of carrying out `action` on the roles and the quorum, or why
    /// it cannot be carried out.
    pub open spec fn apply(self, action: Action) -> Result<MultisigView, MultisigError> {
        match action {
            Action::AddBoardMember(a) => Ok(self.with_role(a, UserRole::BoardMember)),
            Action::AddProposer(a) => {
                if self.role_of(a) == UserRole::BoardMember && self.board.len() - 1 < self.quorum {
                    Err(MultisigError::QuorumWouldBeUnreachable)
                } else {
                    Ok(self.with_role(a, UserRole::Proposer))
                }
            },
            Action::RemoveUser(a) => {
                if self.role_of(a) == UserRole::NoRole {
                    Err(MultisigError::NothingToRemove)
                } else if self.role_of(a) == UserRole::BoardMember && self.board.len() - 1
                    < self.quorum {
                    Err(MultisigError::QuorumWouldBeUnreachable)
                } else {
                    Ok(self.with_role(a, UserRole::NoRole))
                }
            },
            Action::ChangeQuorum(n) => {
                if n == 0 || n > self.board.len() {
                    Err(MultisigError::InvalidQuorum)
                } else {
                    Ok(MultisigView { quorum: n as nat, ..self })
                }
            },
            Action::SendTransferExecute(data) => {
                if data.egld_amount == 0 && !spec_has_endpoint(data) {
                    Err(MultisigError::MissingEndpoint)
                } else {
                    Ok(self)
                }
            },
            Action::SendAsyncCall(data) => {
                if !spec_has_endpoint(data) {
                    Err(MultisigError::MissingEndpoint)
                } else {
                    Ok(self)
                }
            },
            _ => Ok(self),
        }
    }

    /// Performing: allowed to board members, on a stored action that has
    /// reached its quorum; the action's effect is applied and the action removed.
    pub open spec fn perform(self, caller: Address, id: nat) -> Result<MultisigView, MultisigError> {
        if self.role_of(caller) != UserRole::BoardMember {
            Err(MultisigError::Unauthorized)
        } else if !self.has_action(id) {
            Err(MultisigError::NotFound)
        } else if !self.quorum_reached(id) {
            Err(MultisigError::QuorumNotMet)
        } else {
            match self.apply(self.entry(id).action) {
                Ok(v) => Ok(v.without_action(id)),
                Err(e) => Err(e),
            }
        }
    }
}

/// Two sequences share no element, stated through membership.
proof fn lemma_disjoint_by_contains(a: Seq<Address>, b: Seq<Address>)
    requires
        forall|x: Address| !(#[trigger] a.contains(x) && b.contains(x)),
    ensures
        a.disjoint(b),
{
    assert forall|i: int, j: int| 0 <= i < a.len() && 0 <= j < b.len() implies a[i] != b[j] by {
        assert(a.contains(a[i]));
        assert(b.contains(b[j]));
    }
}

/// Removing `a` from a sequence without repeats: what remains, and its length.
pub proof fn lemma_remove_role_holder(s: Seq<Address>, a: Address)
    requires
        s.no_duplicates(),
    ensures
        s.remove_value(a).no_duplicates(),
        forall|x: Address| #[trigger] s.remove_value(a).contains(x) <==> (s.contains(x) && x != a),
        s.remove_value(a).len() == if s.contains(a) { s.len() - 1 } else { s.len() as int },
{
    if s.contains(a) {
        let i = choose|i: int| 0 <= i < s.len() && s[i] == a;
        lemma_remove_value_at(s, i);
        lemma_remove_index(s, i);
    } else {
        lemma_remove_absent_value(s, a);
    }
}

/// Giving `a` a role changes the role of `a` alone, keeps the roles unique,
/// and moves the board size by at most one.
pub proof fn lemma_with_role(v: MultisigView, a: Address, role: UserRole)
    requires
        v.board.no_duplicates(),
        v.proposers.no_duplicates(),
        v.board.disjoint(v.proposers),
    ensures
        ({
            let w = v.with_role(a, role);
            &&& w.board.no_duplicates()
            &&& w.proposers.no_duplicates()
            &&& w.board.disjoint(w.proposers)
            &&& w.quorum == v.quorum
            &&& w.actions == v.actions
            &&& w.role_of(a) == role
            &&& forall|x: Address| x != a ==> #[trigger] w.role_of(x) == v.role_of(x)
            &&& w.board.len() == v.board.len() + (if role == UserRole::BoardMember
                && v.role_of(a) != UserRole::BoardMember {
                1int
            } else {
                0int
            }) - (if role != UserRole::BoardMember && v.role_of(a) == UserRole::BoardMember {
                1int
            } else {
                0int
            })
        }),
{
    let w = v.with_role(a, role);
    if v.role_of(a) != role {
        if role == UserRole::BoardMember {
            lemma_push_absent(v.board, a);
        } else {
            lemma_remove_role_holder(v.board, a);
        }
        if role == UserRole::Proposer {
            lemma_push_absent(v.proposers, a);
        } else {
            lemma_remove_role_holder(v.proposers, a);
        }
        assert forall|x: Address| !(#[trigger] w.board.contains(x) && w.proposers.contains(x)) by {
            if v.board.contains(x) && v.proposers.contains(x) {
                let i = choose|i: int| 0 <= i < v.board.len() && v.board[i] == x;
                let j = choose|j: int| 0 <= j < v.proposers.len() && v.proposers[j] == x;
                assert(v.board[i] != v.proposers[j]);
            }
        }
        lemma_disjoint_by_contains(w.board, w.proposers);
    }
}

} // verus!
