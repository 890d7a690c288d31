//! The governance engine: role registry, quorum, action store and signature
//! sets, with the access checks of every operation.
use vstd::prelude::*;

use crate::action::{Action, ActionEntry, CallActionData, PendingAction};
use crate::address::Address;
use crate::model::{lemma_with_role, valid_signer_count, MultisigError, MultisigView};
use crate::seq_facts::{
    lemma_push_absent, lemma_remove_absent_value, lemma_remove_index, lemma_remove_value_at,
};
use crate::user_role::UserRole;
use multiversx_sc::types::CodeMetadata;

verus! {

/// The mathematical form of one action slot.
pub open spec fn slot_view(o: Option<PendingAction>) -> Option<ActionEntry> {
    match o {
        Some(p) => Some(p@),
        None => None,
    }
}

/// The state that deployment creates, or why it is refused: the quorum must
/// lie between one and the number of board members, and no identity may be
/// listed twice.
pub open spec fn spec_initial_state(
    quorum: nat,
    board: Seq<Address>,
    proposers: Seq<Address>,
) -> Result<MultisigView, MultisigError> {
    if quorum == 0 || quorum > board.len() {
        Err(MultisigError::InvalidQuorum)
    } else if !(board.no_duplicates() && proposers.no_duplicates() && board.disjoint(proposers)) {
        Err(MultisigError::DuplicateUser)
    } else {
        Ok(MultisigView { board, proposers, quorum, actions: Seq::empty() })
    }
}

/// The position of `a` in `list`, if it is there.
fn index_of(list: &Vec<Address>, a: Address) -> (r: Option<usize>)
    ensures
        match r {
            Some(i) => i < list@.len() && list@[i as int] == a,
            None => !list@.contains(a),
        },
{
    let mut i: usize = 0;
    while i < list.len()
        invariant
            i <= list@.len(),
            forall|j: int| 0 <= j < i ==> list@[j] != a,
        decreases list@.len() - i,
    {
        if list[i].same_as(&a) {
            return Some(i);
        }
        i = i + 1;
    }
    None
}

/// Whether some identity occurs twice in `list`.
fn has_repeats(list: &Vec<Address>) -> (r: bool)
    ensures
        r == !list@.no_duplicates(),
{
    let mut i: usize = 0;
    while i < list.len()
        invariant
            i <= list@.len(),
            forall|p: int, q: int| 0 <= q < p < i ==> list@[p] != list@[q],
        decreases list@.len() - i,
    {
        let mut j: usize = 0;
        while j < i
            invariant
                i < list@.len(),
                j <= i,
                forall|q: int| 0 <= q < j ==> list@[i as int] != list@[q],
            decreases i - j,
        {
            if list[i].same_as(&list[j]) {
                return true;
            }
            j = j + 1;
        }
        i = i + 1;
    }
    assert forall|p: int, q: int|
        0 <= p < list@.len() && 0 <= q < list@.len() && p != q implies list@[p] != list@[q] by {
        if q > p {
            assert(list@[q] != list@[p]);
        }
    }
    false
}

/// Whether some identity occurs in both lists.
fn overlaps(a: &Vec<Address>, b: &Vec<Address>) -> (r: bool)
    ensures
        r == !a@.disjoint(b@),
{
    let mut i: usize = 0;
    while i < a.len()
        invariant
            i <= a@.len(),
            forall|p: int| 0 <= p < i ==> !b@.contains(#[trigger] a@[p]),
        decreases a@.len() - i,
    {
        match index_of(b, a[i]) {
            Some(j) => {
                assert(a@[i as int] == b@[j as int]);
                return true;
            },
            None => {},
        }
        i = i + 1;
    }
    assert forall|p: int, q: int| 0 <= p < a@.len() && 0 <= q < b@.len() implies a@[p]
        != b@[q] by {
        assert(!b@.contains(a@[p]));
    }
    false
}

/// A copy of a list of identities.
fn copy_addresses(list: &Vec<Address>) -> (r: Vec<Address>)
    ensures
        r@ == list@,
{
    let mut out: Vec<Address> = Vec::new();
    let mut i: usize = 0;
    while i < list.len()
        invariant
            i <= list@.len(),
            out@ == list@.take(i as int),
        decreases list@.len() - i,
    {
        out.push(list[i]);
        i = i + 1;
        assert(out@ =~= list@.take(i as int));
    }
    assert(list@.take(list@.len() as int) =~= list@);
    out
}

/// What an operation that returns no value did: on success the state became
/// `expected`'s state; on refusal it reports `expected`'s error and the state
/// is unchanged.
pub open spec fn followed(
    before: MultisigView,
    after: MultisigView,
    r: Result<(), MultisigError>,
    expected: Result<MultisigView, MultisigError>,
) -> bool {
    match expected {
        Ok(v) => r is Ok && after == v,
        Err(e) => r == Err::<(), MultisigError>(e) && after == before,
    }
}

/// What a proposal did: on success the action was stored under the next id,
/// which is returned; on refusal nothing changed.
pub open spec fn proposed(
    before: MultisigView,
    after: MultisigView,
    r: Result<usize, MultisigError>,
    caller: Address,
    action: Action,
) -> bool {
    match before.propose(caller, action) {
        Ok(v) => r matches Ok(id) && id == before.last_action_id() + 1 && after == v,
        Err(e) => r == Err::<usize, MultisigError>(e) && after == before,
    }
}

/// The change that performing a governance action makes to roles or quorum.
enum Effect {
    SetRole(Address, UserRole),
    SetQuorum(usize),
    Nothing,
}

spec fn effect_result(v: MultisigView, e: Effect) -> MultisigView {
    match e {
        Effect::SetRole(a, role) => v.with_role(a, role),
        Effect::SetQuorum(n) => MultisigView { quorum: n as nat, ..v },
        Effect::Nothing => v,
    }
}

/// The governance engine of one shared account.
pub struct Multisig {
    board: Vec<Address>,
    proposers: Vec<Address>,
    quorum: usize,
    actions: Vec<Option<PendingAction>>,
}

impl View for Multisig {
    type V = MultisigView;

    closed spec fn view(&self) -> MultisigView {
        MultisigView {
            board: self.board@,
            proposers: self.proposers@,
            quorum: self.quorum as nat,
            actions: self.actions@.map_values(|o: Option<PendingAction>| slot_view(o)),
        }
    }
}

impl Multisig {
    /// The engine's invariant.
    pub open spec fn wf(&self) -> bool {
        self@.wf()
    }

    /// Sets up the engine with its first board members and proposers, in the
    /// order given, and its quorum.
    pub fn new(quorum: usize, board: Vec<Address>, proposers: Vec<Address>) -> (r: Result<
        Multisig,
        MultisigError,
    >)
        ensures
            match spec_initial_state(quorum as nat, board@, proposers@) {
                Ok(v) => r matches Ok(m) && m.wf() && m@ == v,
                Err(e) => r == Err::<Multisig, MultisigError>(e),
            },
    {
        if quorum == 0 || quorum > board.len() {
            return Err(MultisigError::InvalidQuorum);
        }
        if has_repeats(&board) || has_repeats(&proposers) || overlaps(&board, &proposers) {
            return Err(MultisigError::DuplicateUser);
        }
        let m = Multisig { board, proposers, quorum, actions: Vec::new() };
        assert(m@.actions =~= Seq::<Option<ActionEntry>>::empty());
        Ok(m)
    }

    /// The role of `a`.
    pub fn user_role(&self, a: Address) -> (r: UserRole)
        ensures
            r == self@.role_of(a),
    {
        match index_of(&self.board, a) {
            Some(_) => UserRole::BoardMember,
            None => match index_of(&self.proposers, a) {
                Some(_) => UserRole::Proposer,
                None => UserRole::NoRole,
            },
        }
    }

    /// The number of signatures of current board members that an action needs.
    pub fn quorum(&self) -> (r: usize)
        ensures
            r == self@.quorum,
    {
        self.quorum
    }

    /// The number of board members.
    pub fn board_member_count(&self) -> (r: usize)
        ensures
            r == self@.board.len(),
    {
        self.board.len()
    }

    /// The number of proposers.
    pub fn proposer_count(&self) -> (r: usize)
        ensures
            r == self@.proposers.len(),
    {
        self.proposers.len()
    }

    /// The board members, in the order in which they got the role.
    pub fn get_all_board_members(&self) -> (r: Vec<Address>)
        ensures
            r@ == self@.board,
    {
        copy_addresses(&self.board)
    }

    /// The proposers, in the order in which they got the role.
    pub fn get_all_proposers(&self) -> (r: Vec<Address>)
        ensures
            r@ == self@.proposers,
    {
        copy_addresses(&self.proposers)
    }

    /// The highest action id allocated so far; 0 before the first proposal.
    pub fn last_action_id(&self) -> (r: usize)
        ensures
            r == self@.last_action_id(),
    {
        self.actions.len()
    }

    /// Gives `a` the role `role`, replacing the one it held.
    fn set_role(&mut self, a: Address, role: UserRole)
        requires
            old(self)@.board.no_duplicates(),
            old(self)@.proposers.no_duplicates(),
            old(self)@.board.disjoint(old(self)@.proposers),
        ensures
            final(self)@ == old(self)@.with_role(a, role),
    {
        let current = self.user_role(a);
        if current == role {
            return;
        }
        let ghost before = self@;
        match index_of(&self.board, a) {
            Some(i) => {
                proof {
                    lemma_remove_value_at(self.board@, i as int);
                }
                self.board.remove(i);
            },
            None => {
                proof {
                    lemma_remove_absent_value(self.board@, a);
                }
            },
        }
        match index_of(&self.proposers, a) {
            Some(i) => {
                proof {
                    lemma_remove_value_at(self.proposers@, i as int);
                }
                self.proposers.remove(i);
            },
            None => {
                proof {
                    lemma_remove_absent_value(self.proposers@, a);
                }
            },
        }
        match role {
            UserRole::BoardMember => self.board.push(a),
            UserRole::Proposer => self.proposers.push(a),
            UserRole::NoRole => {},
        }
        proof {
            let w = before.with_role(a, role);
            if role == UserRole::BoardMember {
                lemma_remove_absent_value(before.board, a);
            }
            if role == UserRole::Proposer {
                lemma_remove_absent_value(before.proposers, a);
            }
            assert(self@.board =~= w.board);
            assert(self@.proposers =~= w.proposers);
        }
    }

    /// How many of `signers` are current board members.
    fn count_valid_signers(&self, signers: &Vec<Address>) -> (r: usize)
        ensures
            r == valid_signer_count(signers@, self@.board),
    {
        let mut c: usize = 0;
        let mut i: usize = 0;
        while i < signers.len()
            invariant
                i <= signers@.len(),
                c <= i,
                c == valid_signer_count(signers@.take(i as int), self@.board),
            decreases signers@.len() - i,
        {
            assert(signers@.take(i + 1).drop_last() =~= signers@.take(i as int));
            if index_of(&self.board, signers[i]).is_some() {
                c = c + 1;
            }
            i = i + 1;
        }
        assert(signers@.take(signers@.len() as int) =~= signers@);
        c
    }

    /// The action stored under `action_id`, if any.
    pub fn get_pending_action(&self, action_id: usize) -> (r: Option<&PendingAction>)
        ensures
            match r {
                Some(p) => self@.has_action(action_id as nat) && p@ == self@.entry(
                    action_id as nat,
                ),
                None => !self@.has_action(action_id as nat),
            },
    {
        if action_id == 0 || action_id > self.actions.len() {
            return None;
        }
        self.actions[action_id - 1].as_ref()
    }

    /// The signatures of the action under `action_id` that come from current
    /// board members (0 when no action is stored there).
    pub fn signature_count(&self, action_id: usize) -> (r: usize)
        ensures
            r == self@.signature_count(action_id as nat),
    {
        match self.get_pending_action(action_id) {
            Some(p) => self.count_valid_signers(&p.signers),
            None => 0,
        }
    }

    /// Whether the action under `action_id` exists and has reached the quorum.
    pub fn quorum_reached(&self, action_id: usize) -> (r: bool)
        ensures
            r == self@.quorum_reached(action_id as nat),
    {
        match self.get_pending_action(action_id) {
            Some(p) => self.count_valid_signers(&p.signers) >= self.quorum,
            None => false,
        }
    }

    /// Stores `action`, proposed by `caller`, under the next id.
    pub fn propose(&mut self, caller: Address, action: Action) -> (r: Result<usize, MultisigError>)
        requires
            old(self).wf(),
        ensures
            final(self).wf(),
            proposed(old(self)@, final(self)@, r, caller, action),
    {
        if !self.user_role(caller).can_propose() {
            return Err(MultisigError::Unauthorized);
        }
        let ghost before = self@;
        self.actions.push(Some(PendingAction { proposer: caller, action, signers: Vec::new() }));
        proof {
            assert(self@.actions =~= before.propose(caller, action)->Ok_0.actions);
        }
        Ok(self.actions.len())
    }

    /// Adds `caller`'s signature to the action under `action_id`.
    pub fn sign(&mut self, caller: Address, action_id: usize) -> (r: Result<(), MultisigError>)
        requires
            old(self).wf(),
        ensures
            final(self).wf(),
            followed(old(self)@, final(self)@, r, old(self)@.sign(caller, action_id as nat)),
    {
        if !self.user_role(caller).can_sign() {
            return Err(MultisigError::Unauthorized);
        }
        if action_id == 0 || action_id > self.actions.len() {
            return Err(MultisigError::NotFound);
        }
        let idx = action_id - 1;
        let already = match &self.actions[idx] {
            Some(p) => index_of(&p.signers, caller).is_some(),
            None => {
                return Err(MultisigError::NotFound);
            },
        };
        let ghost before = self@;
        let ghost expected = before.sign(caller, action_id as nat)->Ok_0;
        if !already {
            proof {
                lemma_push_absent(before.entry(action_id as nat).signers, caller);
            }
            match &mut self.actions[idx] {
                Some(p) => p.signers.push(caller),
                None => {},
            }
        }
        proof {
            assert(self@.actions =~= expected.actions);
        }
        Ok(())
    }

    /// Removes `caller`'s signature from the action under `action_id`, if it
    /// is there.
    pub fn unsign(&mut self, caller: Address, action_id: usize) -> (r: Result<(), MultisigError>)
        requires
            old(self).wf(),
        ensures
            final(self).wf(),
            followed(old(self)@, final(self)@, r, old(self)@.unsign(caller, action_id as nat)),
    {
        if !self.user_role(caller).can_sign() {
            return Err(MultisigError::Unauthorized);
        }
        if action_id == 0 || action_id > self.actions.len() {
            return Err(MultisigError::NotFound);
        }
        let idx = action_id - 1;
        let pos = match &self.actions[idx] {
            Some(p) => index_of(&p.signers, caller),
            None => {
                return Err(MultisigError::NotFound);
            },
        };
        let ghost before = self@;
        let ghost signers = before.entry(action_id as nat).signers;
        let ghost expected = before.unsign(caller, action_id as nat)->Ok_0;
        match pos {
            Some(j) => {
                proof {
                    lemma_remove_value_at(signers, j as int);
                    lemma_remove_index(signers, j as int);
                }
                match &mut self.actions[idx] {
                    Some(p) => {
                        p.signers.remove(j);
                    },
                    None => {},
                }
            },
            None => {
                proof {
                    lemma_remove_absent_value(signers, caller);
                }
            },
        }
        proof {
            assert(self@.actions =~= expected.actions);
        }
        Ok(())
    }

    /// Removes the action under `action_id` before it reaches its quorum, at
    /// the request of a board member or of the action's proposer.
    pub fn discard(&mut self, caller: Address, action_id: usize) -> (r: Result<(), MultisigError>)
        requires
            old(self).wf(),
        ensures
            final(self).wf(),
            followed(old(self)@, final(self)@, r, old(self)@.discard(caller, action_id as nat)),
    {
        let allowed = match self.get_pending_action(action_id) {
            Some(p) => p.proposer.same_as(&caller) || self.user_role(caller).can_sign(),
            None => {
                return Err(MultisigError::NotFound);
            },
        };
        if !allowed {
            return Err(MultisigError::Unauthorized);
        }
        if self.quorum_reached(action_id) {
            return Err(MultisigError::QuorumReached);
        }
        let ghost before = self@;
        let _ = self.actions[action_id - 1].take();
        proof {
            assert(self@.actions =~= before.without_action(action_id as nat).actions);
        }
        Ok(())
    }

    /// What performing `action` would change, or why it cannot be performed.
    fn effect_of(&self, action: &Action) -> (r: Result<Effect, MultisigError>)
        requires
            self.wf(),
        ensures
            match self@.apply(*action) {
                Ok(w) => r matches Ok(e) && effect_result(self@, e) == w,
                Err(err) => r matches Err(e2) && e2 == err,
            },
    {
        match action {
            Action::AddBoardMember(a) => Ok(Effect::SetRole(*a, UserRole::BoardMember)),
            Action::AddProposer(a) => {
                if self.user_role(*a).can_sign() && self.board.len() - 1 < self.quorum {
                    Err(MultisigError::QuorumWouldBeUnreachable)
                } else {
                    Ok(Effect::SetRole(*a, UserRole::Proposer))
                }
            },
            Action::RemoveUser(a) => {
                let role = self.user_role(*a);
                if !role.can_propose() {
                    Err(MultisigError::NothingToRemove)
                } else if role.can_sign() && self.board.len() - 1 < self.quorum {
                    Err(MultisigError::QuorumWouldBeUnreachable)
                } else {
                    Ok(Effect::SetRole(*a, UserRole::NoRole))
                }
            },
            Action::ChangeQuorum(n) => {
                if *n == 0 || *n > self.board.len() {
                    Err(MultisigError::InvalidQuorum)
                } else {
                    Ok(Effect::SetQuorum(*n))
                }
            },
            Action::SendTransferExecute(data) => {
                if data.egld_amount == 0 && !data.has_endpoint() {
                    Err(MultisigError::MissingEndpoint)
                } else {
                    Ok(Effect::Nothing)
                }
            },
            Action::SendAsyncCall(data) => {
                if !data.has_endpoint() {
                    Err(MultisigError::MissingEndpoint)
                } else {
                    Ok(Effect::Nothing)
                }
            },
            _ => Ok(Effect::Nothing),
        }
    }

    /// Carries out the action under `action_id` once it has reached its
    /// quorum, and removes it. Changes of roles and quorum take effect here;
    /// a transfer, call or deployment is returned for the caller to hand to
    /// the outside primitive, and the action counts as performed whatever
    /// that primitive then does.
    pub fn perform(&mut self, caller: Address, action_id: usize) -> (r: Result<
        Action,
        MultisigError,
    >)
        requires
            old(self).wf(),
        ensures
            final(self).wf(),
            match old(self)@.perform(caller, action_id as nat) {
                Ok(v) => r matches Ok(a) && a == old(self)@.entry(action_id as nat).action
                    && final(self)@ == v,
                Err(e) => r matches Err(e2) && e2 == e && final(self)@ == old(self)@,
            },
    {
        if !self.user_role(caller).can_sign() {
            return Err(MultisigError::Unauthorized);
        }
        let effect = match self.get_pending_action(action_id) {
            Some(p) => {
                if self.count_valid_signers(&p.signers) < self.quorum {
                    return Err(MultisigError::QuorumNotMet);
                }
                self.effect_of(&p.action)
            },
            None => {
                return Err(MultisigError::NotFound);
            },
        };
        let ghost before = self@;
        let ghost applied = before.apply(before.entry(action_id as nat).action)->Ok_0;
        match effect {
            Err(e) => {
                return Err(e);
            },
            Ok(Effect::SetRole(a, role)) => {
                self.set_role(a, role);
            },
            Ok(Effect::SetQuorum(n)) => {
                self.quorum = n;
            },
            Ok(Effect::Nothing) => {},
        }
        proof {
            assert(self@.board =~= applied.board);
            assert(self@.proposers =~= applied.proposers);
            assert(self@.actions =~= applied.actions);
            assert(self@ == applied);
            lemma_with_role(before, before.entry(action_id as nat).action->AddBoardMember_0, UserRole::BoardMember);
            lemma_with_role(before, before.entry(action_id as nat).action->AddProposer_0, UserRole::Proposer);
            lemma_with_role(before, before.entry(action_id as nat).action->RemoveUser_0, UserRole::NoRole);
            assert(self@.wf());
        }
        let ghost mid = self@;
        let taken = self.actions[action_id - 1].take();
        proof {
            assert(self@.actions =~= mid.without_action(action_id as nat).actions);
        }
        match taken {
            Some(p) => Ok(p.action),
            None => Err(MultisigError::NotFound),
        }
    }

    /// Proposes giving `board_member` the board-member role.
    pub fn propose_add_board_member(&mut self, caller: Address, board_member: Address) -> (r: Result<
        usize,
        MultisigError,
    >)
        requires
            old(self).wf(),
        ensures
            final(self).wf(),
            proposed(old(self)@, final(self)@, r, caller, Action::AddBoardMember(board_member)),
    {
        self.propose(caller, Action::AddBoardMember(board_member))
    }

    /// Proposes giving `proposer` the proposer role.
    pub fn propose_add_proposer(&mut self, caller: Address, proposer: Address) -> (r: Result<
        usize,
        MultisigError,
    >)
        requires
            old(self).wf(),
        ensures
            final(self).wf(),
            proposed(old(self)@, final(self)@, r, caller, Action::AddProposer(proposer)),
    {
        self.propose(caller, Action::AddProposer(proposer))
    }

    /// Proposes taking every role from `user`.
    pub fn propose_remove_user(&mut self, caller: Address, user: Address) -> (r: Result<
        usize,
        MultisigError,
    >)
        requires
            old(self).wf(),
        ensures
            final(self).wf(),
            proposed(old(self)@, final(self)@, r, caller, Action::RemoveUser(user)),
    {
        self.propose(caller, Action::RemoveUser(user))
    }

    /// Proposes setting the quorum to `new_quorum`; the bound is checked when
    /// the action is performed.
    pub fn propose_change_quorum(&mut self, caller: Address, new_quorum: usize) -> (r: Result<
        usize,
        MultisigError,
    >)
        requires
            old(self).wf(),
        ensures
            final(self).wf(),
            proposed(old(self)@, final(self)@, r, caller, Action::ChangeQuorum(new_quorum)),
    {
        self.propose(caller, Action::ChangeQuorum(new_quorum))
    }

    /// Proposes a synchronous transfer of `egld_amount` to `to`, calling
    /// `endpoint_name` with `arguments` if one is given.
    pub fn propose_transfer_execute(
        &mut self,
        caller: Address,
        to: Address,
        egld_amount: u128,
        endpoint_name: Option<Vec<u8>>,
        arguments: Vec<Vec<u8>>,
    ) -> (r: Result<usize, MultisigError>)
        requires
            old(self).wf(),
        ensures
            final(self).wf(),
            proposed(
                old(self)@,
                final(self)@,
                r,
                caller,
                Action::SendTransferExecute(
                    CallActionData { to, egld_amount, endpoint_name, arguments },
                ),
            ),
    {
        self.propose(
            caller,
            Action::SendTransferExecute(CallActionData { to, egld_amount, endpoint_name, arguments }),
        )
    }

    /// Proposes an asynchronous call of `endpoint_name` on `to`, with
    /// `egld_amount` attached.
    pub fn propose_async_call(
        &mut self,
        caller: Address,
        to: Address,
        egld_amount: u128,
        endpoint_name: Option<Vec<u8>>,
        arguments: Vec<Vec<u8>>,
    ) -> (r: Result<usize, MultisigError>)
        requires
            old(self).wf(),
        ensures
            final(self).wf(),
            proposed(
                old(self)@,
                final(self)@,
                r,
                caller,
                Action::SendAsyncCall(CallActionData { to, egld_amount, endpoint_name, arguments }),
            ),
    {
        self.propose(
            caller,
            Action::SendAsyncCall(CallActionData { to, egld_amount, endpoint_name, arguments }),
        )
    }

    /// Proposes deploying a new contract with the code of `source`.
    pub fn propose_sc_deploy_from_source(
        &mut self,
        caller: Address,
        amount: u128,
        source: Address,
        code_metadata: CodeMetadata,
        arguments: Vec<Vec<u8>>,
    ) -> (r: Result<usize, MultisigError>)
        requires
            old(self).wf(),
        ensures
            final(self).wf(),
            proposed(
                old(self)@,
                final(self)@,
                r,
                caller,
                Action::SCDeployFromSource { amount, source, code_metadata, arguments },
            ),
    {
        self.propose(caller, Action::SCDeployFromSource { amount, source, code_metadata, arguments })
    }

    /// Proposes upgrading the contract at `sc_address` to the code of `source`.
    pub fn propose_sc_upgrade_from_source(
        &mut self,
        caller: Address,
        sc_address: Address,
        amount: u128,
        source: Address,
        code_metadata: CodeMetadata,
        arguments: Vec<Vec<u8>>,
    ) -> (r: Result<usize, MultisigError>)
        requires
            old(self).wf(),
        ensures
            final(self).wf(),
            proposed(
                old(self)@,
                final(self)@,
                r,
                caller,
                Action::SCUpgradeFromSource { sc_address, amount, source, code_metadata, arguments },
            ),
    {
        self.propose(
            caller,
            Action::SCUpgradeFromSource { sc_address, amount, source, code_metadata, arguments },
        )
    }
}

} // verus!
