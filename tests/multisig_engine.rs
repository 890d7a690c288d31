use multisig::action::{Action, CallActionData};
use multisig::address::Address;
use multisig::model::MultisigError;
use multisig::multisig::Multisig;
use multisig::user_role::UserRole;
use multiversx_sc::types::CodeMetadata;

const QUORUM_SIZE: usize = 1;

fn board_member() -> Address {
    Address::repeat_byte(1)
}

fn proposer() -> Address {
    Address::repeat_byte(2)
}

fn stranger() -> Address {
    Address::repeat_byte(9)
}

fn setup() -> Multisig {
    Multisig::new(QUORUM_SIZE, vec![board_member()], vec![proposer()]).unwrap()
}

fn approve(m: &mut Multisig, action_id: usize) {
    m.sign(board_member(), action_id).unwrap();
}

#[test]
fn test_init() {
    let m = setup();
    assert_eq!(m.quorum(), 1);
    assert_eq!(m.board_member_count(), 1);
    assert_eq!(m.proposer_count(), 1);
    assert_eq!(m.user_role(board_member()), UserRole::BoardMember);
    assert_eq!(m.user_role(proposer()), UserRole::Proposer);
    assert_eq!(m.last_action_id(), 0);
}

#[test]
fn test_add_board_member() {
    let mut m = setup();
    let new_board_member = Address::repeat_byte(3);
    assert_eq!(m.user_role(new_board_member), UserRole::NoRole);

    let action_id = m.propose_add_board_member(proposer(), new_board_member).unwrap();
    assert_eq!(action_id, 1);
    approve(&mut m, action_id);
    assert!(m.quorum_reached(action_id));
    let performed = m.perform(board_member(), action_id).unwrap();
    assert!(matches!(performed, Action::AddBoardMember(a) if a == new_board_member));

    assert_eq!(m.user_role(new_board_member), UserRole::BoardMember);
    assert_eq!(m.board_member_count(), 2);
    assert_eq!(m.get_all_board_members(), vec![board_member(), new_board_member]);
    assert!(m.get_pending_action(action_id).is_none());
}

#[test]
fn test_add_proposer() {
    let mut m = setup();
    let new_proposer = Address::repeat_byte(4);
    assert_eq!(m.user_role(new_proposer), UserRole::NoRole);

    let action_id = m.propose_add_proposer(proposer(), new_proposer).unwrap();
    approve(&mut m, action_id);
    assert!(m.perform(board_member(), action_id).is_ok());

    assert_eq!(m.user_role(new_proposer), UserRole::Proposer);
    assert_eq!(m.get_all_proposers(), vec![proposer(), new_proposer]);
}

#[test]
fn test_remove_proposer() {
    let mut m = setup();
    assert_eq!(m.user_role(proposer()), UserRole::Proposer);

    let first = m.propose_add_board_member(proposer(), Address::repeat_byte(3)).unwrap();
    let action_id = m.propose_remove_user(proposer(), proposer()).unwrap();
    assert_eq!((first, action_id), (1, 2));
    approve(&mut m, action_id);
    assert!(m.perform(board_member(), action_id).is_ok());

    assert_eq!(m.user_role(proposer()), UserRole::NoRole);
    assert!(!m.get_all_board_members().contains(&proposer()));
    assert!(m.get_all_proposers().is_empty());
}

#[test]
fn test_try_remove_all_board_members() {
    let mut m = setup();
    let action_id = m.propose_remove_user(board_member(), board_member()).unwrap();
    approve(&mut m, action_id);
    assert_eq!(
        m.perform(board_member(), action_id).unwrap_err(),
        MultisigError::QuorumWouldBeUnreachable
    );
    assert_eq!(m.user_role(board_member()), UserRole::BoardMember);
    assert_eq!(m.board_member_count(), 1);
    assert!(m.get_pending_action(action_id).is_some());
}

#[test]
fn test_change_quorum() {
    let b1 = Address::repeat_byte(11);
    let b2 = Address::repeat_byte(12);
    let mut m = Multisig::new(2, vec![b1, b2], vec![]).unwrap();

    let too_high = m.propose_change_quorum(b1, 3).unwrap();
    m.sign(b1, too_high).unwrap();
    m.sign(b2, too_high).unwrap();
    assert!(m.quorum_reached(too_high));
    assert_eq!(m.perform(b1, too_high).unwrap_err(), MultisigError::InvalidQuorum);
    assert_eq!(m.quorum(), 2);

    let lower = m.propose_change_quorum(b2, 1).unwrap();
    m.sign(b1, lower).unwrap();
    m.sign(b2, lower).unwrap();
    assert!(matches!(m.perform(b2, lower), Ok(Action::ChangeQuorum(1))));
    assert_eq!(m.quorum(), 1);
}

#[test]
fn test_change_quorum_to_zero_is_invalid() {
    let mut m = setup();
    let action_id = m.propose_change_quorum(proposer(), 0).unwrap();
    approve(&mut m, action_id);
    assert_eq!(m.perform(board_member(), action_id).unwrap_err(), MultisigError::InvalidQuorum);
    assert_eq!(m.quorum(), 1);
}

#[test]
fn test_transfer_execute_to_user() {
    let mut m = setup();
    let to = Address::repeat_byte(20);
    let action_id = m.propose_transfer_execute(proposer(), to, 500, None, vec![]).unwrap();
    approve(&mut m, action_id);
    match m.perform(board_member(), action_id).unwrap() {
        Action::SendTransferExecute(CallActionData { to: t, egld_amount, endpoint_name, arguments }) => {
            assert_eq!(t, to);
            assert_eq!(egld_amount, 500);
            assert!(endpoint_name.is_none());
            assert!(arguments.is_empty());
        },
        _ => panic!("wrong action performed"),
    }
    assert!(m.get_pending_action(action_id).is_none());
}

#[test]
fn test_transfer_execute_sc_all() {
    let mut m = setup();
    let to = Address::repeat_byte(21);
    let action_id = m
        .propose_transfer_execute(proposer(), to, 0, Some(b"add".to_vec()), vec![vec![5u8]])
        .unwrap();
    approve(&mut m, action_id);
    let performed = m.perform(board_member(), action_id).unwrap();
    assert!(performed.is_external());
    match performed {
        Action::SendTransferExecute(data) => {
            assert!(data.has_endpoint());
            assert_eq!(data.endpoint_name, Some(b"add".to_vec()));
            assert_eq!(data.arguments, vec![vec![5u8]]);
        },
        _ => panic!("wrong action performed"),
    }
}

#[test]
fn test_transfer_without_value_or_endpoint_is_refused_at_perform() {
    let mut m = setup();
    let to = Address::repeat_byte(22);
    let action_id = m.propose_transfer_execute(proposer(), to, 0, Some(vec![]), vec![]).unwrap();
    approve(&mut m, action_id);
    assert_eq!(m.perform(board_member(), action_id).unwrap_err(), MultisigError::MissingEndpoint);
    assert!(m.get_pending_action(action_id).is_some());
}

#[test]
fn test_async_call_to_sc() {
    let mut m = setup();
    let to = Address::repeat_byte(23);
    let missing = m.propose_async_call(proposer(), to, 10, None, vec![]).unwrap();
    approve(&mut m, missing);
    assert_eq!(m.perform(board_member(), missing).unwrap_err(), MultisigError::MissingEndpoint);

    let action_id = m
        .propose_async_call(proposer(), to, 10, Some(b"deposit".to_vec()), vec![])
        .unwrap();
    approve(&mut m, action_id);
    match m.perform(board_member(), action_id).unwrap() {
        Action::SendAsyncCall(data) => {
            assert_eq!(data.to, to);
            assert_eq!(data.egld_amount, 10);
            assert_eq!(data.endpoint_name, Some(b"deposit".to_vec()));
        },
        _ => panic!("wrong action performed"),
    }
}

#[test]
fn test_deploy_and_upgrade_from_source() {
    let mut m = setup();
    let source = Address::repeat_byte(30);
    let target = Address::repeat_byte(31);
    let deploy = m
        .propose_sc_deploy_from_source(proposer(), 0, source, CodeMetadata::UPGRADEABLE, vec![])
        .unwrap();
    let upgrade = m
        .propose_sc_upgrade_from_source(
            proposer(),
            target,
            7,
            source,
            CodeMetadata::PAYABLE,
            vec![b"arg".to_vec()],
        )
        .unwrap();
    approve(&mut m, deploy);
    approve(&mut m, upgrade);
    match m.perform(board_member(), deploy).unwrap() {
        Action::SCDeployFromSource { amount, source: s, code_metadata, arguments } => {
            assert_eq!(amount, 0);
            assert_eq!(s, source);
            assert_eq!(code_metadata, CodeMetadata::UPGRADEABLE);
            assert!(arguments.is_empty());
        },
        _ => panic!("wrong action performed"),
    }
    match m.perform(board_member(), upgrade).unwrap() {
        Action::SCUpgradeFromSource { sc_address, amount, source: s, code_metadata, arguments } => {
            assert_eq!(sc_address, target);
            assert_eq!(amount, 7);
            assert_eq!(s, source);
            assert_eq!(code_metadata, CodeMetadata::PAYABLE);
            assert_eq!(arguments, vec![b"arg".to_vec()]);
        },
        _ => panic!("wrong action performed"),
    }
}

#[test]
fn test_roles_are_exactly_one() {
    let m = setup();
    let roles: Vec<UserRole> =
        vec![board_member(), proposer(), stranger()].into_iter().map(|a| m.user_role(a)).collect();
    assert_eq!(roles, vec![UserRole::BoardMember, UserRole::Proposer, UserRole::NoRole]);
    assert!(!m.get_all_proposers().contains(&board_member()));
    assert!(!m.get_all_board_members().contains(&proposer()));
}

#[test]
fn test_promoting_a_proposer_replaces_its_role() {
    let mut m = setup();
    let action_id = m.propose_add_board_member(proposer(), proposer()).unwrap();
    approve(&mut m, action_id);
    m.perform(board_member(), action_id).unwrap();
    assert_eq!(m.user_role(proposer()), UserRole::BoardMember);
    assert_eq!(m.proposer_count(), 0);
    assert_eq!(m.board_member_count(), 2);
}

#[test]
fn test_quorum_stays_within_board_size() {
    let b1 = Address::repeat_byte(11);
    let b2 = Address::repeat_byte(12);
    let mut m = Multisig::new(2, vec![b1, b2], vec![]).unwrap();
    let demote = m.propose_add_proposer(b1, b2).unwrap();
    m.sign(b1, demote).unwrap();
    m.sign(b2, demote).unwrap();
    assert_eq!(m.perform(b1, demote).unwrap_err(), MultisigError::QuorumWouldBeUnreachable);
    assert!(1 <= m.quorum() && m.quorum() <= m.board_member_count());
    assert_eq!(m.user_role(b2), UserRole::BoardMember);
}

#[test]
fn test_sign_twice_counts_once() {
    let b1 = Address::repeat_byte(11);
    let b2 = Address::repeat_byte(12);
    let mut m = Multisig::new(2, vec![b1, b2], vec![]).unwrap();
    let action_id = m.propose_change_quorum(b1, 1).unwrap();
    assert_eq!(m.signature_count(action_id), 0);
    m.sign(b1, action_id).unwrap();
    assert_eq!(m.signature_count(action_id), 1);
    m.sign(b1, action_id).unwrap();
    assert_eq!(m.signature_count(action_id), 1);
    assert_eq!(m.get_pending_action(action_id).unwrap().signers, vec![b1]);
    assert!(!m.quorum_reached(action_id));

    m.unsign(b1, action_id).unwrap();
    assert_eq!(m.signature_count(action_id), 0);
    assert_eq!(m.unsign(b1, action_id), Ok(()));
    assert_eq!(m.signature_count(action_id), 0);
    assert!(m.get_pending_action(action_id).unwrap().signers.is_empty());
}

#[test]
fn test_action_ids_are_never_reused() {
    let mut m = setup();
    let first = m.propose_add_proposer(proposer(), Address::repeat_byte(40)).unwrap();
    let second = m.propose_add_proposer(proposer(), Address::repeat_byte(41)).unwrap();
    assert_eq!((first, second), (1, 2));
    m.discard(proposer(), second).unwrap();
    approve(&mut m, first);
    m.perform(board_member(), first).unwrap();
    assert_eq!(m.last_action_id(), 2);
    let third = m.propose_add_proposer(proposer(), Address::repeat_byte(42)).unwrap();
    assert_eq!(third, 3);
    assert_eq!(m.sign(board_member(), second), Err(MultisigError::NotFound));
    assert_eq!(m.perform(board_member(), first).unwrap_err(), MultisigError::NotFound);
}

#[test]
fn test_demoted_signer_no_longer_counts() {
    let b1 = Address::repeat_byte(11);
    let b2 = Address::repeat_byte(12);
    let b3 = Address::repeat_byte(13);
    let mut m = Multisig::new(2, vec![b1, b2, b3], vec![]).unwrap();
    let pending = m.propose_transfer_execute(b2, stranger(), 1, None, vec![]).unwrap();
    m.sign(b1, pending).unwrap();
    assert_eq!(m.signature_count(pending), 1);

    let remove = m.propose_remove_user(b2, b1).unwrap();
    m.sign(b2, remove).unwrap();
    m.sign(b3, remove).unwrap();
    m.perform(b2, remove).unwrap();
    assert_eq!(m.user_role(b1), UserRole::NoRole);

    assert_eq!(m.get_pending_action(pending).unwrap().signers, vec![b1]);
    assert_eq!(m.signature_count(pending), 0);
    assert!(!m.quorum_reached(pending));
    assert_eq!(m.perform(b2, pending).unwrap_err(), MultisigError::QuorumNotMet);

    m.sign(b2, pending).unwrap();
    assert!(!m.quorum_reached(pending));
    m.sign(b3, pending).unwrap();
    assert_eq!(m.signature_count(pending), 2);
    assert!(m.quorum_reached(pending));
}

#[test]
fn test_discard_refused_once_quorum_reached() {
    let mut m = setup();
    let action_id = m.propose_add_proposer(proposer(), Address::repeat_byte(50)).unwrap();
    approve(&mut m, action_id);
    assert!(m.quorum_reached(action_id));
    assert_eq!(m.discard(board_member(), action_id), Err(MultisigError::QuorumReached));
    assert_eq!(m.discard(proposer(), action_id), Err(MultisigError::QuorumReached));
    assert!(m.get_pending_action(action_id).is_some());
    assert!(m.perform(board_member(), action_id).is_ok());
}

#[test]
fn test_discard_rules() {
    let mut m = setup();
    let action_id = m.propose_add_proposer(proposer(), Address::repeat_byte(51)).unwrap();
    assert_eq!(m.discard(stranger(), action_id), Err(MultisigError::Unauthorized));
    assert_eq!(m.discard(proposer(), 99), Err(MultisigError::NotFound));
    assert_eq!(m.discard(proposer(), action_id), Ok(()));
    assert!(m.get_pending_action(action_id).is_none());
    let other = m.propose_add_proposer(proposer(), Address::repeat_byte(52)).unwrap();
    assert_eq!(m.discard(board_member(), other), Ok(()));
}

#[test]
fn test_access_guard() {
    let mut m = setup();
    assert_eq!(
        m.propose_add_proposer(stranger(), stranger()),
        Err(MultisigError::Unauthorized)
    );
    assert_eq!(m.last_action_id(), 0);
    let action_id = m.propose_add_proposer(board_member(), stranger()).unwrap();
    assert_eq!(m.sign(proposer(), action_id), Err(MultisigError::Unauthorized));
    assert_eq!(m.unsign(proposer(), action_id), Err(MultisigError::Unauthorized));
    assert_eq!(m.sign(board_member(), 0), Err(MultisigError::NotFound));
    assert_eq!(m.unsign(board_member(), 7), Err(MultisigError::NotFound));
    assert_eq!(m.perform(board_member(), action_id).unwrap_err(), MultisigError::QuorumNotMet);
    approve(&mut m, action_id);
    assert_eq!(m.perform(proposer(), action_id).unwrap_err(), MultisigError::Unauthorized);
    assert_eq!(m.perform(board_member(), 5).unwrap_err(), MultisigError::NotFound);
    assert!(m.get_pending_action(action_id).is_some());
}

#[test]
fn test_remove_user_without_role() {
    let mut m = setup();
    let action_id = m.propose_remove_user(proposer(), stranger()).unwrap();
    approve(&mut m, action_id);
    assert_eq!(m.perform(board_member(), action_id).unwrap_err(), MultisigError::NothingToRemove);
}

#[test]
fn test_new_rejects_bad_setups() {
    let b = board_member();
    let p = proposer();
    assert_eq!(Multisig::new(0, vec![b], vec![]).err(), Some(MultisigError::InvalidQuorum));
    assert_eq!(Multisig::new(2, vec![b], vec![]).err(), Some(MultisigError::InvalidQuorum));
    assert_eq!(Multisig::new(1, vec![b, b], vec![]).err(), Some(MultisigError::DuplicateUser));
    assert_eq!(Multisig::new(1, vec![b], vec![p, p]).err(), Some(MultisigError::DuplicateUser));
    assert_eq!(Multisig::new(1, vec![b], vec![b]).err(), Some(MultisigError::DuplicateUser));
}

#[test]
fn test_address_equality_is_bytewise() {
    let mut bytes = [7u8; 32];
    let a = Address::from_bytes(bytes);
    bytes[31] = 8;
    let b = Address::from_bytes(bytes);
    assert!(a.same_as(&Address::repeat_byte(7)));
    assert!(!a.same_as(&b));
    assert_ne!(a, b);
}

#[test]
fn test_role_permissions() {
    assert!(!UserRole::NoRole.can_propose());
    assert!(UserRole::Proposer.can_propose());
    assert!(!UserRole::Proposer.can_sign());
    assert!(UserRole::BoardMember.can_sign());
}
