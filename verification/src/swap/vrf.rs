//! The record that holds the randomness oracle's latest result, and the
//! request that asks the oracle for a new one.  A result is taken over only
//! in answer to a request, and never the one that was taken over last: so a
//! result that a draw has used cannot be brought back.

use vstd::prelude::*;
use crate::swap::state::{Config, ErrorCode};
use crate::merkle::digest_eq;
use crate::types::{all_zero, is_all_zero, Pubkey};

verus! {

broadcast use vstd::array::axiom_array_ext_equal;

/// The oracle's result and the accounts that requests must name.
#[derive(Clone, Copy, Debug, PartialEq, Eq)]
pub struct VrfState {
    pub bump: u8,
    pub result_buffer: [u8; 32],
    pub last_timestamp: i64,
    pub vrf_account: Pubkey,
    pub oracle_queue: Pubkey,
    pub queue_authority: Pubkey,
    pub data_buffer: Pubkey,
    pub permission: Pubkey,
    pub escrow: Pubkey,
    pub payer_wallet: Pubkey,
    /// Whether a request has been made whose result has not been taken
    /// over yet.
    pub request_pending: bool,
    /// The result that was taken over last; all zero before the first.
    pub last_result: [u8; 32],
}

/// Why an oracle operation is refused.
#[derive(Clone, Copy, Debug, PartialEq, Eq, Structural)]
pub enum VrfError {
    ResultNotReady,
    InvalidVrfAccount,
}

/// Why a randomness request is refused: by the program's own rules or by the
/// oracle's.
#[derive(Clone, Copy, Debug, PartialEq, Eq, Structural)]
pub enum VrfFailure {
    Program(ErrorCode),
    Vrf(VrfError),
}

/// Address of the oracle program.
pub const SWITCHBOARD_PROGRAM_ID: [u8; 32] = [
    45, 191, 211, 253, 220, 54, 156, 186, 192, 46, 10, 172, 25, 91, 51, 46, 200, 36, 75, 90, 105,
    231, 7, 95, 204, 83, 82, 6, 87, 214, 143, 138,
];

/// Tag of the oracle's request instruction.
pub const REQUEST_DISCRIMINATOR: [u8; 8] = [221, 11, 167, 47, 80, 107, 18, 71];

/// Offset of the result in an oracle account: after the tag, two bump bytes,
/// the pool address and the status byte.
pub const RESULT_OFFSET: usize = 43;

/// Least length of an oracle account that is read at all.
pub const RESULT_MIN_LEN: usize = 40;

/// The accounts named by a randomness request.
#[derive(Clone, Copy, Debug, PartialEq, Eq)]
pub struct RequestRandomness {
    pub authority: Pubkey,
    pub vrf_state: Pubkey,
    pub vrf: Pubkey,
    pub vrf_owner: Pubkey,
    pub oracle_queue: Pubkey,
    pub queue_authority: Pubkey,
    pub data_buffer: Pubkey,
    pub permission: Pubkey,
    pub escrow: Pubkey,
    pub payer_wallet: Pubkey,
    pub recent_blockhashes: Pubkey,
    pub switchboard_program: Pubkey,
    pub program_state: Pubkey,
    pub token_program: Pubkey,
}

/// One account of an instruction sent to another program.
#[derive(Clone, Copy, Debug, PartialEq, Eq)]
pub struct AccountMeta {
    pub pubkey: Pubkey,
    pub is_signer: bool,
    pub is_writable: bool,
}

/// An instruction for another program, to be signed for the oracle record.
#[derive(Clone, Debug, PartialEq, Eq)]
pub struct Instruction {
    pub program_id: Pubkey,
    pub accounts: Vec<AccountMeta>,
    pub data: Vec<u8>,
}

/// The oracle program's address.
pub open spec fn spec_switchboard_id() -> Pubkey {
    Pubkey { bytes: SWITCHBOARD_PROGRAM_ID }
}

pub fn switchboard_id() -> (id: Pubkey)
    ensures
        id == spec_switchboard_id(),
{
    Pubkey::new(SWITCHBOARD_PROGRAM_ID)
}

/// A fresh oracle record bound to `vrf_account`, with no result yet.
pub fn initialize_vrf(bump: u8, vrf_account: Pubkey) -> (state: VrfState)
    ensures
        state.bump == bump,
        all_zero(state.result_buffer),
        state.last_timestamp == 0,
        state.vrf_account == vrf_account,
        state.oracle_queue == Pubkey::spec_zero(),
        state.queue_authority == Pubkey::spec_zero(),
        state.data_buffer == Pubkey::spec_zero(),
        state.permission == Pubkey::spec_zero(),
        state.escrow == Pubkey::spec_zero(),
        state.payer_wallet == Pubkey::spec_zero(),
        !state.request_pending,
        all_zero(state.last_result),
{
    VrfState {
        bump,
        result_buffer: [0u8; 32],
        last_timestamp: 0,
        vrf_account,
        oracle_queue: Pubkey::zero(),
        queue_authority: Pubkey::zero(),
        data_buffer: Pubkey::zero(),
        permission: Pubkey::zero(),
        escrow: Pubkey::zero(),
        payer_wallet: Pubkey::zero(),
        request_pending: false,
        last_result: [0u8; 32],
    }
}

/// Whether the record has not been bound to an oracle queue yet.
pub open spec fn unbound(state: VrfState) -> bool {
    state.oracle_queue == Pubkey::spec_zero()
}

/// Whether the request names exactly the accounts that the record is bound to.
pub open spec fn matches_binding(state: VrfState, accounts: RequestRandomness) -> bool {
    &&& accounts.oracle_queue == state.oracle_queue
    &&& accounts.queue_authority == state.queue_authority
    &&& accounts.data_buffer == state.data_buffer
    &&& accounts.permission == state.permission
    &&& accounts.escrow == state.escrow
    &&& accounts.payer_wallet == state.payer_wallet
}

/// The first check that fails for a randomness request, if any.
pub open spec fn request_error(config: Config, state: VrfState, accounts: RequestRandomness) -> Option<
    VrfFailure,
> {
    if accounts.vrf != state.vrf_account {
        Some(VrfFailure::Vrf(VrfError::InvalidVrfAccount))
    } else if accounts.authority != config.admin {
        Some(VrfFailure::Program(ErrorCode::Unauthorized))
    } else if accounts.switchboard_program != spec_switchboard_id() {
        Some(VrfFailure::Vrf(VrfError::InvalidVrfAccount))
    } else if accounts.vrf_owner != spec_switchboard_id() {
        Some(VrfFailure::Vrf(VrfError::InvalidVrfAccount))
    } else if !unbound(state) && !matches_binding(state, accounts) {
        Some(VrfFailure::Vrf(VrfError::InvalidVrfAccount))
    } else {
        None
    }
}

/// The record after a request: bound to the request's accounts if it was
/// unbound, stamped with the time of the request, and waiting for the
/// result.
pub open spec fn after_request(state: VrfState, accounts: RequestRandomness, now: i64) -> VrfState {
    if unbound(state) {
        VrfState {
            oracle_queue: accounts.oracle_queue,
            queue_authority: accounts.queue_authority,
            data_buffer: accounts.data_buffer,
            permission: accounts.permission,
            escrow: accounts.escrow,
            payer_wallet: accounts.payer_wallet,
            last_timestamp: now,
            request_pending: true,
            ..state
        }
    } else {
        VrfState { last_timestamp: now, request_pending: true, ..state }
    }
}

/// The accounts of the oracle's request instruction, in the order the oracle
/// expects them.
pub open spec fn request_accounts(accounts: RequestRandomness) -> Seq<AccountMeta> {
    seq![
        AccountMeta { pubkey: accounts.vrf_state, is_signer: true, is_writable: true },
        AccountMeta { pubkey: accounts.vrf, is_signer: true, is_writable: true },
        AccountMeta { pubkey: accounts.oracle_queue, is_signer: true, is_writable: true },
        AccountMeta { pubkey: accounts.queue_authority, is_signer: false, is_writable: false },
        AccountMeta { pubkey: accounts.data_buffer, is_signer: false, is_writable: false },
        AccountMeta { pubkey: accounts.permission, is_signer: false, is_writable: false },
        AccountMeta { pubkey: accounts.escrow, is_signer: false, is_writable: true },
        AccountMeta { pubkey: accounts.recent_blockhashes, is_signer: false, is_writable: false },
        AccountMeta { pubkey: accounts.program_state, is_signer: false, is_writable: false },
        AccountMeta { pubkey: accounts.token_program, is_signer: false, is_writable: false },
    ]
}

/// The data of the oracle's request instruction: its tag and an absent callback.
pub open spec fn request_data() -> Seq<u8> {
    REQUEST_DISCRIMINATOR@.push(0u8)
}

/// Validates a randomness request and builds the instruction that carries it
/// to the oracle.  Only the admin may request; the oracle program and the
/// owner of the oracle account must be the known oracle; the first request
/// binds the record to its accounts and every later one must name the same.
pub fn request_randomness(
    config: &Config,
    state: &mut VrfState,
    accounts: &RequestRandomness,
    now: i64,
) -> (outcome: Result<Instruction, VrfFailure>)
    ensures
        match outcome {
            Ok(ix) => {
                &&& request_error(*config, *old(state), *accounts) is None
                &&& *final(state) == after_request(*old(state), *accounts, now)
                &&& ix.program_id == spec_switchboard_id()
                &&& ix.accounts@ == request_accounts(*accounts)
                &&& ix.data@ == request_data()
            },
            Err(e) => request_error(*config, *old(state), *accounts) == Some(e) && *final(state)
                == *old(state),
        },
{
    if accounts.vrf != state.vrf_account {
        return Err(VrfFailure::Vrf(VrfError::InvalidVrfAccount));
    }
    if accounts.authority != config.admin {
        return Err(VrfFailure::Program(ErrorCode::Unauthorized));
    }
    let oracle = switchboard_id();
    if accounts.switchboard_program != oracle {
        return Err(VrfFailure::Vrf(VrfError::InvalidVrfAccount));
    }
    if accounts.vrf_owner != oracle {
        return Err(VrfFailure::Vrf(VrfError::InvalidVrfAccount));
    }
    if state.oracle_queue.is_zero() {
        state.oracle_queue = accounts.oracle_queue;
        state.queue_authority = accounts.queue_authority;
        state.data_buffer = accounts.data_buffer;
        state.permission = accounts.permission;
        state.escrow = accounts.escrow;
        state.payer_wallet = accounts.payer_wallet;
    } else {
        if accounts.oracle_queue != state.oracle_queue || accounts.queue_authority
            != state.queue_authority || accounts.data_buffer != state.data_buffer
            || accounts.permission != state.permission || accounts.escrow != state.escrow
            || accounts.payer_wallet != state.payer_wallet {
            return Err(VrfFailure::Vrf(VrfError::InvalidVrfAccount));
        }
    }
    let mut metas: Vec<AccountMeta> = Vec::new();
    metas.push(AccountMeta { pubkey: accounts.vrf_state, is_signer: true, is_writable: true });
    metas.push(AccountMeta { pubkey: accounts.vrf, is_signer: true, is_writable: true });
    metas.push(AccountMeta { pubkey: accounts.oracle_queue, is_signer: true, is_writable: true });
    metas.push(
        AccountMeta { pubkey: accounts.queue_authority, is_signer: false, is_writable: false },
    );
    metas.push(AccountMeta { pubkey: accounts.data_buffer, is_signer: false, is_writable: false });
    metas.push(AccountMeta { pubkey: accounts.permission, is_signer: false, is_writable: false });
    metas.push(AccountMeta { pubkey: accounts.escrow, is_signer: false, is_writable: true });
    metas.push(
        AccountMeta { pubkey: accounts.recent_blockhashes, is_signer: false, is_writable: false },
    );
    metas.push(AccountMeta { pubkey: accounts.program_state, is_signer: false, is_writable: false });
    metas.push(AccountMeta { pubkey: accounts.token_program, is_signer: false, is_writable: false });
    assert(metas@ =~= request_accounts(*accounts));
    let mut data: Vec<u8> = Vec::new();
    let mut i: usize = 0;
    while i < 8
        invariant
            i <= 8,
            data@ == REQUEST_DISCRIMINATOR@.subrange(0, i as int),
        decreases 8 - i,
    {
        data.push(REQUEST_DISCRIMINATOR[i]);
        i = i + 1;
    }
    assert(REQUEST_DISCRIMINATOR@.subrange(0, 8) == REQUEST_DISCRIMINATOR@);
    data.push(0);
    state.last_timestamp = now;
    state.request_pending = true;
    Ok(Instruction { program_id: oracle, accounts: metas, data })
}

/// The 32 bytes that an oracle account holds as its result; all zero when
/// the account is too short to hold one.
pub open spec fn stored_result(data: Seq<u8>, i: int) -> u8 {
    if data.len() >= RESULT_OFFSET + 32 {
        data[RESULT_OFFSET + i]
    } else {
        0u8
    }
}

/// Whether the result that an oracle account holds is `bytes`.
pub open spec fn holds_result(data: Seq<u8>, bytes: [u8; 32]) -> bool {
    forall|i: int| 0 <= i < 32 ==> stored_result(data, i) == bytes[i]
}

/// The first check that fails when a result is taken over, if any.  A
/// result is not ready while no request waits for one, while the oracle
/// account holds none, and while it still holds the one that was taken over
/// last.
pub open spec fn consume_error(state: VrfState, vrf: Pubkey, vrf_owner: Pubkey, data: Seq<u8>) -> Option<
    VrfError,
> {
    if vrf != state.vrf_account {
        Some(VrfError::InvalidVrfAccount)
    } else if vrf_owner != spec_switchboard_id() {
        Some(VrfError::InvalidVrfAccount)
    } else if !state.request_pending {
        Some(VrfError::ResultNotReady)
    } else if data.len() < RESULT_MIN_LEN {
        Some(VrfError::ResultNotReady)
    } else if forall|i: int| 0 <= i < 32 ==> stored_result(data, i) == 0 {
        Some(VrfError::ResultNotReady)
    } else if holds_result(data, state.last_result) {
        Some(VrfError::ResultNotReady)
    } else {
        None
    }
}

/// Whether `post` is `pre` after the result in `data` was taken over at
/// `now`: the record holds the result, remembers it as the last one, and
/// waits for no request any more.
pub open spec fn result_taken(pre: VrfState, post: VrfState, data: Seq<u8>, now: i64) -> bool {
    &&& holds_result(data, post.result_buffer)
    &&& post.last_result == post.result_buffer
    &&& !all_zero(post.result_buffer)
    &&& post == (VrfState {
        result_buffer: post.result_buffer,
        last_result: post.last_result,
        last_timestamp: now,
        request_pending: false,
        ..pre
    })
}

/// Takes the oracle's result over into the record.  The account must be the
/// one the record is bound to and be owned by the oracle program; a request
/// must be waiting for the result; and the result must be neither all zero
/// nor the one that was taken over last.
pub fn consume_randomness(
    state: &mut VrfState,
    vrf: Pubkey,
    vrf_owner: Pubkey,
    data: &[u8],
    now: i64,
) -> (outcome: Result<(), VrfError>)
    ensures
        match outcome {
            Ok(_) => {
                &&& consume_error(*old(state), vrf, vrf_owner, data@) is None
                &&& result_taken(*old(state), *final(state), data@, now)
            },
            Err(e) => consume_error(*old(state), vrf, vrf_owner, data@) == Some(e) && *final(state)
                == *old(state),
        },
{
    if vrf != state.vrf_account {
        return Err(VrfError::InvalidVrfAccount);
    }
    if vrf_owner != switchboard_id() {
        return Err(VrfError::InvalidVrfAccount);
    }
    if !state.request_pending {
        return Err(VrfError::ResultNotReady);
    }
    if data.len() < RESULT_MIN_LEN {
        return Err(VrfError::ResultNotReady);
    }
    let mut result = [0u8; 32];
    if data.len() >= RESULT_OFFSET + 32 {
        let mut i: usize = 0;
        while i < 32
            invariant
                i <= 32,
                data@.len() >= RESULT_OFFSET + 32,
                forall|j: int| 0 <= j < i ==> result[j] == data@[RESULT_OFFSET + j],
            decreases 32 - i,
        {
            result[i] = data[RESULT_OFFSET + i];
            i = i + 1;
        }
    }
    assert(forall|i: int| 0 <= i < 32 ==> result[i] == stored_result(data@, i));
    if is_all_zero(&result) {
        return Err(VrfError::ResultNotReady);
    }
    if digest_eq(&result, &state.last_result) {
        assert(holds_result(data@, state.last_result));
        return Err(VrfError::ResultNotReady);
    }
    assert(!holds_result(data@, state.last_result)) by {
        if holds_result(data@, state.last_result) {
            assert(result@ =~= state.last_result@);
        }
    }
    state.result_buffer = result;
    state.last_result = result;
    state.last_timestamp = now;
    state.request_pending = false;
    Ok(())
}

/// A result is taken over once.  After a result was taken over, the record
/// takes none until a new request is made; and after a new request it still
/// refuses the result it took last, whatever a draw has done to the record's
/// buffer in between.
pub proof fn lemma_result_taken_once(
    pre: VrfState,
    post: VrfState,
    later: VrfState,
    accounts: RequestRandomness,
    vrf: Pubkey,
    vrf_owner: Pubkey,
    data: Seq<u8>,
    any_data: Seq<u8>,
    now: i64,
    then: i64,
)
    requires
        result_taken(pre, post, data, now),
        later == (VrfState { result_buffer: later.result_buffer, ..post }),
    ensures
        consume_error(later, vrf, vrf_owner, any_data) is Some,
        consume_error(after_request(later, accounts, then), vrf, vrf_owner, data) is Some,
{
}

/// Creates the oracle record; see [`initialize_vrf`].
pub fn initialize_vrf_state(bump: u8, vrf_account: Pubkey) -> (state: VrfState)
    ensures
        state.bump == bump,
        all_zero(state.result_buffer),
        state.last_timestamp == 0,
        state.vrf_account == vrf_account,
        unbound(state),
        !state.request_pending,
        all_zero(state.last_result),
{
    initialize_vrf(bump, vrf_account)
}

/// Asks the oracle for randomness; see [`request_randomness`].
pub fn request_vrf_randomness(
    config: &Config,
    state: &mut VrfState,
    accounts: &RequestRandomness,
    now: i64,
) -> (outcome: Result<Instruction, VrfFailure>)
    ensures
        match outcome {
            Ok(ix) => {
                &&& request_error(*config, *old(state), *accounts) is None
                &&& *final(state) == after_request(*old(state), *accounts, now)
                &&& ix.program_id == spec_switchboard_id()
                &&& ix.accounts@ == request_accounts(*accounts)
                &&& ix.data@ == request_data()
            },
            Err(e) => request_error(*config, *old(state), *accounts) == Some(e) && *final(state)
                == *old(state),
        },
{
    request_randomness(config, state, accounts, now)
}

/// Takes the oracle's result over; see [`consume_randomness`].
pub fn consume_vrf_randomness(
    state: &mut VrfState,
    vrf: Pubkey,
    vrf_owner: Pubkey,
    data: &[u8],
    now: i64,
) -> (outcome: Result<(), VrfError>)
    ensures
        match outcome {
            Ok(_) => {
                &&& consume_error(*old(state), vrf, vrf_owner, data@) is None
                &&& result_taken(*old(state), *final(state), data@, now)
            },
            Err(e) => consume_error(*old(state), vrf, vrf_owner, data@) == Some(e) && *final(state)
                == *old(state),
        },
{
    consume_randomness(state, vrf, vrf_owner, data, now)
}

} // verus!
