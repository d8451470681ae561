//! The identity/profile registry's records and the bookkeeping operations on
//! them: global season configuration and per-user profile registration. The
//! profile's score counters are mutated by an external oracle process, not
//! here; the staking engine only links to a profile by its identity key.

use vstd::prelude::*;
use vstd::string::StrSliceExecFns;
use crate::errors::ErrorCode;

verus! {

/// A user's profile record, bound to a wallet identity and an external
/// fantasy-sports identifier.
#[derive(Clone, Debug)]
pub struct FplUser {
    /// The user's wallet identity.
    pub authority: u64,
    /// The user's external identifier, 1 to 20 characters.
    pub fpl_id: String,
    /// Serialized team data, an opaque blob to this core.
    pub team_data: Vec<u8>,
    /// Current weekly score, written by the external oracle.
    pub weekly_score: u32,
    /// Total season score, written by the external oracle.
    pub total_score: u32,
    /// Timestamp of the last update.
    pub last_updated: i64,
}

/// The admin-written global season configuration, consumed — never produced —
/// by the staking core.
#[derive(Clone, Debug)]
pub struct FplGlobalState {
    /// The administrator's identity.
    pub admin: u64,
    /// Current gameweek.
    pub current_gameweek: u8,
    /// Season start timestamp.
    pub season_start: i64,
    /// Season end timestamp.
    pub season_end: i64,
    /// External API URL the oracle reads from.
    pub api_url: String,
}

/// The parameters an administrator supplies when writing the global season
/// configuration.
#[derive(Clone, Debug)]
pub struct FplGlobalParams {
    pub current_gameweek: u8,
    pub season_start: i64,
    pub season_end: i64,
    pub api_url: String,
}

/// One-time admin bootstrap: writes the global season configuration record
/// from the given parameters, owned by the given administrator.
pub fn initialize_fpl_global(admin: u64, params: FplGlobalParams) -> (g: FplGlobalState)
    ensures
        g.admin == admin,
        g.current_gameweek == params.current_gameweek,
        g.season_start == params.season_start,
        g.season_end == params.season_end,
        g.api_url@ == params.api_url@,
{
    FplGlobalState {
        admin,
        current_gameweek: params.current_gameweek,
        season_start: params.season_start,
        season_end: params.season_end,
        api_url: params.api_url,
    }
}

/// Registers a profile for `authority` under the external identifier
/// `fpl_id`. The identifier must be 1 to 20 characters, else the request
/// fails with `InvalidFplId`; on success the profile starts with an empty
/// team blob, zero scores, and `now` as its last update time.
pub fn register_fpl_user(authority: u64, fpl_id: String, now: i64) -> (r: Result<
    FplUser,
    ErrorCode,
>)
    ensures
        r is Ok <==> 1 <= fpl_id@.len() <= 20,
        r matches Ok(u) ==> {
            &&& u.authority == authority
            &&& u.fpl_id@ == fpl_id@
            &&& u.team_data@ == Seq::<u8>::empty()
            &&& u.weekly_score == 0
            &&& u.total_score == 0
            &&& u.last_updated == now
        },
        r matches Err(e) ==> e == ErrorCode::InvalidFplId,
{
    let len: usize = fpl_id.as_str().unicode_len();
    if len == 0 || len > 20 {
        return Err(ErrorCode::InvalidFplId);
    }
    Ok(
        FplUser {
            authority,
            fpl_id,
            team_data: Vec::new(),
            weekly_score: 0,
            total_score: 0,
            last_updated: now,
        },
    )
}

} // verus!
