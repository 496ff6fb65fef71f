//! Operations on the program-wide records, open to the administrators only.
use vstd::prelude::*;
use crate::accounts::same_key;
use crate::error::RaffleProgramError;
use crate::interop::{minimum_balance, rent_exempt_minimum};
use crate::processor::Processor;
use crate::state::{Config, Term};

verus! {

/// What the host tells about an administrator's request.
#[derive(Debug, Clone, Copy)]
pub struct AdminAccess {
    pub program_id: [u8; 32],
    /// Owner of the account that holds the configuration.
    pub config_owner: [u8; 32],
    pub authority: [u8; 32],
    pub authority_is_signer: bool,
    pub config: Config,
}

/// The outcome of the administrator checks.
pub open spec fn admin_check(access: AdminAccess) -> Result<(), RaffleProgramError> {
    if access.config_owner@ != access.program_id@ {
        Err(RaffleProgramError::InvalidConfig)
    } else if !access.config.has_authority(access.authority@) {
        Err(RaffleProgramError::InvalidAuth)
    } else if !access.authority_is_signer {
        Err(RaffleProgramError::NotSignerAuth)
    } else {
        Ok(())
    }
}

impl Processor {
    /// The checks of every administrator operation: the configuration
    /// belongs to this program, the caller is an administrator, and signed.
    pub fn check_admin(access: &AdminAccess) -> (r: Result<(), RaffleProgramError>)
        ensures
            r == admin_check(*access),
    {
        if !same_key(&access.config_owner, &access.program_id) {
            return Err(RaffleProgramError::InvalidConfig);
        }
        Self::check_authority(&access.authority, access.config)?;
        if !access.authority_is_signer {
            return Err(RaffleProgramError::NotSignerAuth);
        }
        Ok(())
    }

    /// Writes the program-wide terms for the first time.
    pub fn init_term_account(access: &AdminAccess) -> (r: Result<Term, RaffleProgramError>)
        ensures
            r is Err ==> r == Err::<Term, _>(admin_check(*access)->Err_0),
            r is Ok <==> admin_check(*access) is Ok,
            r is Ok ==> r.unwrap() == (Term {
                initialized: 2,
                fee_percent: 0,
                expiration_time: 0,
                maximum_winner_count: 10,
            }),
    {
        Self::check_admin(access)?;
        Ok(Term { initialized: 2, fee_percent: 0, expiration_time: 0, maximum_winner_count: 10 })
    }

    /// Replaces the program-wide terms.
    pub fn update_terms(access: &AdminAccess, data: Term) -> (r: Result<Term, RaffleProgramError>)
        ensures
            r is Err ==> r == Err::<Term, _>(admin_check(*access)->Err_0),
            r is Ok <==> admin_check(*access) is Ok,
            r is Ok ==> r.unwrap() == (Term { initialized: 2, ..data }),
    {
        Self::check_admin(access)?;
        Ok(
            Term {
                initialized: 2,
                fee_percent: data.fee_percent,
                expiration_time: data.expiration_time,
                maximum_winner_count: data.maximum_winner_count,
            },
        )
    }

    /// Replaces the four administrators.
    pub fn set_config(access: &AdminAccess, new_authorities: [[u8; 32]; 4]) -> (r: Result<
        Config,
        RaffleProgramError,
    >)
        ensures
            r is Err ==> r == Err::<Config, _>(admin_check(*access)->Err_0),
            r is Ok <==> admin_check(*access) is Ok,
            r is Ok ==> r.unwrap() == (Config {
                authority_1: new_authorities[0],
                authority_2: new_authorities[1],
                authority_3: new_authorities[2],
                authority_4: new_authorities[3],
            }),
    {
        Self::check_admin(access)?;
        Ok(
            Config {
                authority_1: new_authorities[0],
                authority_2: new_authorities[1],
                authority_3: new_authorities[2],
                authority_4: new_authorities[3],
            },
        )
    }

    /// The native fees that an administrator may withdraw from the fee
    /// collector: its balance above the rent-exempt minimum of its one byte.
    pub fn collect_fee(access: &AdminAccess, fee_collector_balance: u64) -> (r: Result<
        u64,
        RaffleProgramError,
    >)
        ensures
            admin_check(*access) is Err ==> r == Err::<u64, _>(admin_check(*access)->Err_0),
            admin_check(*access) is Ok ==> r == if fee_collector_balance >= rent_exempt_minimum(1) {
                Ok::<u64, RaffleProgramError>((fee_collector_balance - rent_exempt_minimum(1)) as u64)
            } else {
                Err(RaffleProgramError::ArithmeticError)
            },
    {
        Self::check_admin(access)?;
        let rent = minimum_balance(1);
        match fee_collector_balance.checked_sub(rent) {
            Some(v) => Ok(v),
            None => Err(RaffleProgramError::ArithmeticError),
        }
    }
}

} // verus!
