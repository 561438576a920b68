//! Administration of fee and tax rates.
use crate::errors::CustomError;
use crate::state::{same_key, CurveConfiguration, BPS_DENOMINATOR};
use anchor_lang::prelude::Pubkey;
use vstd::prelude::*;

verus! {

/// The configuration with each given field replaced and the others kept.
pub open spec fn updated_config(
    config: CurveConfiguration,
    new_fees: Option<u16>,
    new_treasury: Option<Pubkey>,
    new_paperhand_tax_bps: Option<u16>,
) -> CurveConfiguration {
    CurveConfiguration {
        fees: match new_fees {
            Some(f) => f,
            None => config.fees,
        },
        treasury: match new_treasury {
            Some(t) => t,
            None => config.treasury,
        },
        paperhand_tax_bps: match new_paperhand_tax_bps {
            Some(t) => t,
            None => config.paperhand_tax_bps,
        },
        ..config
    }
}

/// Why an update is rejected, if it is: a caller other than the admin, then
/// a fee rate, then a tax rate above 10000 basis points.
pub open spec fn update_failure(
    config: CurveConfiguration,
    admin: Pubkey,
    new_fees: Option<u16>,
    new_paperhand_tax_bps: Option<u16>,
) -> Option<CustomError> {
    if admin != config.admin {
        Some(CustomError::Unauthorized)
    } else if new_fees matches Some(f) && f > 10000 {
        Some(CustomError::InvalidFee)
    } else if new_paperhand_tax_bps matches Some(t) && t > 10000 {
        Some(CustomError::InvalidTaxBps)
    } else {
        None
    }
}

/// Lets the admin replace any of the fee rate, the treasury and the tax
/// rate. Either every given field is written or, on any failure, none.
pub fn update_configuration(
    dex_config: &mut CurveConfiguration,
    admin: &Pubkey,
    new_fees: Option<u16>,
    new_treasury: Option<Pubkey>,
    new_paperhand_tax_bps: Option<u16>,
) -> (r: Result<(), CustomError>)
    ensures
        ({
            let failure = update_failure(*old(dex_config), *admin, new_fees, new_paperhand_tax_bps);
            &&& failure matches Some(e) ==> r == Err::<(), CustomError>(e) && *final(dex_config)
                == *old(dex_config)
            &&& failure is None ==> r == Ok::<(), CustomError>(()) && *final(dex_config)
                == updated_config(*old(dex_config), new_fees, new_treasury, new_paperhand_tax_bps)
        }),
        old(dex_config).wf() ==> final(dex_config).wf(),
        new_fees is None && new_treasury is None && new_paperhand_tax_bps is None ==> *final(
            dex_config) == *old(dex_config),
{
    if !same_key(admin, &dex_config.admin) {
        return Err(CustomError::Unauthorized);
    }
    if let Some(fees) = new_fees {
        if fees as u64 > BPS_DENOMINATOR {
            return Err(CustomError::InvalidFee);
        }
    }
    if let Some(tax_bps) = new_paperhand_tax_bps {
        if tax_bps as u64 > BPS_DENOMINATOR {
            return Err(CustomError::InvalidTaxBps);
        }
    }
    if let Some(fees) = new_fees {
        dex_config.fees = fees;
    }
    if let Some(treasury) = new_treasury {
        dex_config.treasury = treasury;
    }
    if let Some(tax_bps) = new_paperhand_tax_bps {
        dex_config.paperhand_tax_bps = tax_bps;
    }
    Ok(())
}

} // verus!
