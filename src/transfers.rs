use vstd::prelude::*;

use crate::record::{AssetKind, PartyId, Transfer};

verus! {

/// Why a direct token transfer is refused.
#[derive(Clone, Copy, Debug, PartialEq, Eq, Structural)]
pub enum ErrorDefine {
    /// The token's mint is not the one the configuration supports.
    MintUnSupport,
    /// The caller may not move these tokens.
    Unauthorized,
}

/// The one token mint that direct transfers accept.
#[derive(Clone, Copy, Debug, PartialEq, Eq, Structural)]
pub struct Config {
    pub mint_address: u64,
}

/// A configuration that accepts tokens of `mint`.
pub fn init(mint: u64) -> (r: Config)
    ensures
        r.mint_address == mint,
{
    Config { mint_address: mint }
}

/// The transfer of `amount` tokens of `mint` from `sender` to `receiver`,
/// provided `mint` is the configured one.
pub fn transfer(config: &Config, sender: PartyId, receiver: PartyId, mint: u64, amount: u64) -> (r: Result<Transfer, ErrorDefine>)
    ensures
        r is Ok <==> mint == config.mint_address,
        r is Err ==> r == Err::<Transfer, ErrorDefine>(ErrorDefine::MintUnSupport),
        r matches Ok(t) ==> t == (Transfer {
            from: sender,
            to: receiver,
            asset: AssetKind::Fungible { mint },
            amount,
        }),
{
    if mint != config.mint_address {
        return Err(ErrorDefine::MintUnSupport);
    }
    Ok(Transfer { from: sender, to: receiver, asset: AssetKind::Fungible { mint }, amount })
}

} // verus!
