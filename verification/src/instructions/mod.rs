//! The instructions of the pool, one module each.

pub mod claim;
pub mod deposit;
pub mod initialize;
pub mod withdraw;
pub mod withdraw_pool;

pub use claim::{claim_sale_asset, exchange_redeemable_for_watermelon, ExchangeRedeemableForWatermelon};
pub use deposit::{deposit, exchange_usdc_for_redeemable, ExchangeUsdcForRedeemable};
pub use initialize::{conclude_creation, create_pool, initialize_pool, InitializePool};
pub use withdraw::{exchange_redeemable_for_usdc, redeem_stable_asset, ExchangeRedeemableForUsdc};
pub use withdraw_pool::{withdraw_pool_usdc, withdraw_proceeds, WithdrawPoolUsdc};
