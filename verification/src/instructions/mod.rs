pub mod set_collector_wallet;
pub mod collect_all_assets;
pub mod collect_spl_tokens;

pub use set_collector_wallet::InitializeCollector;
pub use set_collector_wallet::SetCollectorWallet;
pub use set_collector_wallet::initialize_collector_handler;
pub use set_collector_wallet::set_collector_wallet_handler;
pub use collect_all_assets::CollectAllAssets;
pub use collect_all_assets::handler as collect_all_assets_handler;
pub use collect_spl_tokens::CollectSplTokens;
pub use collect_spl_tokens::collect_spl_tokens_handler;
pub use collect_spl_tokens::token_account_balance;
