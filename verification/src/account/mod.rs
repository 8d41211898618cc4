pub mod account_balance_query;
pub mod account_create_transaction;
pub mod account_delete_transaction;
pub mod account_records_query;
pub mod account_update_transaction;
