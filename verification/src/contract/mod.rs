pub mod contract_bytecode_query;
