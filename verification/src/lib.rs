pub mod app;
pub mod checkout;
pub mod discovery;
pub mod errors;
pub mod externals;
pub mod git;
pub mod pool;
pub mod repository;
pub mod settings;
pub mod text;
