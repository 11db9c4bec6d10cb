//! A minimal on-chain program: one no-op entry point, `initialize`, together
//! with its (empty) account-context descriptor and a plain-value model of the
//! invocation context that the host runtime hands to a call.

pub mod context;
pub mod program;

pub use context::Account;
pub use context::AccountView;
pub use context::ContextView;
pub use context::InvocationContext;
pub use program::Initialize;
pub use program::ProgramResult;
pub use program::initialize;
pub use program::lemma_descriptor_is_empty;
pub use program::program_id;
