//! The program's single operation, `initialize`, and the account-context
//! descriptor declared for it.

use vstd::prelude::*;

use crate::context::ContextView;
use crate::context::InvocationContext;

verus! {

/// The fixed identifier under which the program is deployed. The host
/// runtime uses it to route invocations to this program; its exact value is
/// immaterial to the program's behavior.
pub open spec fn spec_program_id() -> Seq<char> {
    "6DAtUVDGwUrV5xEtRxyYXGG6kvskeFQuhDNyt7E38yhx"@
}

/// Returns the program's fixed identifier.
pub fn program_id() -> (id: &'static str)
    ensures
        id@ == spec_program_id(),
{
    "6DAtUVDGwUrV5xEtRxyYXGG6kvskeFQuhDNyt7E38yhx"
}

/// Result of a program operation. The sole operation has no failure path,
/// so the error side is never produced.
pub type ProgramResult = Result<(), ()>;

/// Account-context descriptor for `initialize`: it declares which accounts
/// the host runtime must supply and validate before the operation body runs.
/// The declared set is empty.
pub struct Initialize {}

impl Initialize {
    /// Whether an invocation context satisfies the declared account
    /// requirements. The declared set is empty, so every context does.
    pub open spec fn accepts(ctx: ContextView) -> bool {
        true
    }

    /// How many accounts the descriptor requires the runtime to supply.
    pub open spec fn spec_required_accounts() -> nat {
        0
    }

    /// Returns the number of accounts the descriptor requires: none.
    pub fn required_account_count() -> (n: usize)
        ensures
            n == Initialize::spec_required_accounts(),
    {
        0
    }

    /// Validates an invocation context against the descriptor. No signer,
    /// ownership, or data-account check is declared, so validation succeeds
    /// on every context, with however many accounts it carries.
    pub fn try_accounts(ctx: &InvocationContext) -> (r: Result<Initialize, ()>)
        ensures
            r == Ok::<Initialize, ()>((Initialize {})),
            r is Ok <==> Initialize::accepts(ctx@),
    {
        Ok(Initialize {})
    }
}

/// The program's single entry point. It performs no reads, writes, or
/// computation: it always reports success, and the invocation context comes
/// back exactly as it went in.
pub fn initialize(ctx: &mut InvocationContext) -> (r: ProgramResult)
    ensures
        r == Ok::<(), ()>(()),
        final(ctx)@ == old(ctx)@,
{
    Ok(())
}

/// The account requirements declared for `initialize` are exactly empty:
/// a context with no accounts satisfies them, and one carrying extra
/// accounts is never rejected, since no account-level check is declared.
pub proof fn lemma_descriptor_is_empty(ctx: ContextView)
    ensures
        Initialize::accepts(ctx),
        Initialize::spec_required_accounts() == 0,
{
}

} // verus!

