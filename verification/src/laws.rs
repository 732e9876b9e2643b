//! What holds of the registry as a whole: of every request, and of every ledger
//! that requests lead to.

pub mod agreements;
pub mod asking;
pub mod batches;
pub mod changing;
pub mod claims;
pub mod deciding;
pub mod governance;
pub mod history;
pub mod indexes;
pub mod issuing;
pub mod keeping;
pub mod listings;
pub mod policies;
pub mod registering;
pub mod running;
pub mod scope;
pub mod signing;
pub mod standing;
pub mod terms;
