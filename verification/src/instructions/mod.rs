//! The transitions of a dare, one module each.

pub mod accept_dare;
pub mod approve_dare;
pub mod cancel_dare;
pub mod create_dare;
pub mod expire_dare;
pub mod refuse_dare;
pub mod reject_dare;
pub mod submit_proof;

pub use accept_dare::AcceptDare;
pub use approve_dare::ApproveDare;
pub use cancel_dare::CancelDare;
pub use create_dare::CreateDare;
pub use expire_dare::ExpireDare;
pub use refuse_dare::RefuseDare;
pub use reject_dare::RejectDare;
pub use submit_proof::SubmitProof;
