pub mod diff;
pub mod repository;

pub use diff::DiffResult;
pub use repository::GitRepository;
