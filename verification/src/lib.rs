pub mod policy;
pub mod settings;
pub mod setup;
pub mod state;
pub mod watch;

pub use state::classify;
pub use watch::Target;
pub use watch::Watcher;
pub use state::Transition;
pub use state::WatchState;
