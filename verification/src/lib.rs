//! A small logging facade over a platform's native log sink.
//!
//! The library holds the logic worth stating precisely: the priority
//! enumeration and its ABI codes, the logger context with its set-once tag
//! and enable flag, and the dispatch rule that turns a logging request into
//! at most one fully described native call. The unverified shell around the
//! library owns the process-wide instance and performs the native calls.

pub mod android_log;
pub mod expect_log;
pub mod mixin_log;
pub mod sys;

pub use android_log::Log;
pub use android_log::LogView;
pub use android_log::RegisterError;
pub use expect_log::ExpectLogcat;
pub use mixin_log::Level;
pub use sys::LogPriority;
pub use sys::NativeCall;
