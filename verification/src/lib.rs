//! A formatting-composition library: a value is rendered into text by a
//! pluggable, reusable strategy, independent of the value's own type, and
//! strategies chain into pipelines by wrapping holders in holders.  Every
//! render operation carries a contract that pins the produced text down
//! wherever the strategy's output is itself pinned down.

pub mod case;
pub mod chars;
pub mod debug_map;
pub mod fmt_as;
pub mod fmt_by;
pub mod fmt_by_holder;
pub mod fmt_data;
pub mod fmt_fn;
pub mod fmt_with;
pub mod join;
pub mod joined;
pub mod laws;
pub mod number;
pub mod proxy;
pub mod repeat;
pub mod sink;

pub use case::MarkerProxy;
pub use case::UppercaseStringProxy;
pub use debug_map::CloneIterDebugMap;
pub use debug_map::DebugMap;
pub use debug_map::RefItemDebugMap;
pub use fmt_as::FmtAs;
pub use fmt_by::FmtBy;
pub use fmt_by::FmtHandler;
pub use fmt_by_holder::DerefHolder;
pub use fmt_by_holder::FmtByHolder;
pub use fmt_by_holder::TargetHolder;
pub use fmt_by_holder::WithInner;
pub use fmt_data::FmtData;
pub use fmt_fn::FmtFn;
pub use fmt_with::FmtWith;
pub use fmt_with::FmtWithWrapper;
pub use joined::CloneIterJoined;
pub use joined::Joined;
pub use number::NumberDisplayProxy;
pub use proxy::BinaryProxy;
pub use proxy::DebugProxy;
pub use proxy::DisplayProxy;
pub use proxy::FmtFnProxy;
pub use proxy::LowerExpProxy;
pub use proxy::LowerHexProxy;
pub use proxy::OctalProxy;
pub use proxy::UpperExpProxy;
pub use proxy::UpperHexProxy;
pub use repeat::Repeat;
pub use sink::FmtForm;
pub use sink::RenderError;
pub use sink::TextSink;
