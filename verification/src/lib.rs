//! Platform GPU-context bootstrap: given a validated native-window reference
//! and a declarative pixel/context configuration, negotiate a matching display
//! configuration, bind a window surface, create a rendering context, and
//! manage current/not-current state and ordered teardown.
//!
//! Every driver round-trip is modelled as an `Action` the caller performs and
//! an event fed back into the machine; the decisions between round-trips are
//! verified here.

pub mod attribs;
pub mod config;
pub mod diag;
pub mod handle;
pub mod laws;
pub mod machine;
pub mod script;
pub mod state;
pub mod teardown;

pub use attribs::MAX_CONFIGS;
pub use attribs::choose_attribs;
pub use attribs::context_attribs;
pub use config::Api;
pub use config::GlConfig;
pub use config::GlError;
pub use config::check_api;
pub use diag::SurfaceError;
pub use diag::SwapError;
pub use diag::classify_surface_error;
pub use diag::classify_swap_error;
pub use diag::symbol_name_ok;
pub use handle::WindowHandle;
pub use handle::validate_handle;
pub use machine::Action;
pub use machine::Builder;
pub use machine::Phase;
pub use script::Call;
pub use script::Outcome;
pub use script::Script;
pub use script::negotiate;
pub use state::Binding;
pub use state::GlState;
pub use state::Session;
pub use state::Slot;
pub use state::current_args;
pub use state::not_current_args;
pub use teardown::TearStep;
pub use teardown::teardown_plan;
