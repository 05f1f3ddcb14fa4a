//! Timezone annotations on display names.
//!
//! Members of a chat group show their UTC offset behind their name, as in
//! `Alice (UTC+5)`. This library reads the commands by which they ask for
//! that (`operation`), works out the name to show (`transform`, over the
//! grammar in `offset` and `suffix`) and decides what is to be done and said
//! (`respond`). It keeps no state and talks to nobody. What holds of every
//! name and every operation is stated and proved in `laws`.

pub mod laws;
pub mod offset;
pub mod operation;
pub mod respond;
pub mod suffix;
pub mod text;
pub mod transform;

pub use operation::{interpret, InterpretError, TimezoneOperation};
pub use transform::{transform, Outcome, Transformed};
