//! Core logic of a container-image pull service: reference parsing,
//! credential-file construction, destination specs, failure classification,
//! artifact naming, and the progress-event stream of a streaming pull.

pub mod artifact;
pub mod classify;
pub mod credentials;
pub mod events;
pub mod index;
pub mod pull;
pub mod reference;

use vstd::prelude::*;

verus! {

} // verus!
