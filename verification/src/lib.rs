//! A safety wrapper for a native windowing toolkit: owned, lifetime-correct
//! resource objects over the toolkit's raw handle-and-status-code entry
//! points, and a callback bridge that routes the toolkit's window events into
//! an application-supplied controller.
//!
//! The toolkit itself is an opaque collaborator. Its entry points are modeled
//! by [`native::NativeLayer`], a call-recording layer that tracks every handle
//! the toolkit hands out and every create, destroy and request call made
//! against it, so that the wrapper's resource discipline — each handle freed
//! exactly once, in dependency order — is stated in the contracts and can be
//! observed by callers.

pub mod bitmap;
pub mod error;
pub mod geom;
pub mod image;
pub mod native;
pub mod ui;
pub mod widget;
pub mod window_controller;

use vstd::prelude::*;

verus! {

} // verus!
