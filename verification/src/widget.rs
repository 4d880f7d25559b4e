//! The widget capability: anything that can yield its underlying native
//! control handle, so that heterogeneous widgets can live in one window's
//! widget collection.

use vstd::prelude::*;

use crate::image::Image;

verus! {

/// A drawable, addable UI element: a capability, not a base class. A widget
/// is anything that can yield its underlying native control handle on demand.
pub trait Widget: Sized {
    /// The native control handle this widget exposes.
    spec fn ctl_spec(&self) -> u64;

    /// Yields the widget's underlying native control handle.
    fn get_ctl(&self) -> (r: u64)
        ensures
            r == self.ctl_spec(),
    ;
}

/// A widget of any supported kind, so one window's widget collection can hold
/// them uniformly. New widget kinds implement [`Widget`] and gain a variant
/// here.
#[derive(Debug)]
pub enum AnyWidget {
    Image(Image),
}

impl Widget for AnyWidget {
    open spec fn ctl_spec(&self) -> u64 {
        match self {
            AnyWidget::Image(img) => img.ctl_spec(),
        }
    }

    fn get_ctl(&self) -> (r: u64) {
        match self {
            AnyWidget::Image(img) => img.get_ctl(),
        }
    }
}

} // verus!
