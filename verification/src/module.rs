//! The owning module: the handle the platform reports for the running
//! executable.  Querying it is the application's job; a failed query falls
//! back to the null handle, which the platform treats as the current
//! module.

use vstd::prelude::*;

verus! {

pub struct WPModule {
    pub hinst: usize,
}

impl WPModule {
    /// Wrap the outcome of the module-handle query: the handle on success,
    /// the null handle when the query failed.
    pub fn new(hinst: Option<usize>) -> (r: WPModule)
        ensures
            r.hinst == (match hinst {
                Some(h) => h,
                None => 0usize,
            }),
    {
        WPModule {
            hinst: match hinst {
                Some(h) => h,
                None => 0,
            },
        }
    }

    pub fn get_hinstance(&self) -> (h: usize)
        ensures
            h == self.hinst,
    {
        self.hinst
    }
}

} // verus!
