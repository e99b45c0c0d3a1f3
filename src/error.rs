use vstd::prelude::*;

verus! {

/// A setting that must be present before the watch starts.
#[derive(Clone, Copy, Debug, PartialEq, Eq, Structural)]
pub enum Setting {
    Email,
    Password,
    AccountSid,
    AuthToken,
    ToNumber,
    FromNumber,
}

/// Why a watch ended without acquiring the product.
#[derive(Clone, Copy, Debug, PartialEq, Eq, Structural)]
pub enum WatchError {
    /// A required setting is absent.
    Config(Setting),
    /// The sign-in flow did not complete.
    Authentication,
    /// The product page did not load, at start or on a reload.
    Navigation,
    /// The control that carries the product's state is not on the page.
    Probe,
    /// The add-to-cart control was used but the cart never showed the product.
    Acquisition,
}

} // verus!
