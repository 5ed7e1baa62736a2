//! The notification routers of the endpoint server, and the choice of the
//! router for a subscription's router type.
use vstd::prelude::*;

verus! {

/// The kinds of router that a subscription can name.
#[derive(PartialEq, Eq, Structural, Clone, Copy, Debug)]
pub enum RouterType {
    WebPush,
    GCM,
    FCM,
    APNS,
    ADM,
}

/// Holds the various notification routers. Only the WebPush router exists
/// so far; `R` is its type.
pub struct Routers<R> {
    pub webpush: R,
}

impl<R> Routers<R> {
    /// Get the router which handles the router type. Only the WebPush router
    /// exists, so only `RouterType::WebPush` may be asked for.
    pub fn get(&self, router_type: RouterType) -> (r: &R)
        requires
            router_type == RouterType::WebPush,
        ensures
            r == &self.webpush,
    {
        match router_type {
            RouterType::WebPush => &self.webpush,
            _ => vstd::pervasive::unreached(),
        }
    }
}

} // verus!
