//! The one product that is watched, and the message sent once it is in the cart.
use vstd::prelude::*;

verus! {

/// The shop's entry page, where sign-in starts.
pub const SITE_URL: &'static str = "https://www.bestbuy.com/";

/// The product page under watch.
pub const PRODUCT_URL: &'static str = "https://www.bestbuy.com/site/microsoft-xbox-series-x-1tb-console-black/6428324.p?skuId=6428324";

/// The add-to-cart control whose enabled state tells whether the product can be bought.
pub const FULFILLMENT_SELECTOR: &'static str = "div[id^='fulfillment-add-to-cart-button-'] button";

/// The cart element whose appearance confirms that the product went into the cart.
pub const CART_CONFIRMATION_SELECTOR: &'static str = "div[id^='shop-commerce-elements']";

/// The text of the notification.
pub const NOTIFICATION_BODY: &'static str = "Xbox Series X has been added to your cart at https://www.bestbuy.com/cart";

} // verus!
