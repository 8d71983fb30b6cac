//! The restaurant workflow: front-of-house seating and ordering steps, and
//! the back-of-house breakfast menu.

use vstd::prelude::*;

verus! {

/// Put a party on the waiting list.
pub fn add_to_waitlist() {
}

/// Walk a party to a table.
pub fn seat_at_table() {
}

/// Take a party's order.
pub fn take_order() {
}

/// Bring an order to a table.
pub fn serve_order() {
}

/// Settle a party's bill.
pub fn take_payment() {
}

/// Prepare an order in the kitchen.
pub fn cook_order() {
}

/// Remake a wrong order and bring it out again.
pub fn fix_incorrect_order() {
    cook_order();
    serve_order();
}

/// A breakfast order: the customer picks the toast, the kitchen picks the
/// seasonal fruit.
pub struct Breakfast {
    /// The kind of toast, chosen by the customer.
    pub toast: String,
    seasonal_fruit: String,
}

impl Breakfast {
    /// The fruit that the kitchen chose.
    pub closed spec fn fruit(self) -> Seq<char> {
        self.seasonal_fruit@
    }

    /// The toast that the customer chose.
    pub closed spec fn toast_kind(self) -> Seq<char> {
        self.toast@
    }

    /// The summer breakfast: the requested toast with peaches, the only way
    /// to obtain a `Breakfast` since the fruit is the kitchen's choice.
    pub fn summer(toast: &str) -> (r: Breakfast)
        ensures
            r.toast_kind() == toast@,
            r.fruit() == "peaches"@,
    {
        Breakfast { toast: String::from_str(toast), seasonal_fruit: String::from_str("peaches") }
    }
}

/// A starter course.
pub enum Appetizer {
    /// The soup of the day.
    Soup,
    /// The house salad.
    Salad,
}

/// Eat at the other branch: join its waiting list.
pub fn another_eat() {
    add_to_waitlist();
}

} // verus!
