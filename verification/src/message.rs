//! Conversion of the accepted message forms into `Cow<'static, str>`.

use std::borrow::Cow;

use vstd::prelude::*;

verus! {

/// `Cow::clone`: borrowed values are copied as references, owned values are
/// cloned. Nothing is stated of the result for an arbitrary `B`.
pub assume_specification<'a, B: ?Sized + std::borrow::ToOwned>[ <std::borrow::Cow<'a, B> as std::clone::Clone>::clone ](
    c: &std::borrow::Cow<'a, B>,
) -> std::borrow::Cow<'a, B>;

/// Values that can serve as a human-readable message: string literals,
/// owned strings and `Cow<'static, str>`.
///
/// The conversion keeps the text: literals stay borrowed, owned strings stay
/// owned.
pub trait IntoMessage: Sized {
    /// The text that the conversion yields.
    spec fn message_text(&self) -> Seq<char>;

    /// The message that the conversion yields.
    spec fn message_value(&self) -> Cow<'static, str>;

    /// Converts into a message.
    fn into_message(self) -> (r: Cow<'static, str>)
        ensures
            r == self.message_value(),
            r@ == self.message_text(),
    ;
}

impl IntoMessage for &'static str {
    open spec fn message_text(&self) -> Seq<char> {
        (**self)@
    }

    open spec fn message_value(&self) -> Cow<'static, str> {
        Cow::Borrowed(*self)
    }

    fn into_message(self) -> (r: Cow<'static, str>) {
        Cow::Borrowed(self)
    }
}

impl IntoMessage for String {
    open spec fn message_text(&self) -> Seq<char> {
        self@
    }

    open spec fn message_value(&self) -> Cow<'static, str> {
        Cow::Owned(*self)
    }

    fn into_message(self) -> (r: Cow<'static, str>) {
        Cow::Owned(self)
    }
}

impl IntoMessage for Cow<'static, str> {
    open spec fn message_text(&self) -> Seq<char> {
        self@
    }

    open spec fn message_value(&self) -> Cow<'static, str> {
        *self
    }

    fn into_message(self) -> (r: Cow<'static, str>) {
        self
    }
}

} // verus!
