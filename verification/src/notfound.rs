//! The page shown for an address that names no page.
use vstd::prelude::*;

verus! {

/// The heading the page shows.
pub const LOST_MESSAGE: &'static str = "Are you lost?";
/// A second heading, kept for variety but not shown.
pub const WEAST_MESSAGE: &'static str = "East? I thought you said \"weast...\"";

/// The properties of the page: the address that was asked for, if known.
#[derive(Clone, Debug, PartialEq, Eq)]
pub struct Props {
    pub route: Option<String>,
}

/// The not-found page.
pub struct NotFound {
    pub props: Props,
}

impl NotFound {
    /// The page, holding its properties.
    pub fn create(props: Props) -> (r: NotFound)
        ensures
            r.props.route.deep_view() == props.route.deep_view(),
    {
        NotFound { props }
    }

    /// No message changes the page, which is not drawn again.
    pub fn update(&mut self, _msg: ()) -> (r: bool)
        ensures
            !r,
            final(self).props.route.deep_view() == old(self).props.route.deep_view(),
    {
        false
    }

    /// New properties are ignored, and the page is not drawn again.
    pub fn change(&mut self, _props: Props) -> (r: bool)
        ensures
            !r,
            final(self).props.route.deep_view() == old(self).props.route.deep_view(),
    {
        false
    }

    /// The heading the page shows: the first of its messages.
    pub fn get_random_404_msg() -> (r: String)
        ensures
            r@ == LOST_MESSAGE@,
    {
        let responses = vec![LOST_MESSAGE, WEAST_MESSAGE];
        responses[0].to_owned()
    }
}

} // verus!
