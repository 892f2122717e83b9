//! What a background lookup is asked for, and how it can fail.

use vstd::prelude::*;
use vstd::string::*;

verus! {

/// Address of a search lookup, up to the search term.
pub const SEARCH_URL_PREFIX: &'static str =
    "https://world.openfoodfacts.org/cgi/search.pl?search_terms=";

/// Address of a search lookup, after the search term.
pub const SEARCH_URL_SUFFIX: &'static str = "&search_simple=1&json=1";

/// Address of a detail lookup, up to the product code.
pub const DETAIL_URL_PREFIX: &'static str = "https://world.openfoodfacts.org/api/v0/product/";

/// Address of a detail lookup, after the product code.
pub const DETAIL_URL_SUFFIX: &'static str = ".json";

/// The lookup one background task performs. A task is made for each user
/// action that needs the network and runs to completion; nothing cancels it.
#[derive(Debug, Clone, PartialEq, Eq)]
pub enum FetchRequest {
    /// Search the catalog by name. The term is sent as typed, empty or not.
    Search(String),
    /// Fetch the full record of the product with this code.
    Detail(String),
}

/// Mathematical value of a [`FetchRequest`].
pub enum FetchRequestView {
    Search(Seq<char>),
    Detail(Seq<char>),
}

impl View for FetchRequest {
    type V = FetchRequestView;

    open spec fn view(&self) -> FetchRequestView {
        match *self {
            FetchRequest::Search(term) => FetchRequestView::Search(term@),
            FetchRequest::Detail(code) => FetchRequestView::Detail(code@),
        }
    }
}

impl FetchRequestView {
    /// The address the lookup is sent to. Term and code are inserted unescaped.
    pub open spec fn url(self) -> Seq<char> {
        match self {
            FetchRequestView::Search(term) => SEARCH_URL_PREFIX@ + term + SEARCH_URL_SUFFIX@,
            FetchRequestView::Detail(code) => DETAIL_URL_PREFIX@ + code + DETAIL_URL_SUFFIX@,
        }
    }
}

impl FetchRequest {
    /// The address the lookup is sent to.
    pub fn url(&self) -> (url: String)
        ensures
            url@ == self@.url(),
    {
        match self {
            FetchRequest::Search(term) => {
                SEARCH_URL_PREFIX.to_owned().concat(term.as_str()).concat(SEARCH_URL_SUFFIX)
            },
            FetchRequest::Detail(code) => {
                DETAIL_URL_PREFIX.to_owned().concat(code.as_str()).concat(DETAIL_URL_SUFFIX)
            },
        }
    }
}

/// Why a lookup produced no data. Each variant carries the text of the
/// underlying failure.
#[derive(Debug, Clone, PartialEq, Eq)]
pub enum FetchError {
    /// The request did not complete: no connection, a timeout, and the like.
    Transport(String),
    /// A response arrived but did not have the expected shape.
    Decode(String),
}

/// Mathematical value of a [`FetchError`].
pub enum FetchErrorView {
    Transport(Seq<char>),
    Decode(Seq<char>),
}

impl View for FetchError {
    type V = FetchErrorView;

    open spec fn view(&self) -> FetchErrorView {
        match *self {
            FetchError::Transport(text) => FetchErrorView::Transport(text@),
            FetchError::Decode(text) => FetchErrorView::Decode(text@),
        }
    }
}

} // verus!
