//! The one-shot outcome a background lookup reports back.

use vstd::prelude::*;
use vstd::string::*;
use crate::fetch::{FetchError, FetchErrorView};
use crate::product::{product_views, Product, ProductDetails, ProductDetailsView, ProductView};

verus! {

/// Lead-in of the text reported when a search request did not complete.
pub const SEARCH_TRANSPORT_FAILURE: &'static str = "Failed to get response: ";

/// Lead-in of the text reported when a search response could not be decoded.
pub const SEARCH_DECODE_FAILURE: &'static str = "Failed to parse response: ";

/// Lead-in of the text reported when a detail request did not complete.
pub const DETAIL_TRANSPORT_FAILURE: &'static str = "Details request failed: ";

/// Lead-in of the text reported when a detail response could not be decoded.
pub const DETAIL_DECODE_FAILURE: &'static str = "Failed to parse details: ";

/// What a finished lookup tells the controller. Every lookup ends in exactly
/// one message, whether it succeeded or not.
#[derive(Debug, Clone, PartialEq, Eq)]
pub enum Message {
    /// A search came back with this list, possibly empty.
    SearchResults(Vec<Product>),
    /// A detail lookup came back with this record.
    ProductDetails(ProductDetails),
    /// A lookup of either kind failed; the text says how.
    Error(String),
}

/// Mathematical value of a [`Message`].
pub enum MessageView {
    SearchResults(Seq<ProductView>),
    ProductDetails(ProductDetailsView),
    Error(Seq<char>),
}

impl View for Message {
    type V = MessageView;

    open spec fn view(&self) -> MessageView {
        match *self {
            Message::SearchResults(products) => MessageView::SearchResults(product_views(products@)),
            Message::ProductDetails(details) => MessageView::ProductDetails(details@),
            Message::Error(text) => MessageView::Error(text@),
        }
    }
}

/// Mathematical value of a batch of messages, in order.
pub open spec fn message_views(messages: Seq<Message>) -> Seq<MessageView> {
    messages.map_values(|m: Message| m@)
}

impl FetchErrorView {
    /// The text shown when a search lookup failed this way.
    pub open spec fn search_text(self) -> Seq<char> {
        match self {
            FetchErrorView::Transport(text) => SEARCH_TRANSPORT_FAILURE@ + text,
            FetchErrorView::Decode(text) => SEARCH_DECODE_FAILURE@ + text,
        }
    }

    /// The text shown when a detail lookup failed this way.
    pub open spec fn detail_text(self) -> Seq<char> {
        match self {
            FetchErrorView::Transport(text) => DETAIL_TRANSPORT_FAILURE@ + text,
            FetchErrorView::Decode(text) => DETAIL_DECODE_FAILURE@ + text,
        }
    }
}

impl MessageView {
    /// The message a search lookup ends in, given how it went.
    pub open spec fn from_search(outcome: Result<Seq<ProductView>, FetchErrorView>) -> MessageView {
        match outcome {
            Ok(products) => MessageView::SearchResults(products),
            Err(error) => MessageView::Error(error.search_text()),
        }
    }

    /// The message a detail lookup ends in, given how it went.
    pub open spec fn from_detail(outcome: Result<ProductDetailsView, FetchErrorView>) -> MessageView {
        match outcome {
            Ok(details) => MessageView::ProductDetails(details),
            Err(error) => MessageView::Error(error.detail_text()),
        }
    }
}

impl Message {
    /// Turns the outcome of a search lookup into the one message its task
    /// sends. Transport and decode failures both become [`Message::Error`];
    /// only the text tells them apart.
    pub fn from_search(outcome: Result<Vec<Product>, FetchError>) -> (message: Message)
        ensures
            message@ == MessageView::from_search(
                match outcome {
                    Ok(products) => Ok(product_views(products@)),
                    Err(error) => Err(error@),
                },
            ),
    {
        match outcome {
            Ok(products) => Message::SearchResults(products),
            Err(FetchError::Transport(text)) => Message::Error(
                SEARCH_TRANSPORT_FAILURE.to_owned().concat(text.as_str()),
            ),
            Err(FetchError::Decode(text)) => Message::Error(
                SEARCH_DECODE_FAILURE.to_owned().concat(text.as_str()),
            ),
        }
    }

    /// Turns the outcome of a detail lookup into the one message its task
    /// sends.
    pub fn from_detail(outcome: Result<ProductDetails, FetchError>) -> (message: Message)
        ensures
            message@ == MessageView::from_detail(
                match outcome {
                    Ok(details) => Ok(details@),
                    Err(error) => Err(error@),
                },
            ),
    {
        match outcome {
            Ok(details) => Message::ProductDetails(details),
            Err(FetchError::Transport(text)) => Message::Error(
                DETAIL_TRANSPORT_FAILURE.to_owned().concat(text.as_str()),
            ),
            Err(FetchError::Decode(text)) => Message::Error(
                DETAIL_DECODE_FAILURE.to_owned().concat(text.as_str()),
            ),
        }
    }
}

} // verus!
