//! The controller as a mathematical state machine: its state, one transition
//! per user action, and the effect of applying lookup outcomes.

use vstd::prelude::*;
use crate::fetch::FetchRequestView;
use crate::message::MessageView;
use crate::product::{ProductDetailsView, ProductView};

verus! {

/// Which screen is active.
#[derive(Debug, Clone, Copy, PartialEq, Eq, Structural)]
pub enum ViewState {
    /// The search box and the list of results.
    SearchResults,
    /// The panel for one product.
    ProductDetails,
}

/// Everything the screen is drawn from.
///
/// `loading` and `error` are flags beside the screen, not screens of their
/// own: either may be set on either screen.
pub struct ControllerState {
    /// The term of the latest search.
    pub search_term: Seq<char>,
    /// The latest result list that arrived.
    pub results: Seq<ProductView>,
    /// The latest product record that arrived since the panel was last left.
    pub selected: Option<ProductDetailsView>,
    /// The active screen.
    pub view: ViewState,
    /// Whether an action is still waiting for its lookup.
    pub loading: bool,
    /// The text of the latest failure, until the next action clears it.
    pub error: Option<Seq<char>>,
}

impl ControllerState {
    /// The state at startup: the search screen, nothing found, nothing
    /// selected, idle, no error.
    pub open spec fn initial() -> ControllerState {
        ControllerState {
            search_term: Seq::empty(),
            results: Seq::empty(),
            selected: None,
            view: ViewState::SearchResults,
            loading: false,
            error: None,
        }
    }

    /// While a lookup is awaited no stale error is shown.
    pub open spec fn well_formed(self) -> bool {
        self.loading ==> self.error is None
    }

    /// A search was submitted. The previous results stay until new ones
    /// arrive.
    pub open spec fn search_submitted(self, term: Seq<char>) -> ControllerState {
        ControllerState { search_term: term, loading: true, error: None, ..self }
    }

    /// An entry of the result list was selected. A previously selected
    /// product stays until the new record arrives.
    pub open spec fn product_selected(self) -> ControllerState {
        ControllerState { view: ViewState::ProductDetails, loading: true, error: None, ..self }
    }

    /// The user left the product panel.
    pub open spec fn back_requested(self) -> ControllerState {
        ControllerState { view: ViewState::SearchResults, selected: None, ..self }
    }

    /// One lookup outcome was applied. Whatever it is, waiting ends; nothing
    /// ties the outcome to the action that asked for it.
    pub open spec fn apply(self, message: MessageView) -> ControllerState {
        match message {
            MessageView::SearchResults(products) => ControllerState {
                results: products,
                loading: false,
                ..self
            },
            MessageView::ProductDetails(details) => ControllerState {
                selected: Some(details),
                loading: false,
                ..self
            },
            MessageView::Error(text) => ControllerState {
                error: Some(text),
                loading: false,
                ..self
            },
        }
    }

    /// A batch of outcomes was applied, first to last.
    pub open spec fn apply_all(self, messages: Seq<MessageView>) -> ControllerState
        decreases messages.len(),
    {
        if messages.len() == 0 {
            self
        } else {
            self.apply_all(messages.drop_last()).apply(messages.last())
        }
    }
}

/// One thing that can happen to the controller.
pub enum Event {
    /// A search for this term was submitted.
    SearchSubmitted(Seq<char>),
    /// This entry of the result list was selected.
    ProductSelected(ProductView),
    /// The user asked to leave the product panel.
    BackRequested,
    /// The pending outcomes were drained and applied in arrival order.
    Poll(Seq<MessageView>),
}

impl Event {
    /// The lookup the event starts, if it starts one.
    pub open spec fn request(self) -> Option<FetchRequestView> {
        match self {
            Event::SearchSubmitted(term) => Some(FetchRequestView::Search(term)),
            Event::ProductSelected(product) => Some(
                FetchRequestView::Detail(product.request_code()),
            ),
            Event::BackRequested => None,
            Event::Poll(_) => None,
        }
    }
}

impl ControllerState {
    /// The state after one event.
    pub open spec fn step(self, event: Event) -> ControllerState {
        match event {
            Event::SearchSubmitted(term) => self.search_submitted(term),
            Event::ProductSelected(_) => self.product_selected(),
            Event::BackRequested => self.back_requested(),
            Event::Poll(messages) => self.apply_all(messages),
        }
    }

    /// The state after a history of events, first to last.
    pub open spec fn run(self, events: Seq<Event>) -> ControllerState
        decreases events.len(),
    {
        if events.len() == 0 {
            self
        } else {
            self.run(events.drop_last()).step(events.last())
        }
    }
}

} // verus!
