//! The controller: owner of the state the screen is drawn from.
//!
//! It never touches the network. An action that needs a lookup hands back a
//! [`FetchRequest`] for the caller to run in the background, and the outcomes
//! come back through [`Controller::poll_messages`], in whatever order the
//! lookups happened to finish.

use vstd::prelude::*;
use crate::fetch::{FetchRequest, FetchRequestView};
use crate::message::{message_views, Message};
use crate::product::{details_view, product_views, text_view, Product, ProductDetails};
use crate::state::{ControllerState, ViewState};

verus! {

/// The single source of truth for what is displayed. Only the methods here
/// change it.
#[derive(Debug, PartialEq, Eq)]
pub struct Controller {
    search_term: String,
    results: Vec<Product>,
    selected: Option<ProductDetails>,
    view: ViewState,
    loading: bool,
    error: Option<String>,
}

impl View for Controller {
    type V = ControllerState;

    closed spec fn view(&self) -> ControllerState {
        ControllerState {
            search_term: self.search_term@,
            results: product_views(self.results@),
            selected: details_view(self.selected),
            view: self.view,
            loading: self.loading,
            error: text_view(self.error),
        }
    }
}

impl Controller {
    #[verifier::type_invariant]
    spec fn no_error_while_loading(self) -> bool {
        self.loading ==> self.error is None
    }

    /// A controller in its startup state.
    pub fn new() -> (controller: Controller)
        ensures
            controller@ == ControllerState::initial(),
    {
        let controller = Controller {
            search_term: String::new(),
            results: Vec::new(),
            selected: None,
            view: ViewState::SearchResults,
            loading: false,
            error: None,
        };
        assert(controller@.results =~= ControllerState::initial().results);
        controller
    }

    /// The term of the latest search.
    pub fn search_term(&self) -> (term: &str)
        ensures
            term@ == self@.search_term,
    {
        self.search_term.as_str()
    }

    /// The latest result list that arrived.
    pub fn results(&self) -> (results: &Vec<Product>)
        ensures
            product_views(results@) == self@.results,
    {
        &self.results
    }

    /// The product record on display, if one has arrived.
    pub fn selected(&self) -> (selected: Option<&ProductDetails>)
        ensures
            match selected {
                Some(details) => self@.selected == Some(details@),
                None => self@.selected is None,
            },
    {
        self.selected.as_ref()
    }

    /// The active screen.
    pub fn current_view(&self) -> (view: ViewState)
        ensures
            view == self@.view,
    {
        self.view
    }

    /// Whether an action is still waiting for its lookup. While it is, no
    /// error is on display.
    pub fn is_loading(&self) -> (loading: bool)
        ensures
            loading == self@.loading,
            self@.well_formed(),
    {
        proof {
            use_type_invariant(self);
        }
        self.loading
    }

    /// The text of the latest failure, if no action has cleared it since.
    pub fn error(&self) -> (error: Option<&String>)
        ensures
            match error {
                Some(text) => self@.error == Some(text@),
                None => self@.error is None,
            },
            self@.well_formed(),
    {
        proof {
            use_type_invariant(self);
        }
        self.error.as_ref()
    }

    /// The user submitted a search. Starts waiting, drops any error on
    /// display, and returns the lookup to run in the background.
    pub fn on_search_submitted(&mut self, term: String) -> (request: FetchRequest)
        ensures
            final(self)@ == old(self)@.search_submitted(term@),
            final(self)@.well_formed(),
            request@ == FetchRequestView::Search(term@),
    {
        let request = FetchRequest::Search(term.clone());
        self.error = None;
        self.loading = true;
        self.search_term = term;
        request
    }

    /// The user selected an entry of the result list. Switches to the product
    /// panel, starts waiting, drops any error on display, and returns the
    /// lookup to run in the background.
    pub fn on_product_selected(&mut self, product: &Product) -> (request: FetchRequest)
        ensures
            final(self)@ == old(self)@.product_selected(),
            final(self)@.well_formed(),
            request@ == FetchRequestView::Detail(product@.request_code()),
    {
        let request = FetchRequest::Detail(product.request_code());
        self.error = None;
        self.loading = true;
        self.view = ViewState::ProductDetails;
        request
    }

    /// The user asked to go back to the result list. Nothing is looked up.
    pub fn on_back_requested(&mut self)
        ensures
            final(self)@ == old(self)@.back_requested(),
            final(self)@.well_formed(),
    {
        proof {
            use_type_invariant(&*self);
        }
        self.view = ViewState::SearchResults;
        self.selected = None;
    }

    /// Applies one lookup outcome.
    pub fn apply_message(&mut self, message: Message)
        ensures
            final(self)@ == old(self)@.apply(message@),
            final(self)@.well_formed(),
    {
        self.loading = false;
        match message {
            Message::SearchResults(products) => {
                self.results = products;
            },
            Message::ProductDetails(details) => {
                self.selected = Some(details);
            },
            Message::Error(text) => {
                self.error = Some(text);
            },
        }
    }

    /// Applies the outcomes that arrived since the last call, in arrival
    /// order. With an empty batch nothing changes.
    pub fn poll_messages(&mut self, pending: Vec<Message>)
        ensures
            final(self)@ == old(self)@.apply_all(message_views(pending@)),
            final(self)@.well_formed(),
    {
        proof {
            use_type_invariant(&*self);
        }
        let ghost batch = message_views(pending@);
        for message in iter: pending
            invariant
                iter.seq() == pending@,
                batch == message_views(pending@),
                self@ == old(self)@.apply_all(batch.take(iter.index())),
                self@.well_formed(),
        {
            proof {
                let n = iter.index();
                assert(batch.take(n + 1).drop_last() == batch.take(n));
                assert(batch.take(n + 1).last() == message@);
            }
            self.apply_message(message);
        }
        proof {
            assert(batch.take(batch.len() as int) == batch);
        }
    }
}

} // verus!
