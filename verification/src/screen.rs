//! What to draw for a given state: the rule that picks the body of the window
//! and the texts that are derived from the data.

use vstd::prelude::*;
use vstd::string::*;
use crate::controller::Controller;
use crate::product::{text_view, ProductDetails, ProductDetailsView, ProductView};
use crate::state::{ControllerState, ViewState};

verus! {

/// Shown in place of the name of a product that has none.
pub const UNNAMED_PRODUCT: &'static str = "Unnamed product";

/// Lead-in of the line that reports a failure.
pub const ERROR_LEAD: &'static str = "Error: ";

/// Lead-in of the ingredients line of the product panel.
pub const INGREDIENTS_LEAD: &'static str = "Ingredients: ";

/// Shown in place of the ingredients of a product that lists none.
pub const NO_INGREDIENTS: &'static str = "N/A";

/// Mathematical value of a list of texts.
pub open spec fn text_views(texts: Seq<String>) -> Seq<Seq<char>> {
    texts.map_values(|s: String| s@)
}

/// The name to show for a product.
pub open spec fn display_name_view(name: Option<Seq<char>>) -> Seq<char> {
    match name {
        Some(name) => name,
        None => UNNAMED_PRODUCT@,
    }
}

/// The name to show for a product: its own, or [`UNNAMED_PRODUCT`].
pub fn display_name(name: &Option<String>) -> (shown: String)
    ensures
        shown@ == display_name_view(text_view(*name)),
{
    match name {
        Some(name) => name.clone(),
        None => UNNAMED_PRODUCT.to_owned(),
    }
}

/// The texts of the product panel.
#[derive(Debug, Clone, PartialEq, Eq)]
pub struct DetailPanel {
    /// The heading: the product's name.
    pub heading: String,
    /// The line that lists the ingredients.
    pub ingredients: String,
}

/// Mathematical value of a [`DetailPanel`].
pub struct DetailPanelView {
    pub heading: Seq<char>,
    pub ingredients: Seq<char>,
}

impl View for DetailPanel {
    type V = DetailPanelView;

    open spec fn view(&self) -> DetailPanelView {
        DetailPanelView { heading: self.heading@, ingredients: self.ingredients@ }
    }
}

impl ProductDetailsView {
    /// The texts of the panel for this product.
    pub open spec fn panel(self) -> DetailPanelView {
        DetailPanelView {
            heading: display_name_view(self.name),
            ingredients: INGREDIENTS_LEAD@ + match self.ingredients_text {
                Some(text) => text,
                None => NO_INGREDIENTS@,
            },
        }
    }
}

impl ProductDetails {
    /// The texts of the panel for this product.
    pub fn panel(&self) -> (panel: DetailPanel)
        ensures
            panel@ == self@.panel(),
    {
        let lead = INGREDIENTS_LEAD.to_owned();
        let ingredients = match &self.ingredients_text {
            Some(text) => lead.concat(text.as_str()),
            None => lead.concat(NO_INGREDIENTS),
        };
        DetailPanel { heading: display_name(&self.name), ingredients }
    }
}

/// The body of the window.
#[derive(Debug, Clone, PartialEq, Eq)]
pub enum Screen {
    /// A lookup is awaited: only a notice of that.
    Loading,
    /// A failure is reported, in place of the screen that would be shown.
    Error(String),
    /// The result list: one label for each entry, in order.
    SearchResults(Vec<String>),
    /// The product panel, empty while no record has arrived.
    ProductDetails(Option<DetailPanel>),
}

/// Mathematical value of a [`Screen`].
pub enum ScreenView {
    Loading,
    Error(Seq<char>),
    SearchResults(Seq<Seq<char>>),
    ProductDetails(Option<DetailPanelView>),
}

impl View for Screen {
    type V = ScreenView;

    open spec fn view(&self) -> ScreenView {
        match *self {
            Screen::Loading => ScreenView::Loading,
            Screen::Error(line) => ScreenView::Error(line@),
            Screen::SearchResults(labels) => ScreenView::SearchResults(text_views(labels@)),
            Screen::ProductDetails(panel) => ScreenView::ProductDetails(
                match panel {
                    Some(panel) => Some(panel@),
                    None => None,
                },
            ),
        }
    }
}

impl ControllerState {
    /// The body of the window for this state. Waiting goes before a failure,
    /// and a failure before the active screen; the data behind a hidden
    /// screen is kept.
    pub open spec fn screen(self) -> ScreenView {
        if self.loading {
            ScreenView::Loading
        } else if let Some(text) = self.error {
            ScreenView::Error(ERROR_LEAD@ + text)
        } else {
            match self.view {
                ViewState::SearchResults => ScreenView::SearchResults(
                    self.results.map_values(|p: ProductView| display_name_view(p.name)),
                ),
                ViewState::ProductDetails => ScreenView::ProductDetails(
                    match self.selected {
                        Some(details) => Some(details.panel()),
                        None => None,
                    },
                ),
            }
        }
    }
}

impl Controller {
    /// The body of the window for the current state.
    pub fn screen(&self) -> (screen: Screen)
        ensures
            screen@ == self@.screen(),
    {
        if self.is_loading() {
            return Screen::Loading;
        }
        if let Some(text) = self.error() {
            return Screen::Error(ERROR_LEAD.to_owned().concat(text.as_str()));
        }
        match self.current_view() {
            ViewState::SearchResults => {
                let results = self.results();
                let mut labels: Vec<String> = Vec::new();
                let mut i: usize = 0;
                while i < results.len()
                    invariant
                        i <= results.len(),
                        labels@.len() == i,
                        forall|j: int|
                            0 <= j < i ==> (#[trigger] labels@[j])@ == display_name_view(
                                results@[j]@.name,
                            ),
                    decreases results.len() - i,
                {
                    labels.push(display_name(&results[i].name));
                    i += 1;
                }
                assert(text_views(labels@) =~= self@.results.map_values(
                    |p: ProductView| display_name_view(p.name),
                ));
                Screen::SearchResults(labels)
            },
            ViewState::ProductDetails => {
                match self.selected() {
                    Some(details) => Screen::ProductDetails(Some(details.panel())),
                    None => Screen::ProductDetails(None),
                }
            },
        }
    }
}

} // verus!
