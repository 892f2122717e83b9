//! Facts about the state machine that hold for every state and every history
//! of events, proved from the transitions in [`crate::state`].

use vstd::prelude::*;
use crate::message::MessageView;
use crate::product::ProductDetailsView;
use crate::screen::{ScreenView, ERROR_LEAD};
use crate::state::{ControllerState, Event, ViewState};

verus! {

impl MessageView {
    /// Whether two outcomes are of the same kind: both result lists, both
    /// product records, or both failures.
    pub open spec fn same_kind(self, other: MessageView) -> bool {
        match (self, other) {
            (MessageView::SearchResults(_), MessageView::SearchResults(_)) => true,
            (MessageView::ProductDetails(_), MessageView::ProductDetails(_)) => true,
            (MessageView::Error(_), MessageView::Error(_)) => true,
            _ => false,
        }
    }
}

/// Applying a batch with one more outcome at its end is applying the batch
/// and then that outcome.
pub proof fn lemma_apply_all_push(
    state: ControllerState,
    messages: Seq<MessageView>,
    last: MessageView,
)
    ensures
        state.apply_all(messages.push(last)) == state.apply_all(messages).apply(last),
{
    assert(messages.push(last).drop_last() =~= messages);
}

/// Draining in two polls gives the same state as draining everything in one.
pub proof fn lemma_apply_all_concat(
    state: ControllerState,
    first: Seq<MessageView>,
    second: Seq<MessageView>,
)
    ensures
        state.apply_all(first + second) == state.apply_all(first).apply_all(second),
    decreases second.len(),
{
    if second.len() == 0 {
        assert(first + second =~= first);
    } else {
        lemma_apply_all_concat(state, first, second.drop_last());
        assert((first + second).drop_last() =~= first + second.drop_last());
        assert((first + second).last() == second.last());
    }
}

/// A poll that applies at least one outcome ends the waiting; a poll that
/// finds nothing changes nothing.
pub proof fn lemma_poll_clears_loading(state: ControllerState, messages: Seq<MessageView>)
    ensures
        messages.len() > 0 ==> !state.apply_all(messages).loading,
        messages.len() == 0 ==> state.apply_all(messages) == state,
{
}

/// No outcome, and so no poll, changes the active screen or the search term:
/// only the user's actions do.
pub proof fn lemma_poll_keeps_view(state: ControllerState, messages: Seq<MessageView>)
    ensures
        state.apply_all(messages).view == state.view,
        state.apply_all(messages).search_term == state.search_term,
    decreases messages.len(),
{
    if messages.len() > 0 {
        lemma_poll_keeps_view(state, messages.drop_last());
    }
}

/// A poll keeps the rule that no error is shown while a lookup is awaited.
pub proof fn lemma_poll_keeps_well_formed(state: ControllerState, messages: Seq<MessageView>)
    requires
        state.well_formed(),
    ensures
        state.apply_all(messages).well_formed(),
{
}

/// Every event keeps the rule that no error is shown while a lookup is
/// awaited.
pub proof fn lemma_step_keeps_well_formed(state: ControllerState, event: Event)
    requires
        state.well_formed(),
    ensures
        state.step(event).well_formed(),
{
    if let Event::Poll(messages) = event {
        lemma_poll_keeps_well_formed(state, messages);
    }
}

/// The rule holds after every history of events that starts from a state
/// where it holds.
pub proof fn lemma_run_keeps_well_formed(state: ControllerState, events: Seq<Event>)
    requires
        state.well_formed(),
    ensures
        state.run(events).well_formed(),
    decreases events.len(),
{
    if events.len() > 0 {
        lemma_run_keeps_well_formed(state, events.drop_last());
        lemma_step_keeps_well_formed(state.run(events.drop_last()), events.last());
    }
}

/// The rule holds in every state that can be reached from startup.
pub proof fn lemma_reachable_is_well_formed(events: Seq<Event>)
    ensures
        ControllerState::initial().run(events).well_formed(),
{
    lemma_run_keeps_well_formed(ControllerState::initial(), events);
}

/// Whatever happened before, the controller is waiting right after an action
/// that starts a lookup, and is not right after a poll that applied an
/// outcome. Going back and a poll that found nothing leave the flag as it
/// was.
pub proof fn lemma_loading_follows_last_event(state: ControllerState, events: Seq<Event>)
    requires
        events.len() > 0,
    ensures
        events.last().request() is Some ==> state.run(events).loading,
        events.last() matches Event::Poll(messages) && messages.len() > 0 ==> !state.run(
            events,
        ).loading,
        events.last() matches Event::Poll(messages) && messages.len() == 0 ==> state.run(events)
            == state.run(events.drop_last()),
        events.last() is BackRequested ==> state.run(events).loading == state.run(
            events.drop_last(),
        ).loading,
{
    if let Event::Poll(messages) = events.last() {
        lemma_poll_clears_loading(state.run(events.drop_last()), messages);
    }
}

/// Going back twice in a row is going back once: the result list is the
/// active screen and no product is selected.
pub proof fn lemma_back_is_idempotent(state: ControllerState)
    ensures
        state.back_requested().back_requested() == state.back_requested(),
        state.back_requested().view == ViewState::SearchResults,
        state.back_requested().selected is None,
{
}

/// Applying a failure ends the waiting and shows its text; the result list,
/// the selected product, the active screen and the search term stay.
pub proof fn lemma_error_keeps_data(state: ControllerState, text: Seq<char>)
    ensures
        !state.apply(MessageView::Error(text)).loading,
        state.apply(MessageView::Error(text)).error == Some(text),
        state.apply(MessageView::Error(text)).results == state.results,
        state.apply(MessageView::Error(text)).selected == state.selected,
        state.apply(MessageView::Error(text)).view == state.view,
        state.apply(MessageView::Error(text)).search_term == state.search_term,
{
}

/// After a poll whose last outcome is a failure, the controller is idle and
/// shows that failure's text, and the data is as the earlier outcomes of the
/// batch left it.
pub proof fn lemma_poll_ending_in_error(
    state: ControllerState,
    earlier: Seq<MessageView>,
    text: Seq<char>,
)
    ensures
        !state.apply_all(earlier.push(MessageView::Error(text))).loading,
        state.apply_all(earlier.push(MessageView::Error(text))).error == Some(text),
        state.apply_all(earlier.push(MessageView::Error(text))).results == state.apply_all(
            earlier,
        ).results,
        state.apply_all(earlier.push(MessageView::Error(text))).selected == state.apply_all(
            earlier,
        ).selected,
{
    lemma_apply_all_push(state, earlier, MessageView::Error(text));
}

/// A poll that finds a single failure leaves the data that was on display
/// untouched.
pub proof fn lemma_poll_of_one_error(state: ControllerState, text: Seq<char>)
    ensures
        state.apply_all(seq![MessageView::Error(text)]) == state.apply(MessageView::Error(text)),
        state.apply_all(seq![MessageView::Error(text)]).results == state.results,
        state.apply_all(seq![MessageView::Error(text)]).selected == state.selected,
{
    lemma_apply_all_push(state, Seq::empty(), MessageView::Error(text));
    assert(Seq::<MessageView>::empty().push(MessageView::Error(text)) =~= seq![
        MessageView::Error(text),
    ]);
}

/// Outcomes of different kinds can arrive in either order: the state after
/// both is the same. So a record that overtakes a result list asked for
/// earlier does no harm.
pub proof fn lemma_different_kinds_commute(
    state: ControllerState,
    one: MessageView,
    other: MessageView,
)
    requires
        !one.same_kind(other),
    ensures
        state.apply(one).apply(other) == state.apply(other).apply(one),
{
}

/// Of two outcomes of the same kind the one applied last wins, as if the
/// first had never arrived.
pub proof fn lemma_last_of_a_kind_wins(
    state: ControllerState,
    first: MessageView,
    last: MessageView,
)
    requires
        first.same_kind(last),
    ensures
        state.apply(first).apply(last) == state.apply(last),
{
}

/// A product record is taken in on whichever screen is active: it becomes
/// the selected product and the screen stays.
pub proof fn lemma_details_accepted_on_any_screen(
    state: ControllerState,
    details: ProductDetailsView,
)
    ensures
        state.apply(MessageView::ProductDetails(details)).selected == Some(details),
        state.apply(MessageView::ProductDetails(details)).view == state.view,
        state.apply(MessageView::ProductDetails(details)).results == state.results,
        state.apply(MessageView::ProductDetails(details)).error == state.error,
{
}

/// Right after an action that starts a lookup the window shows the waiting
/// notice, whatever was on display before.
pub proof fn lemma_waiting_is_shown(state: ControllerState, event: Event)
    requires
        event.request() is Some,
    ensures
        state.step(event).screen() == ScreenView::Loading,
{
}

/// A failure that has just been applied is what the window shows, on
/// whichever screen it arrived.
pub proof fn lemma_failure_is_shown(state: ControllerState, text: Seq<char>)
    ensures
        state.apply(MessageView::Error(text)).screen() == ScreenView::Error(ERROR_LEAD@ + text),
{
}

/// Where no error is kept while waiting, the window shows the waiting notice
/// exactly while a lookup is awaited, and a failure exactly while one is
/// recorded: a recorded failure always takes the place of the active screen.
pub proof fn lemma_screen_follows_flags(state: ControllerState)
    requires
        state.well_formed(),
    ensures
        state.screen() is Loading <==> state.loading,
        state.screen() is Error <==> state.error is Some,
{
}

} // verus!
