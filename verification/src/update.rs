//! The reducer: how a message changes the model, and what it orders from the runtime.

use crate::model::{Model, ModelView};
use crate::msg::{Msg, MsgView};
use crate::orders::{
    no_orders, Diagnostic, DiagnosticView, Effect, EffectView, Orders, OrdersView, ShouldRender,
};
use vstd::prelude::*;
use vstd::string::StringExecFns;

verus! {

/// The amount by which one counter message moves the count.
pub const DELTA: usize = 100;

/// Where the payload of the application is requested from.
pub const HTTPBIN_URL: &'static str = "https://httpbin.dev.fanai.io/anything/somepath?foo=bar";

/// The count after one step up. It stops at the largest count the machine holds.
pub open spec fn stepped_up(count: nat, step: nat) -> nat {
    if count + step <= usize::MAX {
        count + step
    } else {
        usize::MAX as nat
    }
}

/// The count after one step down: the larger of zero and `count - step`.
pub open spec fn stepped_down(count: nat, step: nat) -> nat {
    if count - step >= 0 {
        (count - step) as nat
    } else {
        0
    }
}

/// The effect that requests the payload of the application.
pub open spec fn fetch_effect() -> EffectView {
    EffectView::FetchJson { url: HTTPBIN_URL@ }
}

/// The state that follows `model` when `msg` arrives and counter messages move the count
/// by `step`.
pub open spec fn next_model(step: nat, msg: MsgView, model: ModelView) -> ModelView {
    match msg {
        MsgView::Increment => ModelView { count: stepped_up(model.count, step), ..model },
        MsgView::Decrement => ModelView { count: stepped_down(model.count, step), ..model },
        MsgView::ChangeWWC(text) => ModelView { what_we_count: text, ..model },
        MsgView::HttpbinAnythingDataFetched(Ok(data)) => ModelView {
            httpbin_data: Some(data),
            ..model
        },
        MsgView::HttpbinAnythingDataFetched(Err(_)) => model,
        MsgView::Fetch => model,
        MsgView::Log(_) => model,
        MsgView::NoOp => model,
    }
}

/// The orders that `msg` adds to `orders`.
pub open spec fn next_orders(msg: MsgView, orders: OrdersView) -> OrdersView {
    match msg {
        MsgView::Fetch => OrdersView {
            should_render: ShouldRender::Skip,
            effects: orders.effects.push(fetch_effect()),
            ..orders
        },
        MsgView::HttpbinAnythingDataFetched(Ok(_)) => OrdersView {
            diagnostics: orders.diagnostics.push(DiagnosticView::Info("fetch success"@)),
            ..orders
        },
        MsgView::HttpbinAnythingDataFetched(Err(reason)) => OrdersView {
            diagnostics: orders.diagnostics.push(DiagnosticView::FetchFailed(reason)),
            ..orders
        },
        MsgView::Log(text) => OrdersView {
            diagnostics: orders.diagnostics.push(DiagnosticView::Info(text)),
            ..orders
        },
        MsgView::Increment => orders,
        MsgView::Decrement => orders,
        MsgView::ChangeWWC(_) => orders,
        MsgView::NoOp => orders,
    }
}

/// What one run of the reducer may leave behind: the state and the orders that follow
/// from the message, the state and the orders it found.
pub open spec fn update_outcome(
    step: nat,
    msg: MsgView,
    model: ModelView,
    orders: OrdersView,
    model_after: ModelView,
    orders_after: OrdersView,
) -> bool {
    &&& model_after == next_model(step, msg, model)
    &&& orders_after == next_orders(msg, orders)
}

/// One step up of a count.
pub fn step_up(count: usize, step: usize) -> (next: usize)
    ensures
        next == stepped_up(count as nat, step as nat),
{
    if step > usize::MAX - count {
        usize::MAX
    } else {
        count + step
    }
}

/// One step down of a count.
pub fn step_down(count: usize, step: usize) -> (next: usize)
    ensures
        next == stepped_down(count as nat, step as nat),
{
    if step > count {
        0
    } else {
        count - step
    }
}

/// The effect that requests the payload shown by the application. The state is left as
/// it is.
pub fn fetch_data(model: &mut Model) -> (effect: Effect)
    ensures
        *final(model) == *old(model),
        effect@ == fetch_effect(),
{
    Effect::FetchJson { url: String::from_str(HTTPBIN_URL) }
}

/// Applies `msg` to `model`, moving the count by `step` where the message is a counter
/// message, and adds to `orders` what the runtime is to do.
pub fn update_with(step: usize, msg: Msg, model: &mut Model, orders: &mut Orders)
    ensures
        update_outcome(step as nat, msg@, old(model)@, old(orders)@, final(model)@, final(orders)@),
{
    match msg {
        Msg::Increment => {
            model.count = step_up(model.count, step);
        },
        Msg::Decrement => {
            model.count = step_down(model.count, step);
        },
        Msg::ChangeWWC(what_we_count) => {
            model.what_we_count = what_we_count;
        },
        Msg::Fetch => {
            let effect = fetch_data(model);
            orders.skip();
            orders.perform_cmd(effect);
        },
        Msg::HttpbinAnythingDataFetched(outcome) => {
            match outcome {
                Ok(data) => {
                    orders.report(Diagnostic::Info(String::from_str("fetch success")));
                    model.httpbin_data = Some(data);
                },
                Err(fail_reason) => {
                    orders.report(Diagnostic::FetchFailed(fail_reason));
                },
            }
        },
        Msg::Log(message) => {
            orders.report(Diagnostic::Info(message));
        },
        Msg::NoOp => {},
    }
}

/// How the application updates its model: [`update_with`] at the step [`DELTA`].
pub fn update(msg: Msg, model: &mut Model, orders: &mut Orders)
    ensures
        update_outcome(DELTA as nat, msg@, old(model)@, old(orders)@, final(model)@, final(orders)@),
{
    update_with(DELTA, msg, model, orders)
}

/// The reducer is a function of its inputs: two runs on the same message, state and
/// orders leave the same state and the same orders.
pub proof fn lemma_update_deterministic(
    step: nat,
    msg: MsgView,
    model: ModelView,
    orders: OrdersView,
    first_model: ModelView,
    first_orders: OrdersView,
    second_model: ModelView,
    second_orders: OrdersView,
)
    requires
        update_outcome(step, msg, model, orders, first_model, first_orders),
        update_outcome(step, msg, model, orders, second_model, second_orders),
    ensures
        first_model == second_model,
        first_orders == second_orders,
{
}

/// A step down takes a count `v` to the larger of zero and `v - s`; it never passes
/// below zero.
pub proof fn lemma_decrement_saturates(step: nat, model: ModelView)
    ensures
        next_model(step, MsgView::Decrement, model).count == if model.count - step > 0 {
            model.count - step
        } else {
            0
        },
        next_model(step, MsgView::Decrement, model).what_we_count == model.what_we_count,
        next_model(step, MsgView::Decrement, model).httpbin_data == model.httpbin_data,
{
}

/// The message that asks for nothing leaves the state as it is and adds no order.
pub proof fn lemma_noop_changes_nothing(step: nat, model: ModelView, orders: OrdersView)
    ensures
        next_model(step, MsgView::NoOp, model) == model,
        next_orders(MsgView::NoOp, orders) == orders,
        next_orders(MsgView::NoOp, no_orders()).effects.len() == 0,
{
}

} // verus!
