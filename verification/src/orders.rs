//! What a reducer leaves for the runtime: whether to render, the effects to perform and
//! the diagnostics to make observable.

use crate::model::HttpbinAnythingData;
use crate::msg::{outcome_view, FailReason, FailReasonView, Msg, MsgView};
use vstd::prelude::*;

verus! {

/// A unit of work that the runtime performs outside the reducer. When it completes it
/// yields exactly one message.
#[derive(Debug, PartialEq, Eq)]
pub enum Effect {
    /// Request the document at `url` and decode it as a [`HttpbinAnythingData`].
    FetchJson { url: String },
}

/// The mathematical content of an [`Effect`].
pub enum EffectView {
    FetchJson { url: Seq<char> },
}

impl View for Effect {
    type V = EffectView;

    open spec fn view(&self) -> EffectView {
        match *self {
            Effect::FetchJson { url } => EffectView::FetchJson { url: url@ },
        }
    }
}

impl Clone for Effect {
    fn clone(&self) -> (copy: Self)
        ensures
            copy@ == self@,
    {
        match self {
            Effect::FetchJson { url } => Effect::FetchJson { url: url.clone() },
        }
    }
}

impl Effect {
    /// The message by which the completed effect reports its outcome.
    pub fn completed(self, outcome: Result<HttpbinAnythingData, FailReason>) -> (msg: Msg)
        ensures
            msg@ == MsgView::HttpbinAnythingDataFetched(outcome_view(outcome)),
    {
        match self {
            Effect::FetchJson { url: _ } => Msg::HttpbinAnythingDataFetched(outcome),
        }
    }
}

/// Something the runtime is to make observable on its diagnostic channel.
#[derive(Debug, PartialEq, Eq)]
pub enum Diagnostic {
    /// A line of information.
    Info(String),
    /// A request failed, and why.
    FetchFailed(FailReason),
}

/// The mathematical content of a [`Diagnostic`].
pub enum DiagnosticView {
    Info(Seq<char>),
    FetchFailed(FailReasonView),
}

impl View for Diagnostic {
    type V = DiagnosticView;

    open spec fn view(&self) -> DiagnosticView {
        match *self {
            Diagnostic::Info(text) => DiagnosticView::Info(text@),
            Diagnostic::FetchFailed(reason) => DiagnosticView::FetchFailed(reason@),
        }
    }
}

impl Clone for Diagnostic {
    fn clone(&self) -> (copy: Self)
        ensures
            copy@ == self@,
    {
        match self {
            Diagnostic::Info(text) => Diagnostic::Info(text.clone()),
            Diagnostic::FetchFailed(reason) => Diagnostic::FetchFailed(reason.clone()),
        }
    }
}

/// Whether the runtime renders the view again after an update.
#[derive(Clone, Copy, Debug, PartialEq, Eq, Structural)]
pub enum ShouldRender {
    Render,
    Skip,
}

/// What a reducer leaves for the runtime to do once it has returned.
#[derive(Debug, PartialEq, Eq)]
pub struct Orders {
    pub should_render: ShouldRender,
    pub effects: Vec<Effect>,
    pub diagnostics: Vec<Diagnostic>,
}

/// The mathematical content of an [`Orders`].
pub struct OrdersView {
    pub should_render: ShouldRender,
    pub effects: Seq<EffectView>,
    pub diagnostics: Seq<DiagnosticView>,
}

impl View for Orders {
    type V = OrdersView;

    open spec fn view(&self) -> OrdersView {
        OrdersView {
            should_render: self.should_render,
            effects: self.effects@.map_values(|e: Effect| e@),
            diagnostics: self.diagnostics@.map_values(|d: Diagnostic| d@),
        }
    }
}

/// The orders of an update that asks for nothing: render, no effect, no diagnostic.
pub open spec fn no_orders() -> OrdersView {
    OrdersView { should_render: ShouldRender::Render, effects: seq![], diagnostics: seq![] }
}

impl Orders {
    /// Orders that ask for a render and nothing else.
    pub fn new() -> (orders: Self)
        ensures
            orders@ == no_orders(),
    {
        let orders = Orders {
            should_render: ShouldRender::Render,
            effects: Vec::new(),
            diagnostics: Vec::new(),
        };
        assert(orders@.effects =~= seq![]);
        assert(orders@.diagnostics =~= seq![]);
        orders
    }

    /// Asks the runtime to render after the update. This is where orders start.
    pub fn render(&mut self)
        ensures
            final(self)@ == (OrdersView { should_render: ShouldRender::Render, ..old(self)@ }),
    {
        self.should_render = ShouldRender::Render;
    }

    /// Asks the runtime not to render after the update.
    pub fn skip(&mut self)
        ensures
            final(self)@ == (OrdersView { should_render: ShouldRender::Skip, ..old(self)@ }),
    {
        self.should_render = ShouldRender::Skip;
    }

    /// Schedules `effect` to be performed after the update, behind those already
    /// scheduled.
    pub fn perform_cmd(&mut self, effect: Effect)
        ensures
            final(self)@ == (OrdersView {
                effects: old(self)@.effects.push(effect@),
                ..old(self)@
            }),
    {
        self.effects.push(effect);
        assert(self@.effects =~= old(self)@.effects.push(effect@));
    }

    /// Hands `diagnostic` to the runtime, behind those already handed over.
    pub fn report(&mut self, diagnostic: Diagnostic)
        ensures
            final(self)@ == (OrdersView {
                diagnostics: old(self)@.diagnostics.push(diagnostic@),
                ..old(self)@
            }),
    {
        self.diagnostics.push(diagnostic);
        assert(self@.diagnostics =~= old(self)@.diagnostics.push(diagnostic@));
    }
}

impl Clone for Orders {
    fn clone(&self) -> (copy: Self)
        ensures
            copy@ == self@,
    {
        let mut effects: Vec<Effect> = Vec::new();
        let mut i: usize = 0;
        while i < self.effects.len()
            invariant
                i <= self.effects.len(),
                effects@.len() == i,
                forall|j: int| 0 <= j < i ==> effects@[j]@ == self.effects@[j]@,
            decreases self.effects.len() - i,
        {
            effects.push(self.effects[i].clone());
            i += 1;
        }
        let mut diagnostics: Vec<Diagnostic> = Vec::new();
        let mut k: usize = 0;
        while k < self.diagnostics.len()
            invariant
                k <= self.diagnostics.len(),
                diagnostics@.len() == k,
                forall|j: int| 0 <= j < k ==> diagnostics@[j]@ == self.diagnostics@[j]@,
            decreases self.diagnostics.len() - k,
        {
            diagnostics.push(self.diagnostics[k].clone());
            k += 1;
        }
        let copy = Orders { should_render: self.should_render, effects, diagnostics };
        assert(copy@.effects =~= self@.effects);
        assert(copy@.diagnostics =~= self@.diagnostics);
        copy
    }
}

impl Default for Orders {
    fn default() -> (orders: Self)
        ensures
            orders@ == no_orders(),
    {
        Orders::new()
    }
}

} // verus!
