//! The messages of the application.

use crate::model::{HttpbinAnythingData, HttpbinAnythingDataView};
use vstd::prelude::*;

verus! {

/// Why a request brought no payload.
#[derive(Debug, PartialEq, Eq)]
pub enum FailReason {
    /// The request did not complete: it was aborted, timed out, or the network failed.
    RequestError(String),
    /// The response came with an error status: its code and its text.
    Status(u16, String),
    /// The body of the response could not be decoded.
    DataError(String),
}

/// The mathematical content of a [`FailReason`].
pub enum FailReasonView {
    RequestError(Seq<char>),
    Status(u16, Seq<char>),
    DataError(Seq<char>),
}

impl View for FailReason {
    type V = FailReasonView;

    open spec fn view(&self) -> FailReasonView {
        match *self {
            FailReason::RequestError(detail) => FailReasonView::RequestError(detail@),
            FailReason::Status(code, text) => FailReasonView::Status(code, text@),
            FailReason::DataError(detail) => FailReasonView::DataError(detail@),
        }
    }
}

impl Clone for FailReason {
    fn clone(&self) -> (copy: Self)
        ensures
            copy@ == self@,
    {
        match self {
            FailReason::RequestError(detail) => FailReason::RequestError(detail.clone()),
            FailReason::Status(code, text) => FailReason::Status(*code, text.clone()),
            FailReason::DataError(detail) => FailReason::DataError(detail.clone()),
        }
    }
}

/// One event of the application.
#[derive(Debug, PartialEq, Eq)]
pub enum Msg {
    Increment,
    Decrement,
    Fetch,
    HttpbinAnythingDataFetched(Result<HttpbinAnythingData, FailReason>),
    ChangeWWC(String),
    Log(String),
    NoOp,
}

/// The mathematical content of a [`Msg`].
pub enum MsgView {
    Increment,
    Decrement,
    Fetch,
    HttpbinAnythingDataFetched(Result<HttpbinAnythingDataView, FailReasonView>),
    ChangeWWC(Seq<char>),
    Log(Seq<char>),
    NoOp,
}

/// The content of the outcome of a request.
pub open spec fn outcome_view(outcome: Result<HttpbinAnythingData, FailReason>) -> Result<
    HttpbinAnythingDataView,
    FailReasonView,
> {
    match outcome {
        Ok(data) => Ok(data@),
        Err(reason) => Err(reason@),
    }
}

impl View for Msg {
    type V = MsgView;

    open spec fn view(&self) -> MsgView {
        match *self {
            Msg::Increment => MsgView::Increment,
            Msg::Decrement => MsgView::Decrement,
            Msg::Fetch => MsgView::Fetch,
            Msg::HttpbinAnythingDataFetched(outcome) => MsgView::HttpbinAnythingDataFetched(
                outcome_view(outcome),
            ),
            Msg::ChangeWWC(text) => MsgView::ChangeWWC(text@),
            Msg::Log(text) => MsgView::Log(text@),
            Msg::NoOp => MsgView::NoOp,
        }
    }
}

impl Clone for Msg {
    fn clone(&self) -> (copy: Self)
        ensures
            copy@ == self@,
    {
        match self {
            Msg::Increment => Msg::Increment,
            Msg::Decrement => Msg::Decrement,
            Msg::Fetch => Msg::Fetch,
            Msg::HttpbinAnythingDataFetched(Ok(data)) => Msg::HttpbinAnythingDataFetched(
                Ok(data.clone()),
            ),
            Msg::HttpbinAnythingDataFetched(Err(reason)) => Msg::HttpbinAnythingDataFetched(
                Err(reason.clone()),
            ),
            Msg::ChangeWWC(text) => Msg::ChangeWWC(text.clone()),
            Msg::Log(text) => Msg::Log(text.clone()),
            Msg::NoOp => Msg::NoOp,
        }
    }
}

} // verus!
