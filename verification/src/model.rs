//! The application state and the payload it keeps from a completed request.

use crate::ordered_map::{OrderedMap, Pairs};
use vstd::prelude::*;
use vstd::string::StringExecFns;

verus! {

/// The characters of an optional string.
pub open spec fn opt_text(text: Option<String>) -> Option<Seq<char>> {
    match text {
        Some(s) => Some(s@),
        None => None,
    }
}

/// What the data service echoes back about a request.
#[derive(Debug, PartialEq, Eq)]
pub struct HttpbinAnythingData {
    pub args: OrderedMap,
    pub data: String,
    pub files: OrderedMap,
    pub form: OrderedMap,
    pub headers: OrderedMap,
    pub json: Option<String>,
    pub method: String,
    pub origin: String,
    pub url: String,
}

/// The mathematical content of a [`HttpbinAnythingData`].
pub struct HttpbinAnythingDataView {
    pub args: Pairs,
    pub data: Seq<char>,
    pub files: Pairs,
    pub form: Pairs,
    pub headers: Pairs,
    pub json: Option<Seq<char>>,
    pub method: Seq<char>,
    pub origin: Seq<char>,
    pub url: Seq<char>,
}

impl View for HttpbinAnythingData {
    type V = HttpbinAnythingDataView;

    open spec fn view(&self) -> HttpbinAnythingDataView {
        HttpbinAnythingDataView {
            args: self.args@,
            data: self.data@,
            files: self.files@,
            form: self.form@,
            headers: self.headers@,
            json: opt_text(self.json),
            method: self.method@,
            origin: self.origin@,
            url: self.url@,
        }
    }
}

impl Clone for HttpbinAnythingData {
    fn clone(&self) -> (copy: Self)
        ensures
            copy@ == self@,
    {
        let json = match &self.json {
            Some(text) => Some(text.clone()),
            None => None,
        };
        HttpbinAnythingData {
            args: self.args.clone(),
            data: self.data.clone(),
            files: self.files.clone(),
            form: self.form.clone(),
            headers: self.headers.clone(),
            json,
            method: self.method.clone(),
            origin: self.origin.clone(),
            url: self.url.clone(),
        }
    }
}

/// The payload of an optional response.
pub open spec fn opt_payload(data: Option<HttpbinAnythingData>) -> Option<HttpbinAnythingDataView> {
    match data {
        Some(d) => Some(d@),
        None => None,
    }
}

/// The application state: a counter, the name of what is counted, and the payload of the
/// last successful request, if there was one.
#[derive(Debug, PartialEq, Eq)]
pub struct Model {
    pub count: usize,
    pub what_we_count: String,
    pub httpbin_data: Option<HttpbinAnythingData>,
}

/// The mathematical content of a [`Model`].
pub struct ModelView {
    pub count: nat,
    pub what_we_count: Seq<char>,
    pub httpbin_data: Option<HttpbinAnythingDataView>,
}

impl View for Model {
    type V = ModelView;

    open spec fn view(&self) -> ModelView {
        ModelView {
            count: self.count as nat,
            what_we_count: self.what_we_count@,
            httpbin_data: opt_payload(self.httpbin_data),
        }
    }
}

impl Clone for Model {
    fn clone(&self) -> (copy: Self)
        ensures
            copy@ == self@,
    {
        let httpbin_data = match &self.httpbin_data {
            Some(data) => Some(data.clone()),
            None => None,
        };
        Model { count: self.count, what_we_count: self.what_we_count.clone(), httpbin_data }
    }
}

/// The state an application starts from.
pub open spec fn initial_model() -> ModelView {
    ModelView { count: 500, what_we_count: "clicks"@, httpbin_data: None }
}

impl Default for Model {
    fn default() -> (model: Self)
        ensures
            model@ == initial_model(),
    {
        Model { count: 500, what_we_count: String::from_str("clicks"), httpbin_data: None }
    }
}

} // verus!
