//! The client's configuration: base URL, retry bound and the headers sent
//! with every request. It is fixed once the client is built.
use crate::error::Error;
use crate::policy::DEFAULT_MAX_RETRIES;
use std::collections::HashMap;
use std::marker::PhantomData;
use vstd::prelude::*;
use vstd::std_specs::hash::obeys_key_model;

verus! {

/// The pause that ships with the library, backed by the tokio timer.
#[derive(Debug, Clone, Copy)]
pub struct DefaultSleeper;

/// Settings for a client, gathered before it is built.
#[derive(Debug, Clone)]
pub struct Builder {
    /// The URL of the Esplora server.
    pub base_url: String,
    /// Headers applied to every request.
    pub headers: HashMap<String, String>,
    /// Number of times to retry a request.
    pub max_retries: usize,
}

impl Builder {
    /// Settings for the server at `base_url`, with no headers and the default
    /// retry bound.
    pub fn new(base_url: &str) -> (b: Builder)
        ensures
            b.base_url@ == base_url@,
            b.headers@ == Map::<String, String>::empty(),
            b.max_retries == DEFAULT_MAX_RETRIES,
    {
        Builder {
            base_url: base_url.to_owned(),
            headers: HashMap::new(),
            max_retries: DEFAULT_MAX_RETRIES,
        }
    }

    /// Adds a header to every request, replacing one of the same name.
    pub fn header(self, key: String, value: String) -> (b: Builder)
        ensures
            b.base_url == self.base_url,
            b.max_retries == self.max_retries,
            obeys_key_model::<String>() ==> b.headers@ == self.headers@.insert(key, value),
    {
        let mut b = self;
        b.headers.insert(key, value);
        b
    }

    /// Sets the number of retries.
    pub fn max_retries(self, count: usize) -> (b: Builder)
        ensures
            b.base_url == self.base_url,
            b.headers == self.headers,
            b.max_retries == count,
    {
        let mut b = self;
        b.max_retries = count;
        b
    }
}

/// A client of an Esplora server. `S` chooses how retries pause.
#[derive(Debug)]
pub struct AsyncClient<S = DefaultSleeper> {
    /// The URL of the Esplora server.
    url: String,
    /// Number of times to retry a request.
    max_retries: usize,
    /// Default headers (applied to every request).
    headers: HashMap<String, String>,
    /// Marker for the sleeper.
    marker: PhantomData<S>,
}

impl<S> Clone for AsyncClient<S> {
    /// A client with the same URL, retry bound and headers.
    fn clone(&self) -> (c: Self)
        ensures
            c.base_url() == self.base_url(),
            c.retry_bound() == self.retry_bound(),
            c.header_map() == self.header_map(),
    {
        AsyncClient {
            url: self.url.clone(),
            max_retries: self.max_retries,
            headers: self.headers.clone(),
            marker: PhantomData,
        }
    }
}

impl<S> AsyncClient<S> {
    /// The base URL.
    pub closed spec fn base_url(&self) -> Seq<char> {
        self.url@
    }

    /// The bound on retries of one request.
    pub closed spec fn retry_bound(&self) -> nat {
        self.max_retries as nat
    }

    /// The headers sent with every request.
    pub closed spec fn header_map(&self) -> Map<String, String> {
        self.headers@
    }

    /// Builds a client from its settings.
    pub fn from_builder(builder: Builder) -> (r: Result<Self, Error>)
        ensures
            r matches Ok(c) && c.base_url() == builder.base_url@ && c.retry_bound()
                == builder.max_retries && c.header_map() == builder.headers@,
    {
        Ok(AsyncClient {
            url: builder.base_url,
            max_retries: builder.max_retries,
            headers: builder.headers,
            marker: PhantomData,
        })
    }

    /// Builds a client for `url` with these headers and the default retry
    /// bound.
    pub fn from_client(url: String, headers: HashMap<String, String>) -> (c: Self)
        ensures
            c.base_url() == url@,
            c.retry_bound() == DEFAULT_MAX_RETRIES,
            c.header_map() == headers@,
    {
        AsyncClient { url, headers, max_retries: DEFAULT_MAX_RETRIES, marker: PhantomData }
    }

    /// Get the underlying base URL.
    pub fn url(&self) -> (r: &str)
        ensures
            r@ == self.base_url(),
    {
        self.url.as_str()
    }

    /// The number of retries of one request.
    pub fn max_retries(&self) -> (r: usize)
        ensures
            r == self.retry_bound(),
    {
        self.max_retries
    }

    /// The headers sent with every request.
    pub fn headers(&self) -> (r: &HashMap<String, String>)
        ensures
            r@ == self.header_map(),
    {
        &self.headers
    }
}

} // verus!
