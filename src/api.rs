use vstd::prelude::*;
use crate::error::ApiError;
use crate::stream::UpdatesStream;
use crate::url::{url, url_text, uri_accepts, TELEGRAM_URL};

verus! {

/// Seconds the service may hold a fetch of updates open by default.
pub const DEFAULT_POLL_TIMEOUT: i64 = 5;

/// The client's shared, read-only state: the bot's token.
#[derive(Clone)]
pub struct Api {
    token: String,
}

impl Api {
    /// The bot's token.
    pub closed spec fn token(&self) -> Seq<char> {
        self.token@
    }

    /// A client for the bot holding `token`.
    pub fn from_token(token: &str) -> (r: Result<Self, ApiError>)
        ensures
            r is Ok,
            r->Ok_0.token() == token@,
    {
        Ok(Api { token: token.to_owned() })
    }

    /// The address of `method` for this bot; `InvalidUrl` where it does not
    /// parse as a URI.
    pub fn url(&self, method: &str) -> (r: Result<hyper::Uri, ApiError>)
        ensures
            r is Ok <==> uri_accepts(url_text(TELEGRAM_URL@, self.token(), method@)),
            r is Err ==> r->Err_0 is InvalidUrl,
    {
        url(self.token.as_str(), method)
    }

    /// A long-polling stream of updates, from the start of the queue, with
    /// the default wait budget and no batch limit.
    pub fn stream<T>(&self) -> (r: UpdatesStream<T>)
        ensures
            r.wf(),
            r.cursor() == 0,
            r.wait_budget() == DEFAULT_POLL_TIMEOUT,
            r.batch_limit() is None,
            r.poll_state() is Idle,
            r.queued().len() == 0,
            r.failure_count() == 0,
    {
        UpdatesStream::new(0, DEFAULT_POLL_TIMEOUT, None)
    }
}

} // verus!
