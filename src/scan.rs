use vstd::prelude::*;
use crate::credential::{
    is_token_request, token_request, EntraIDTokenResponse, MSGraphAccessToken, MSGraphCredentials,
};
use crate::error::{FdwError, Operation};
use crate::json::Json;
use crate::page::{initial_url, is_page_request, ODataResponsePage};
use crate::projector::{project, projection, row_model, Cell, ColumnRequest};
use crate::request::HttpRequest;

verus! {

/// Where a scan stands. The host performs the request that a step hands out
/// and reports its outcome back; no state allows two scans at once.
#[derive(Debug, Clone, Copy, PartialEq, Eq, Structural)]
pub enum ScanPhase {
    Idle,
    AwaitingToken,
    AwaitingFirstPage,
    Scanning,
    AwaitingRefresh,
    AwaitingNextPage,
    Exhausted,
}

/// What one row request yields.
#[derive(Debug, PartialEq)]
pub enum ScanStep {
    /// The next row, one cell per requested column.
    Row(Vec<Option<Cell>>),
    /// The current page is used up: perform this request and hand the decoded
    /// page to `on_next_page`, then ask again.
    Fetch(HttpRequest),
    /// The current page is used up and the credential is about to expire:
    /// perform this token request and hand its outcome to `on_refreshed_token`.
    Refresh(HttpRequest),
    /// No more rows.
    Done,
}

/// The connector: its configuration and the state of the one scan it runs.
pub struct MSGraphFDW {
    pub graph_base_url: String,
    pub token_base_url: String,
    pub credentials: MSGraphCredentials,
    /// The collection being scanned.
    pub object: String,
    pub access_token: Option<MSGraphAccessToken>,
    pub current_page: Option<ODataResponsePage>,
    /// Index of the next record of the current page.
    pub page_offset: usize,
    pub phase: ScanPhase,
    /// The records of the pages that this scan has left behind, in order.
    pub passed: Ghost<Seq<Json>>,
    /// The records whose rows this scan has yielded, in order.
    pub delivered: Ghost<Seq<Json>>,
}

pub open spec fn holds_page(phase: ScanPhase) -> bool {
    phase == ScanPhase::Scanning || phase == ScanPhase::AwaitingRefresh || phase
        == ScanPhase::AwaitingNextPage || phase == ScanPhase::Exhausted
}

impl MSGraphFDW {
    pub open spec fn page(&self) -> ODataResponsePage {
        self.current_page->0
    }

    pub open spec fn records(&self) -> Seq<Json> {
        self.page().records()
    }

    pub open spec fn at_page_end(&self) -> bool {
        self.page_offset == self.page().items.len()
    }

    pub open spec fn wf(&self) -> bool {
        &&& !holds_page(self.phase) ==> {
            &&& self.current_page is None
            &&& self.page_offset == 0
            &&& self.passed@ == Seq::<Json>::empty()
            &&& self.delivered@ == Seq::<Json>::empty()
        }
        &&& self.phase == ScanPhase::Idle || self.phase == ScanPhase::AwaitingToken
            ==> self.access_token is None
        &&& self.phase != ScanPhase::Idle && self.phase != ScanPhase::AwaitingToken
            ==> self.access_token is Some
        &&& holds_page(self.phase) ==> {
            &&& self.current_page is Some
            &&& self.page_offset <= self.page().items.len()
            &&& self.delivered@ == self.passed@ + self.records().take(self.page_offset as int)
        }
        &&& self.phase == ScanPhase::AwaitingNextPage || self.phase == ScanPhase::AwaitingRefresh
            ==> self.at_page_end()
            && self.page().next_page is Some
        &&& self.phase == ScanPhase::Exhausted ==> self.at_page_end()
            && self.page().next_page is None
    }

    /// The state after `end_scan`: no page, no credential, offset zero.
    pub open spec fn ended(self) -> Self {
        MSGraphFDW {
            access_token: None,
            current_page: None,
            page_offset: 0,
            phase: ScanPhase::Idle,
            passed: Ghost(Seq::empty()),
            delivered: Ghost(Seq::empty()),
            ..self
        }
    }

    pub open spec fn in_phase(self, phase: ScanPhase) -> Self {
        MSGraphFDW { phase, ..self }
    }
}

/// The graph endpoint used when the server options name none.
pub const DEFAULT_GRAPH_BASE_URL: &'static str = "https://graph.microsoft.com/v1.0";

/// The token endpoint used when the server options name none.
pub const DEFAULT_TOKEN_BASE_URL: &'static str = "https://login.microsoftonline.com";

pub open spec fn given_or(o: Option<String>, default: Seq<char>) -> Seq<char> {
    match o {
        Some(s) => s@,
        None => default,
    }
}

fn take_or(o: Option<String>, default: &str) -> (r: String)
    ensures
        r@ == given_or(o, default@),
{
    match o {
        Some(s) => s,
        None => String::from_str(default),
    }
}

pub open spec fn is_config_error(r: Result<MSGraphFDW, FdwError>, option: Seq<char>) -> bool {
    r matches Err(FdwError::ConfigError(n)) && n@ == option
}

impl MSGraphFDW {
    /// A connector from its server options: the two endpoints, which have
    /// defaults, and the resolved tenant, client and secret, which are
    /// required, checked in that order.
    pub fn init(
        graph_base_url: Option<String>,
        token_base_url: Option<String>,
        tenant_id: Option<String>,
        client_id: Option<String>,
        client_secret: Option<String>,
    ) -> (r: Result<Self, FdwError>)
        ensures
            tenant_id is None ==> is_config_error(r, "tenant_id"@),
            tenant_id is Some && client_id is None ==> is_config_error(r, "client_id"@),
            tenant_id is Some && client_id is Some && client_secret is None ==> is_config_error(
                r,
                "client_secret"@,
            ),
            r is Ok <==> tenant_id is Some && client_id is Some && client_secret is Some,
            r matches Ok(s) ==> {
                &&& s.wf()
                &&& s.phase == ScanPhase::Idle
                &&& s.graph_base_url@ == given_or(graph_base_url, DEFAULT_GRAPH_BASE_URL@)
                &&& s.token_base_url@ == given_or(token_base_url, DEFAULT_TOKEN_BASE_URL@)
                &&& s.credentials.tenant_id == tenant_id->0
                &&& s.credentials.client_id == client_id->0
                &&& s.credentials.client_secret == client_secret->0
            },
    {
        let graph_base_url = take_or(graph_base_url, DEFAULT_GRAPH_BASE_URL);
        let token_base_url = take_or(token_base_url, DEFAULT_TOKEN_BASE_URL);
        let tenant_id = match tenant_id {
            Some(t) => t,
            None => {
                return Err(FdwError::ConfigError(String::from_str("tenant_id")));
            },
        };
        let client_id = match client_id {
            Some(c) => c,
            None => {
                return Err(FdwError::ConfigError(String::from_str("client_id")));
            },
        };
        let client_secret = match client_secret {
            Some(c) => c,
            None => {
                return Err(FdwError::ConfigError(String::from_str("client_secret")));
            },
        };
        Ok(MSGraphFDW {
            graph_base_url,
            token_base_url,
            credentials: MSGraphCredentials { client_id, client_secret, tenant_id },
            object: String::new(),
            access_token: None,
            current_page: None,
            page_offset: 0,
            phase: ScanPhase::Idle,
            passed: Ghost(Seq::empty()),
            delivered: Ghost(Seq::empty()),
        })
    }

    /// Starts a scan of collection `object`: hands out the token request.
    /// Without an object it fails with a `ConfigError` and nothing changes.
    pub fn begin_scan(&mut self, object: Option<String>) -> (r: Result<HttpRequest, FdwError>)
        requires
            old(self).wf(),
            old(self).phase == ScanPhase::Idle,
        ensures
            final(self).wf(),
            object is None ==> (r matches Err(FdwError::ConfigError(n)) && n@ == "object"@),
            object is Some <==> r is Ok,
            r is Err ==> *final(self) == *old(self),
            r matches Ok(req) ==> {
                &&& is_token_request(req, old(self).token_base_url@, old(self).credentials)
                &&& *final(self) == (MSGraphFDW {
                    object: object->0,
                    phase: ScanPhase::AwaitingToken,
                    ..*old(self)
                })
            },
    {
        let object = match object {
            Some(o) => o,
            None => {
                return Err(FdwError::ConfigError(String::from_str("object")));
            },
        };
        let req = token_request(&self.token_base_url, &self.credentials);
        self.object = object;
        self.phase = ScanPhase::AwaitingToken;
        Ok(req)
    }

    /// Takes the outcome of the token request, received at `now` (seconds
    /// since the Unix epoch), and hands out the request of the first page.
    /// On failure the scan goes back to idle.
    pub fn on_token(&mut self, resp: Result<EntraIDTokenResponse, FdwError>, now: u64) -> (r:
        Result<HttpRequest, FdwError>)
        requires
            old(self).wf(),
            old(self).phase == ScanPhase::AwaitingToken,
        ensures
            final(self).wf(),
            r is Err ==> *final(self) == old(self).ended(),
            match resp {
                Err(e) => r == Err::<HttpRequest, FdwError>(e),
                Ok(t) => {
                    &&& r is Ok <==> now + t.expires_in <= u64::MAX
                    &&& r matches Err(e) ==> e is AuthError
                    &&& r matches Ok(req) ==> {
                        let token = final(self).access_token->0;
                        &&& token.access_token == t.access_token
                        &&& token.expires_at == now + t.expires_in
                        &&& is_page_request(
                            req,
                            initial_url(old(self).graph_base_url@, old(self).object@),
                            token,
                        )
                        &&& *final(self) == (MSGraphFDW {
                            access_token: Some(token),
                            phase: ScanPhase::AwaitingFirstPage,
                            ..*old(self)
                        })
                    }
                },
            },
    {
        let resp = match resp {
            Ok(t) => t,
            Err(e) => {
                self.phase = ScanPhase::Idle;
                return Err(e);
            },
        };
        let token = match MSGraphAccessToken::from_response(resp, now) {
            Ok(t) => t,
            Err(e) => {
                self.phase = ScanPhase::Idle;
                return Err(e);
            },
        };
        let req = ODataResponsePage::initial_request(&self.graph_base_url, &self.object, &token);
        self.access_token = Some(token);
        self.phase = ScanPhase::AwaitingFirstPage;
        Ok(req)
    }

    /// Takes the outcome of the first page request. On success rows can be
    /// asked for, from the first record; on failure the scan goes back to idle.
    pub fn on_initial_page(&mut self, page: Result<ODataResponsePage, FdwError>) -> (r: Result<
        (),
        FdwError,
    >)
        requires
            old(self).wf(),
            old(self).phase == ScanPhase::AwaitingFirstPage,
        ensures
            final(self).wf(),
            match page {
                Err(e) => r == Err::<(), FdwError>(e) && *final(self) == old(self).ended(),
                Ok(p) => r is Ok && *final(self) == (MSGraphFDW {
                    current_page: Some(p),
                    page_offset: 0,
                    phase: ScanPhase::Scanning,
                    ..*old(self)
                }),
            },
    {
        match page {
            Ok(p) => {
                self.current_page = Some(p);
                self.page_offset = 0;
                self.phase = ScanPhase::Scanning;
                assert(self.records().take(0) =~= Seq::<Json>::empty());
                assert(self.delivered@ =~= self.passed@ + self.records().take(0));
                Ok(())
            },
            Err(e) => {
                self.access_token = None;
                self.phase = ScanPhase::Idle;
                Err(e)
            },
        }
    }
}

impl MSGraphFDW {
    /// Asks for the next row at time `now`. Within a page the record at the
    /// offset is projected and the offset moves on by one; a projection error
    /// leaves the state as it was. At the end of a page the scan ends when no
    /// continuation follows; otherwise the continuation is requested, after a
    /// fresh token where the current one is about to expire.
    pub fn next_row(&mut self, columns: &Vec<ColumnRequest>, now: u64) -> (r: Result<
        ScanStep,
        FdwError,
    >)
        requires
            old(self).wf(),
            old(self).phase == ScanPhase::Scanning,
        ensures
            final(self).wf(),
            !old(self).at_page_end() ==> {
                let record = old(self).records()[old(self).page_offset as int];
                match projection(record, columns@) {
                    Ok(cells) => (r matches Ok(ScanStep::Row(row)) && row_model(row@) == cells)
                        && *final(self) == (MSGraphFDW {
                        page_offset: (old(self).page_offset + 1) as usize,
                        delivered: Ghost(old(self).delivered@.push(record)),
                        ..*old(self)
                    }),
                    Err(e) => r == Err::<ScanStep, FdwError>(e) && *final(self) == *old(self),
                }
            },
            old(self).at_page_end() && old(self).page().next_page is None ==> (r matches Ok(
                ScanStep::Done,
            )) && *final(self) == old(self).in_phase(ScanPhase::Exhausted),
            old(self).at_page_end() && old(self).page().next_page is Some && !old(
                self,
            ).access_token->0.expiring(now as int) ==> (r matches Ok(ScanStep::Fetch(req))
                && is_page_request(
                req,
                old(self).page().next_page->0@,
                old(self).access_token->0,
            )) && *final(self) == old(self).in_phase(ScanPhase::AwaitingNextPage),
            old(self).at_page_end() && old(self).page().next_page is Some && old(
                self,
            ).access_token->0.expiring(now as int) ==> (r matches Ok(ScanStep::Refresh(req))
                && is_token_request(req, old(self).token_base_url@, old(self).credentials))
                && *final(self) == old(self).in_phase(ScanPhase::AwaitingRefresh),
    {
        let page = match self.current_page.as_ref() {
            Some(p) => p,
            None => {
                return Ok(ScanStep::Done);
            },
        };
        let token = match self.access_token.as_ref() {
            Some(t) => t,
            None => {
                return Ok(ScanStep::Done);
            },
        };
        if self.page_offset >= page.items.len() {
            if !page.has_next() {
                self.phase = ScanPhase::Exhausted;
                return Ok(ScanStep::Done);
            }
            if token.is_about_to_expire(now) {
                let req = token_request(&self.token_base_url, &self.credentials);
                self.phase = ScanPhase::AwaitingRefresh;
                return Ok(ScanStep::Refresh(req));
            }
            let req = page.fetch_next(token)?;
            self.phase = ScanPhase::AwaitingNextPage;
            return Ok(ScanStep::Fetch(req));
        }
        let row = project(&page.items[self.page_offset], columns)?;
        let ghost record = self.records()[self.page_offset as int];
        proof {
            let k = self.page_offset as int;
            assert(self.records().take(k + 1) =~= self.records().take(k).push(record));
        }
        self.page_offset = self.page_offset + 1;
        self.delivered = Ghost(self.delivered@.push(record));
        Ok(ScanStep::Row(row))
    }

    /// Takes the outcome of the token refresh, received at `now`, and hands
    /// out the request of the next page under the new credential. On failure
    /// the scan stays at the end of its page.
    pub fn on_refreshed_token(
        &mut self,
        resp: Result<EntraIDTokenResponse, FdwError>,
        now: u64,
    ) -> (r: Result<HttpRequest, FdwError>)
        requires
            old(self).wf(),
            old(self).phase == ScanPhase::AwaitingRefresh,
        ensures
            final(self).wf(),
            r is Err ==> *final(self) == old(self).in_phase(ScanPhase::Scanning),
            match resp {
                Err(e) => r == Err::<HttpRequest, FdwError>(e),
                Ok(t) => {
                    &&& r is Ok <==> now + t.expires_in <= u64::MAX
                    &&& r matches Err(e) ==> e is AuthError
                    &&& r matches Ok(req) ==> {
                        let token = final(self).access_token->0;
                        &&& token.access_token == t.access_token
                        &&& token.expires_at == now + t.expires_in
                        &&& is_page_request(req, old(self).page().next_page->0@, token)
                        &&& *final(self) == (MSGraphFDW {
                            access_token: Some(token),
                            phase: ScanPhase::AwaitingNextPage,
                            ..*old(self)
                        })
                    }
                },
            },
    {
        let resp = match resp {
            Ok(t) => t,
            Err(e) => {
                self.phase = ScanPhase::Scanning;
                return Err(e);
            },
        };
        let token = match MSGraphAccessToken::from_response(resp, now) {
            Ok(t) => t,
            Err(e) => {
                self.phase = ScanPhase::Scanning;
                return Err(e);
            },
        };
        let req = match self.current_page.as_ref() {
            Some(page) => page.fetch_next(&token),
            None => Err(FdwError::NoContinuation),
        };
        match req {
            Ok(req) => {
                self.access_token = Some(token);
                self.phase = ScanPhase::AwaitingNextPage;
                Ok(req)
            },
            Err(e) => {
                self.phase = ScanPhase::Scanning;
                Err(e)
            },
        }
    }

    /// Takes the outcome of a continuation request. A page replaces the
    /// current one and the offset starts again at zero; on failure the scan
    /// stays at the end of its page.
    pub fn on_next_page(&mut self, page: Result<ODataResponsePage, FdwError>) -> (r: Result<
        (),
        FdwError,
    >)
        requires
            old(self).wf(),
            old(self).phase == ScanPhase::AwaitingNextPage,
        ensures
            final(self).wf(),
            match page {
                Err(e) => r == Err::<(), FdwError>(e) && *final(self) == old(self).in_phase(
                    ScanPhase::Scanning,
                ),
                Ok(p) => r is Ok && *final(self) == (MSGraphFDW {
                    current_page: Some(p),
                    page_offset: 0,
                    phase: ScanPhase::Scanning,
                    passed: Ghost(old(self).passed@ + old(self).records()),
                    ..*old(self)
                }),
            },
    {
        match page {
            Ok(p) => {
                let ghost left = self.records();
                assert(left.take(self.page_offset as int) =~= left);
                self.passed = Ghost(self.passed@ + left);
                self.current_page = Some(p);
                self.page_offset = 0;
                self.phase = ScanPhase::Scanning;
                assert(self.delivered@ =~= self.passed@ + self.records().take(0));
                Ok(())
            },
            Err(e) => {
                self.phase = ScanPhase::Scanning;
                Err(e)
            },
        }
    }

    /// Restarting a scan in place is not offered: end it and begin anew.
    pub fn re_scan(&self) -> (r: Result<(), FdwError>)
        ensures
            r == Err::<(), FdwError>(FdwError::UnsupportedOperation(Operation::ReScan)),
    {
        Err(FdwError::UnsupportedOperation(Operation::ReScan))
    }

    /// Ends the scan from any state: the page and the credential are dropped
    /// and the offset returns to zero, so that a new scan can begin.
    pub fn end_scan(&mut self)
        ensures
            *final(self) == old(self).ended(),
            final(self).wf(),
    {
        self.access_token = None;
        self.current_page = None;
        self.page_offset = 0;
        self.phase = ScanPhase::Idle;
        self.passed = Ghost(Seq::empty());
        self.delivered = Ghost(Seq::empty());
    }

    /// The connector is read-only: modification is refused.
    pub fn begin_modify(&self) -> (r: Result<(), FdwError>)
        ensures
            r == Err::<(), FdwError>(FdwError::UnsupportedOperation(Operation::Modify)),
    {
        Err(FdwError::UnsupportedOperation(Operation::Modify))
    }

    pub fn insert(&self) -> (r: Result<(), FdwError>)
        ensures
            r == Err::<(), FdwError>(FdwError::UnsupportedOperation(Operation::Modify)),
    {
        Err(FdwError::UnsupportedOperation(Operation::Modify))
    }

    pub fn update(&self) -> (r: Result<(), FdwError>)
        ensures
            r == Err::<(), FdwError>(FdwError::UnsupportedOperation(Operation::Modify)),
    {
        Err(FdwError::UnsupportedOperation(Operation::Modify))
    }

    pub fn delete(&self) -> (r: Result<(), FdwError>)
        ensures
            r == Err::<(), FdwError>(FdwError::UnsupportedOperation(Operation::Modify)),
    {
        Err(FdwError::UnsupportedOperation(Operation::Modify))
    }

    pub fn end_modify(&self) -> (r: Result<(), FdwError>)
        ensures
            r == Err::<(), FdwError>(FdwError::UnsupportedOperation(Operation::Modify)),
    {
        Err(FdwError::UnsupportedOperation(Operation::Modify))
    }
}

/// Rows come out in the order of the records across the concatenated pages:
/// what a scan has yielded is every record of the pages it has left behind,
/// then the records of the current page below the offset. At the end of a
/// page, and so once the scan is exhausted, every record of every page seen
/// has been yielded, in order.
pub proof fn rows_follow_page_order(s: MSGraphFDW)
    requires
        s.wf(),
        holds_page(s.phase),
    ensures
        s.delivered@ == s.passed@ + s.records().take(s.page_offset as int),
        s.delivered@.len() == s.passed@.len() + s.page_offset,
        s.at_page_end() ==> s.delivered@ == s.passed@ + s.records(),
        s.phase == ScanPhase::Exhausted ==> s.delivered@ == s.passed@ + s.records(),
{
    if s.at_page_end() {
        assert(s.records().take(s.page_offset as int) =~= s.records());
    }
}

/// Ending a scan twice leaves the same state as ending it once.
pub proof fn end_scan_idempotent(s: MSGraphFDW)
    ensures
        s.ended().ended() == s.ended(),
{
}

} // verus!
