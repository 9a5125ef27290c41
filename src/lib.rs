//! A read-only connector that exposes a paginated OData collection as a stream
//! of typed rows: credential handling, page cursor, row projection and the scan
//! state machine that ties them together.

pub mod credential;
pub mod error;
pub mod json;
pub mod page;
pub mod projector;
pub mod request;
pub mod scan;

pub use error::{FdwError, Operation};
pub use json::{Json, JsonValue};
pub use projector::{project, Cell, ColumnRequest, ColumnType};
pub use credential::{
    token_request, EntraIDTokenResponse, MSGraphAccessToken, MSGraphCredentials, EXPIRY_MARGIN,
};
pub use request::{HttpMethod, HttpRequest};
pub use page::ODataResponsePage;
pub use scan::{end_scan_idempotent, rows_follow_page_order, MSGraphFDW, ScanPhase, ScanStep};
