//! The envelope that a successful answer is wrapped in.

use vstd::prelude::*;

verus! {

/// HTTP status of a plain success.
pub const STATUS_OK: u16 = 200;

/// HTTP status of a success that created something.
pub const STATUS_CREATED: u16 = 201;

/// Where a page lies within everything that matched.
#[derive(Debug, Clone, Copy, PartialEq, Eq, Structural)]
pub struct ResponsePagination {
    /// How many entries matched in all, whatever the window.
    pub count: u64,
    pub offset: u64,
    pub limit: u64,
}

/// A successful answer: the payload, the status it is sent with, and, for a
/// page of results, where the page lies.
#[derive(Debug, Clone, PartialEq, Eq)]
pub struct CustomResponse<T> {
    pub success: bool,
    pub status_code: u16,
    pub body: Option<T>,
    pub pagination: Option<ResponsePagination>,
}

/// Collects the parts of a [`CustomResponse`].
#[derive(Debug, Clone, PartialEq, Eq)]
pub struct CustomResponseBuilder<T> {
    pub status_code: u16,
    pub body: Option<T>,
    pub pagination: Option<ResponsePagination>,
}

impl ResponsePagination {
    /// Whether entries that matched lie beyond this page.
    pub open spec fn more_follows(self) -> bool {
        self.offset + self.limit < self.count
    }

    /// Tells whether entries that matched lie beyond this page.
    pub fn has_more(&self) -> (more: bool)
        ensures
            more == self.more_follows(),
    {
        self.offset < self.count && self.limit < self.count - self.offset
    }
}

impl<T> CustomResponseBuilder<T> {
    /// A builder for an answer with status 200, no payload and no paging
    /// block.
    pub fn new() -> (builder: Self)
        ensures
            builder.status_code == STATUS_OK,
            builder.body is None,
            builder.pagination is None,
    {
        CustomResponseBuilder { status_code: STATUS_OK, body: None, pagination: None }
    }

    pub fn body(self, body: T) -> (builder: Self)
        ensures
            builder.body == Some(body),
            builder.status_code == self.status_code,
            builder.pagination == self.pagination,
    {
        CustomResponseBuilder {
            status_code: self.status_code,
            body: Some(body),
            pagination: self.pagination,
        }
    }

    pub fn status_code(self, status_code: u16) -> (builder: Self)
        ensures
            builder.status_code == status_code,
            builder.body == self.body,
            builder.pagination == self.pagination,
    {
        CustomResponseBuilder { status_code, body: self.body, pagination: self.pagination }
    }

    pub fn pagination(self, pagination: ResponsePagination) -> (builder: Self)
        ensures
            builder.pagination == Some(pagination),
            builder.status_code == self.status_code,
            builder.body == self.body,
    {
        CustomResponseBuilder {
            status_code: self.status_code,
            body: self.body,
            pagination: Some(pagination),
        }
    }

    /// The answer, marked as a success.
    pub fn build(self) -> (response: CustomResponse<T>)
        ensures
            response.success,
            response.status_code == self.status_code,
            response.body == self.body,
            response.pagination == self.pagination,
    {
        CustomResponse {
            success: true,
            status_code: self.status_code,
            body: self.body,
            pagination: self.pagination,
        }
    }
}

} // verus!
