use vstd::prelude::*;

verus! {

/// HTTP status of a reply.
#[derive(Clone, Copy, Debug, PartialEq, Eq, Structural)]
pub enum Status {
    Success,
    NotFound,
    InternalServerError,
}

impl Status {
    pub open spec fn spec_code(self) -> u16 {
        match self {
            Status::Success => 200,
            Status::NotFound => 404,
            Status::InternalServerError => 500,
        }
    }

    /// The numeric HTTP status code.
    pub fn code(&self) -> (r: u16)
        ensures
            r == self.spec_code(),
    {
        match self {
            Status::Success => 200,
            Status::NotFound => 404,
            Status::InternalServerError => 500,
        }
    }
}

/// The history of one domain over the window that starts at `t0`.
pub struct UptimeResponse<V> {
    pub domain: String,
    pub t0: u64,
    pub uptime_history: Vec<Option<V>>,
}

/// A human-readable failure.
pub struct ErrorResponse {
    pub message: String,
}

/// The reply body: either the history or an error, told apart by a tag.
pub enum Response<V> {
    Success(UptimeResponse<V>),
    Error(ErrorResponse),
}

impl<V> Response<V> {
    /// The tag that the body carries: `success` or `error`.
    pub fn status_tag(&self) -> (r: &'static str)
        ensures
            r@ == (if self is Success {
                "success"@
            } else {
                "error"@
            }),
    {
        match self {
            Response::Success(_) => "success",
            Response::Error(_) => "error",
        }
    }
}

/// `r` is an error whose message is `m`.
pub open spec fn is_error_with<V>(r: Response<V>, m: Seq<char>) -> bool {
    match r {
        Response::Error(e) => e.message@ == m,
        Response::Success(_) => false,
    }
}

/// `r` is a success for `domain`, with window start `t0` and history `h`.
pub open spec fn is_success_with<V>(
    r: Response<V>,
    domain: Seq<char>,
    t0: u64,
    h: Seq<Option<V>>,
) -> bool {
    match r {
        Response::Success(u) => u.domain@ == domain && u.t0 == t0 && u.uptime_history@ == h,
        Response::Error(_) => false,
    }
}

} // verus!
