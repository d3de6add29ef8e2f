//! The HTTP status codes and methods this service answers with.

use vstd::prelude::*;

verus! {

/// The status codes that can leave this service.
#[derive(Clone, Copy, Debug, PartialEq, Eq, Structural)]
pub enum StatusCode {
    /// 200
    Okay,
    /// 201
    Created,
    /// 400
    BadRequest,
    /// 401
    Unauthorized,
    /// 500
    InternalServerError,
}

impl StatusCode {
    /// The numeric code that goes on the wire.
    pub open spec fn code(self) -> int {
        match self {
            StatusCode::Okay => 200,
            StatusCode::Created => 201,
            StatusCode::BadRequest => 400,
            StatusCode::Unauthorized => 401,
            StatusCode::InternalServerError => 500,
        }
    }

    /// A 2xx code.
    pub open spec fn success(self) -> bool {
        200 <= self.code() < 300
    }

    /// A 4xx code: the client can correct the request.
    pub open spec fn client_error(self) -> bool {
        400 <= self.code() < 500
    }

    /// A 5xx code: the fault lies with the service or the store.
    pub open spec fn server_error(self) -> bool {
        500 <= self.code() < 600
    }

    pub fn as_u16(&self) -> (n: u16)
        ensures
            n as int == self.code(),
    {
        match self {
            StatusCode::Okay => 200,
            StatusCode::Created => 201,
            StatusCode::BadRequest => 400,
            StatusCode::Unauthorized => 401,
            StatusCode::InternalServerError => 500,
        }
    }

    pub fn is_success(&self) -> (b: bool)
        ensures
            b == self.success(),
    {
        let n: u16 = self.as_u16();
        200 <= n && n < 300
    }

    pub fn is_client_error(&self) -> (b: bool)
        ensures
            b == self.client_error(),
    {
        let n: u16 = self.as_u16();
        400 <= n && n < 500
    }

    pub fn is_server_error(&self) -> (b: bool)
        ensures
            b == self.server_error(),
    {
        let n: u16 = self.as_u16();
        500 <= n && n < 600
    }
}

/// The request methods that the service accepts.
#[derive(Clone, Copy, Debug, PartialEq, Eq, Structural)]
pub enum Method {
    Get,
    Post,
}

/// The endpoints of the service.
#[derive(Clone, Copy, Debug, PartialEq, Eq, Structural)]
pub enum Endpoint {
    Check,
    CreateProjects,
    GetProjects,
    UpdateProjects,
    DeleteProjects,
    CreateUsers,
}

impl Endpoint {
    /// The path under which the endpoint is served.
    pub open spec fn spec_path(self) -> Seq<char> {
        match self {
            Endpoint::Check => "/check"@,
            Endpoint::CreateProjects => "/create_projects"@,
            Endpoint::GetProjects => "/get_projects"@,
            Endpoint::UpdateProjects => "/update_projects"@,
            Endpoint::DeleteProjects => "/delete_projects"@,
            Endpoint::CreateUsers => "/create_users"@,
        }
    }

    /// The method by which the endpoint is called: the two that take a
    /// request body are posted to, the others are read.
    pub open spec fn spec_method(self) -> Method {
        match self {
            Endpoint::CreateProjects | Endpoint::CreateUsers => Method::Post,
            _ => Method::Get,
        }
    }

    /// The status under which the endpoint answers a success: 201 where
    /// records were created, and for a delete; 200 elsewhere.
    pub open spec fn spec_success_status(self) -> StatusCode {
        match self {
            Endpoint::Check | Endpoint::GetProjects | Endpoint::UpdateProjects => StatusCode::Okay,
            _ => StatusCode::Created,
        }
    }

    pub fn path(self) -> (p: &'static str)
        ensures
            p@ == self.spec_path(),
    {
        match self {
            Endpoint::Check => "/check",
            Endpoint::CreateProjects => "/create_projects",
            Endpoint::GetProjects => "/get_projects",
            Endpoint::UpdateProjects => "/update_projects",
            Endpoint::DeleteProjects => "/delete_projects",
            Endpoint::CreateUsers => "/create_users",
        }
    }

    #[verifier::when_used_as_spec(spec_method)]
    pub fn method(self) -> (m: Method)
        ensures
            m == self.spec_method(),
    {
        match self {
            Endpoint::CreateProjects | Endpoint::CreateUsers => Method::Post,
            _ => Method::Get,
        }
    }

    #[verifier::when_used_as_spec(spec_success_status)]
    pub fn success_status(self) -> (s: StatusCode)
        ensures
            s == self.spec_success_status(),
            s.success(),
    {
        match self {
            Endpoint::Check | Endpoint::GetProjects | Endpoint::UpdateProjects => StatusCode::Okay,
            _ => StatusCode::Created,
        }
    }
}

} // verus!
