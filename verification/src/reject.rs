//! The error taxonomy at the operation boundary, and helpers that turn the
//! store's empty or failed outcomes into it. Turning one of these values
//! into an actual HTTP response is left to the program around the library.

use vstd::prelude::*;

verus! {

/// A request outcome that is not a success, with its HTTP-equivalent
/// status.
#[derive(Debug, PartialEq, Eq)]
pub enum FiliteRejection {
    BadRequest(String),
    Unauthorized(String),
    NotFound,
    Conflict,
    InternalServerError,
}

impl FiliteRejection {
    /// The HTTP-equivalent status code of this rejection.
    pub open spec fn spec_status_code(&self) -> u16 {
        match self {
            FiliteRejection::BadRequest(_) => 400,
            FiliteRejection::Unauthorized(_) => 401,
            FiliteRejection::NotFound => 404,
            FiliteRejection::Conflict => 409,
            FiliteRejection::InternalServerError => 500,
        }
    }

    /// The body text carried to the client.
    pub open spec fn spec_message(&self) -> Seq<char> {
        match self {
            FiliteRejection::BadRequest(reply) => reply@,
            FiliteRejection::Unauthorized(reply) => reply@,
            FiliteRejection::NotFound => "Not Found"@,
            FiliteRejection::Conflict => "Conflict"@,
            FiliteRejection::InternalServerError => "Internal Server Error"@,
        }
    }

    /// The HTTP-equivalent status code of this rejection.
    pub fn status_code(&self) -> (c: u16)
        ensures
            c == self.spec_status_code(),
    {
        match self {
            FiliteRejection::BadRequest(_) => 400,
            FiliteRejection::Unauthorized(_) => 401,
            FiliteRejection::NotFound => 404,
            FiliteRejection::Conflict => 409,
            FiliteRejection::InternalServerError => 500,
        }
    }

    /// The body text carried to the client.
    pub fn message(&self) -> (m: String)
        ensures
            m@ == self.spec_message(),
    {
        match self {
            FiliteRejection::BadRequest(reply) => reply.clone(),
            FiliteRejection::Unauthorized(reply) => reply.clone(),
            FiliteRejection::NotFound => "Not Found".to_owned(),
            FiliteRejection::Conflict => "Conflict".to_owned(),
            FiliteRejection::InternalServerError => "Internal Server Error".to_owned(),
        }
    }

    /// Whether the response must carry a `WWW-Authenticate` challenge.
    pub fn requires_challenge(&self) -> (r: bool)
        ensures
            r == (self matches FiliteRejection::Unauthorized(_)),
    {
        match self {
            FiliteRejection::Unauthorized(_) => true,
            _ => false,
        }
    }
}

/// A 400-equivalent rejection with the given reply.
pub fn bad_request(reply: String) -> (r: FiliteRejection)
    ensures
        r == FiliteRejection::BadRequest(reply),
{
    FiliteRejection::BadRequest(reply)
}

/// A 401-equivalent rejection with the given reply.
pub fn unauthorized(reply: String) -> (r: FiliteRejection)
    ensures
        r == FiliteRejection::Unauthorized(reply),
{
    FiliteRejection::Unauthorized(reply)
}

/// Turns empty or failed outcomes into rejections of the taxonomy above.
pub trait TryExt<T>: Sized {
    fn or_404(self) -> Result<T, FiliteRejection>;

    fn or_409(self) -> Result<T, FiliteRejection>;

    fn or_500(self) -> Result<T, FiliteRejection>;

    fn or_bad_request(self, reply: String) -> Result<T, FiliteRejection>;

    fn or_unauthorized(self, reply: String) -> Result<T, FiliteRejection>;
}

impl<T> TryExt<T> for Option<T> {
    /// An empty outcome is reported as 404.
    fn or_404(self) -> (r: Result<T, FiliteRejection>)
        ensures
            self matches Some(t) ==> r == Ok::<T, FiliteRejection>(t),
            self is None ==> r == Err::<T, FiliteRejection>(FiliteRejection::NotFound),
    {
        match self {
            Some(t) => Ok(t),
            None => Err(FiliteRejection::NotFound),
        }
    }

    /// An empty outcome is reported as 409.
    fn or_409(self) -> (r: Result<T, FiliteRejection>)
        ensures
            self matches Some(t) ==> r == Ok::<T, FiliteRejection>(t),
            self is None ==> r == Err::<T, FiliteRejection>(FiliteRejection::Conflict),
    {
        match self {
            Some(t) => Ok(t),
            None => Err(FiliteRejection::Conflict),
        }
    }

    /// An empty outcome is reported as 500.
    fn or_500(self) -> (r: Result<T, FiliteRejection>)
        ensures
            self matches Some(t) ==> r == Ok::<T, FiliteRejection>(t),
            self is None ==> r == Err::<T, FiliteRejection>(FiliteRejection::InternalServerError),
    {
        match self {
            Some(t) => Ok(t),
            None => Err(FiliteRejection::InternalServerError),
        }
    }

    /// An empty outcome is reported as 400 with the given reply.
    fn or_bad_request(self, reply: String) -> (r: Result<T, FiliteRejection>)
        ensures
            self matches Some(t) ==> r == Ok::<T, FiliteRejection>(t),
            self is None ==> r == Err::<T, FiliteRejection>(
                FiliteRejection::BadRequest(reply),
            ),
    {
        match self {
            Some(t) => Ok(t),
            None => Err(FiliteRejection::BadRequest(reply)),
        }
    }

    /// An empty outcome is reported as 401 with the given reply.
    fn or_unauthorized(self, reply: String) -> (r: Result<T, FiliteRejection>)
        ensures
            self matches Some(t) ==> r == Ok::<T, FiliteRejection>(t),
            self is None ==> r == Err::<T, FiliteRejection>(
                FiliteRejection::Unauthorized(reply),
            ),
    {
        match self {
            Some(t) => Ok(t),
            None => Err(FiliteRejection::Unauthorized(reply)),
        }
    }
}

impl<T, E> TryExt<T> for Result<T, E> {
    /// A failed outcome is reported as 404; its cause is dropped.
    fn or_404(self) -> (r: Result<T, FiliteRejection>)
        ensures
            self matches Ok(t) ==> r == Ok::<T, FiliteRejection>(t),
            self is Err ==> r == Err::<T, FiliteRejection>(FiliteRejection::NotFound),
    {
        match self {
            Ok(t) => Ok(t),
            Err(_) => Err(FiliteRejection::NotFound),
        }
    }

    /// A failed outcome is reported as 409; its cause is dropped.
    fn or_409(self) -> (r: Result<T, FiliteRejection>)
        ensures
            self matches Ok(t) ==> r == Ok::<T, FiliteRejection>(t),
            self is Err ==> r == Err::<T, FiliteRejection>(FiliteRejection::Conflict),
    {
        match self {
            Ok(t) => Ok(t),
            Err(_) => Err(FiliteRejection::Conflict),
        }
    }

    /// A failed outcome is reported as 500; its cause is dropped.
    fn or_500(self) -> (r: Result<T, FiliteRejection>)
        ensures
            self matches Ok(t) ==> r == Ok::<T, FiliteRejection>(t),
            self is Err ==> r == Err::<T, FiliteRejection>(FiliteRejection::InternalServerError),
    {
        match self {
            Ok(t) => Ok(t),
            Err(_) => Err(FiliteRejection::InternalServerError),
        }
    }

    /// A failed outcome is reported as 400 with the given reply.
    fn or_bad_request(self, reply: String) -> (r: Result<T, FiliteRejection>)
        ensures
            self matches Ok(t) ==> r == Ok::<T, FiliteRejection>(t),
            self is Err ==> r == Err::<T, FiliteRejection>(
                FiliteRejection::BadRequest(reply),
            ),
    {
        match self {
            Ok(t) => Ok(t),
            Err(_) => Err(FiliteRejection::BadRequest(reply)),
        }
    }

    /// A failed outcome is reported as 401 with the given reply.
    fn or_unauthorized(self, reply: String) -> (r: Result<T, FiliteRejection>)
        ensures
            self matches Ok(t) ==> r == Ok::<T, FiliteRejection>(t),
            self is Err ==> r == Err::<T, FiliteRejection>(
                FiliteRejection::Unauthorized(reply),
            ),
    {
        match self {
            Ok(t) => Ok(t),
            Err(_) => Err(FiliteRejection::Unauthorized(reply)),
        }
    }
}

} // verus!
