use vstd::prelude::*;
use vstd::string::*;

use crate::decimal::{append_decimal, spec_decimal};

verus! {

/// A connection to a remote q process, known by the positive socket handle
/// that the connect call returned. The socket itself is opened, used and
/// closed by the caller's I/O layer; this type holds the decisions around it.
pub struct IpcClient {
    handle: i32,
}

impl IpcClient {
    #[verifier::type_invariant]
    spec fn handle_is_open(self) -> bool {
        self.handle > 0
    }
}

impl View for IpcClient {
    type V = i32;

    /// The socket handle of the connection.
    closed spec fn view(&self) -> i32 {
        self.handle
    }
}

/// The error text of a refused connection: the prefix of the connect variant,
/// followed by the code that the connect call returned.
pub open spec fn spec_refusal(prefix: Seq<char>, h: int) -> Seq<char> {
    prefix + spec_decimal(h)
}

/// What a connect variant answers when the connect call returned `h`: a
/// client on `h` when it is a positive handle, else the error text made of
/// `prefix` and `h`.
pub open spec fn spec_accept(prefix: Seq<char>, h: i32, r: Result<IpcClient, String>) -> bool {
    &&& (r is Ok <==> h > 0)
    &&& (r matches Ok(c) ==> c@ == h)
    &&& (r matches Err(e) ==> e@ == spec_refusal(prefix, h as int))
}

fn accept_handle(h: i32, prefix: &str) -> (r: Result<IpcClient, String>)
    ensures
        spec_accept(prefix@, h, r),
{
    if h <= 0 {
        let mut msg = String::from_str(prefix);
        append_decimal(&mut msg, h as i64);
        Err(msg)
    } else {
        Ok(IpcClient { handle: h })
    }
}

impl IpcClient {
    /// The socket handle of this connection; it is always positive.
    pub fn handle(&self) -> (h: i32)
        ensures
            h == self@,
            h > 0,
    {
        proof {
            use_type_invariant(self);
        }
        self.handle
    }

    /// Accepts or refuses the handle `h` that a plain connect (`khp`) returned.
    pub fn connect(h: i32) -> (r: Result<IpcClient, String>)
        ensures
            spec_accept("Connection failed, code: "@, h, r),
    {
        accept_handle(h, "Connection failed, code: ")
    }

    /// Accepts or refuses the handle `h` that a connect with credentials
    /// (`khpu`) returned.
    pub fn connect_with_creds(h: i32) -> (r: Result<IpcClient, String>)
        ensures
            spec_accept("Connection failed with credentials, code: "@, h, r),
    {
        accept_handle(h, "Connection failed with credentials, code: ")
    }

    /// Accepts or refuses the handle `h` that a connect with credentials and
    /// a timeout (`khpun`) returned.
    pub fn connect_with_timeout(h: i32) -> (r: Result<IpcClient, String>)
        ensures
            spec_accept("Connection failed with timeout, code: "@, h, r),
    {
        accept_handle(h, "Connection failed with timeout, code: ")
    }

    /// Accepts or refuses the handle `h` that a connect with credentials, a
    /// timeout and a capability flag (`khpunc`) returned.
    pub fn connect_with_capability(h: i32) -> (r: Result<IpcClient, String>)
        ensures
            spec_accept("Connection failed with capability settings, code: "@, h, r),
    {
        accept_handle(h, "Connection failed with capability settings, code: ")
    }

    /// Whether dropping this client closes its socket (`kclose`): it does
    /// whenever the handle is positive, which every client's is.
    pub fn closes_on_drop(&self) -> (b: bool)
        ensures
            b == (self@ > 0),
            b,
    {
        proof {
            use_type_invariant(self);
        }
        self.handle > 0
    }
}

/// How a query with a given number of arguments is sent.
#[derive(Copy, Clone, Debug, PartialEq, Eq)]
pub enum QueryRoute {
    /// `k(h, q, (K)0)`: no argument.
    Arity0,
    /// `k(h, q, x, (K)0)`: one argument.
    Arity1,
    /// `k(h, q, x, y, (K)0)`: two arguments.
    Arity2,
    /// `k(h, q, x, y, z, (K)0)`: three arguments.
    Arity3,
    /// The arguments are packed, in order, into a mixed list of this length,
    /// and the query text and that list are sent to `dot_apply_query()`.
    Packed(i64),
}

/// The route of a query with `n` arguments: direct for up to three, packed
/// into a mixed list for more.
pub open spec fn spec_query_route(n: nat) -> QueryRoute {
    if n == 0 {
        QueryRoute::Arity0
    } else if n == 1 {
        QueryRoute::Arity1
    } else if n == 2 {
        QueryRoute::Arity2
    } else if n == 3 {
        QueryRoute::Arity3
    } else {
        QueryRoute::Packed(n as i64)
    }
}

/// The route of a query with `n` arguments.
pub fn query_route(n: usize) -> (r: QueryRoute)
    requires
        n <= i64::MAX,
    ensures
        r == spec_query_route(n as nat),
{
    match n {
        0 => QueryRoute::Arity0,
        1 => QueryRoute::Arity1,
        2 => QueryRoute::Arity2,
        3 => QueryRoute::Arity3,
        _ => QueryRoute::Packed(n as i64),
    }
}

/// The number of arguments that a route sends.
pub open spec fn route_arity(r: QueryRoute) -> int {
    match r {
        QueryRoute::Arity0 => 0,
        QueryRoute::Arity1 => 1,
        QueryRoute::Arity2 => 2,
        QueryRoute::Arity3 => 3,
        QueryRoute::Packed(m) => m as int,
    }
}

/// A query sends every argument it is given and no other: the route of `n`
/// arguments carries exactly `n`, and it packs them into a list exactly when
/// there are more than three.
pub proof fn lemma_route_keeps_arguments(n: nat)
    requires
        n <= i64::MAX,
    ensures
        route_arity(spec_query_route(n)) == n,
        spec_query_route(n) is Packed <==> n > 3,
{
}

/// The remote lambda that applies a query text, given as a char vector, to a
/// packed argument list with the dot operator.
pub fn dot_apply_query() -> (q: &'static str)
    ensures
        q@ == "{(value x) . y}"@,
{
    "{(value x) . y}"
}

} // verus!
