use crate::command::Capability;
use crate::command::Command;
use std::marker::PhantomData;
use vstd::prelude::*;

verus! {

/// An HTTP request as the application core describes it to its shell.
#[derive(Clone, Debug, PartialEq, Eq)]
pub struct HttpRequest {
    pub method: String,
    pub url: String,
}

/// What the shell hands back for an `HttpRequest`.
#[derive(Clone, Debug, PartialEq, Eq)]
pub struct HttpResponse {
    pub status: u16,
    pub body: Vec<u8>,
}

impl HttpRequest {
    /// Whether this is the request with the given method and URL.
    pub open spec fn asks_for(self, method: Seq<char>, url: Seq<char>) -> bool {
        self.method@ == method && self.url@ == url
    }
}

/// The capability to ask for HTTP requests.
///
/// It holds the function that wraps a request into the effect type of the
/// application, and that function accepts every request.
#[verifier::reject_recursive_types(Ef)]
#[verifier::reject_recursive_types(MakeEffect)]
pub struct Http<Ef, MakeEffect: Fn(HttpRequest) -> Ef> {
    effect: MakeEffect,
    made: PhantomData<Ef>,
}

impl<Ef, MakeEffect: Fn(HttpRequest) -> Ef> Http<Ef, MakeEffect> {
    #[verifier::type_invariant]
    spec fn accepts_every_request(self) -> bool {
        forall|request: HttpRequest| call_requires(self.effect, (request,))
    }

    /// Whether wrapping `request` may give `effect`.
    pub closed spec fn wraps(self, request: HttpRequest, effect: Ef) -> bool {
        call_ensures(self.effect, (request,), effect)
    }

    /// The capability that wraps requests with `effect`.
    pub fn new(effect: MakeEffect) -> (http: Self) where MakeEffect: Sync + 'static
        requires
            forall|request: HttpRequest| call_requires(effect, (request,)),
        ensures
            forall|request: HttpRequest, made: Ef|
                http.wraps(request, made) <==> call_ensures(effect, (request,), made),
    {
        Http { effect, made: PhantomData }
    }

    /// A command for a `GET` of `url`, whose response goes to `callback`.
    pub fn get<Ev, F>(&self, url: &str, callback: F) -> (command: Command<Ef, F>) where
        Ev: 'static,
        F: Fn(HttpResponse) -> Ev + Send + Sync + 'static,

        ensures
            exists|request: HttpRequest|
                request.asks_for("GET"@, url@) && self.wraps(request, command.effect),
            command.resolve == callback,
    {
        self.request("GET", url, callback)
    }

    /// A command for the request with the given method and URL, whose response
    /// goes to `callback`.
    pub fn request<Ev, F>(&self, method: &str, url: &str, callback: F) -> (command: Command<
        Ef,
        F,
    >) where Ev: 'static, F: Fn(HttpResponse) -> Ev + Send + Sync + 'static
        ensures
            exists|request: HttpRequest|
                request.asks_for(method@, url@) && self.wraps(request, command.effect),
            command.resolve == callback,
    {
        proof {
            use_type_invariant(self);
        }
        let request = HttpRequest { method: method.to_owned(), url: url.to_owned() };
        assert(request.asks_for(method@, url@));
        let effect = (self.effect)(request);
        Command::new(effect, callback)
    }
}

impl<Ef: Clone, MakeEffect: Fn(HttpRequest) -> Ef> Capability for Http<Ef, MakeEffect> {

}

} // verus!
