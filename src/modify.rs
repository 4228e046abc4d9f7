use vstd::prelude::*;

verus! {

/// Declares http's request type, carried opaque through verified code.
#[verifier::external_type_specification]
#[verifier::external_body]
#[verifier::reject_recursive_types(T)]
pub struct ExRequest<T>(http::Request<T>);

/// Declares http's request head (method, uri, version, headers, extensions).
#[verifier::external_type_specification]
#[verifier::external_body]
pub struct ExParts(http::request::Parts);

/// Relies on http's `Request::into_parts`, which splits a request into its head
/// and its body and moves both out.
pub assume_specification<T>[ http::Request::<T>::into_parts ](
    self_: http::Request<T>,
) -> (http::request::Parts, T);

/// Relies on http's `Request::from_parts`, which builds a request from a head
/// and a body.
pub assume_specification<T>[ http::Request::<T>::from_parts ](
    parts: http::request::Parts,
    body: T,
) -> http::Request<T>;

/// Modify a received request.
pub trait Modify {
    /// Whether one run of the hook, starting from hook state `self` and the
    /// body-less request `before`, may leave hook state `next` and request
    /// `after`. A hook that does not say promises nothing of the rewrite.
    open spec fn rewrites(&self, next: &Self, before: http::Request<()>, after: http::Request<()>) -> bool {
        true
    }

    /// Modify a request before calling the service. The body is not visible
    /// here: only the method, uri, headers and extensions.
    fn modify(&mut self, request: &mut http::Request<()>)
        ensures
            old(self).rewrites(&*final(self), *old(request), *final(request)),
    ;
}

/// The hook that leaves every request as it is.
impl Modify for () {
    open spec fn rewrites(&self, next: &Self, before: http::Request<()>, after: http::Request<()>) -> bool {
        before == after
    }

    fn modify(&mut self, request: &mut http::Request<()>) {
    }
}

/// Runs the hook once on the head of `request`, with the body set aside,
/// and puts the request's own body back: the hook's state afterwards is one
/// that a single rewrite may leave.
pub fn rewrite_request<B, F: Modify>(modify: &mut F, request: http::Request<B>) -> (r: http::Request<B>)
    ensures
        exists|before: http::Request<()>, after: http::Request<()>|
            #[trigger] old(modify).rewrites(&*final(modify), before, after),
{
    let (parts, body) = request.into_parts();
    let mut head = http::Request::from_parts(parts, ());
    let ghost hook = *modify;
    let ghost before = head;
    modify.modify(&mut head);
    assert(hook.rewrites(&*modify, before, head));
    let (parts, _) = head.into_parts();
    http::Request::from_parts(parts, body)
}

} // verus!
