use vstd::prelude::*;
use crate::config::{trigger_path_of, UpdateHookConfig};
use crate::text::same_text;

verus! {

/// The body of every response, whatever became of the request.
pub const NOT_FOUND_BODY: &'static str = "Not Found";

/// What to do with a request.
#[derive(Clone, Copy, Debug, PartialEq, Eq, Structural)]
pub enum Route {
    /// A delivery: decode it and run the matching projects.
    Dispatch,
    /// Anything else: answer with the fixed body.
    NotFound,
}

/// The method that deliveries use.
pub open spec fn post_method() -> Seq<char> {
    seq!['P', 'O', 'S', 'T']
}

/// A request is a delivery when it is a POST on the trigger path.
pub open spec fn is_delivery(method: Seq<char>, path: Seq<char>, trigger: Seq<char>) -> bool {
    method == post_method() && path == trigger
}

/// Routes a request by its method and path: a POST on the configured trigger
/// path goes to the dispatcher, anything else gets the fixed body.
pub fn route(config: &UpdateHookConfig, method: &str, path: &str) -> (r: Route)
    ensures
        r == (if is_delivery(method@, path@, trigger_path_of(config.path)) {
            Route::Dispatch
        } else {
            Route::NotFound
        }),
{
    proof {
        reveal_strlit("POST");
    }
    let post = "POST";
    assert(post@ == post_method());
    if same_text(method, post) && same_text(path, config.trigger_path()) {
        Route::Dispatch
    } else {
        Route::NotFound
    }
}

} // verus!
