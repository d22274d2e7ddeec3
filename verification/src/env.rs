//! Deployment environment, read from configuration at process start.

use vstd::prelude::*;
use crate::text::eq_ignore_ascii_case;
use crate::text::str_eq_ignore_ascii_case;

verus! {

/// The deployment environment the service was started in, as a plain string
/// such as `"prod"` or `"development"`.
#[derive(Debug, Clone)]
pub struct AppEnv {
    backend_env: String,
}

impl View for AppEnv {
    type V = Seq<char>;

    closed spec fn view(&self) -> Seq<char> {
        self.backend_env@
    }
}

/// An environment counts as production when its name is `"prod"`,
/// compared without regard to ASCII case.
pub open spec fn is_prod_env(env: Seq<char>) -> bool {
    str_eq_ignore_ascii_case(env, "prod"@)
}

impl AppEnv {
    pub fn new(backend_env: String) -> (r: Self)
        ensures
            r@ == backend_env@,
    {
        AppEnv { backend_env }
    }

    pub fn is_prod(&self) -> (r: bool)
        ensures
            r == is_prod_env(self@),
    {
        eq_ignore_ascii_case(self.backend_env.as_str(), "prod")
    }
}

} // verus!
