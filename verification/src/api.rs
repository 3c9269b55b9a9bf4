use vstd::prelude::*;
pub use crate::api_doc::ApiDoc;

verus! {

/// The service's name.
pub const SERVICE: &'static str = "srvcs-movingaverage";

/// What the service computes.
pub const CONCERN: &'static str = "statistics: moving (sliding-window) average";

/// The dependency that sums a list of values.
pub const SUM_DEPENDENCY: &'static str = "srvcs-sum";

/// The dependency that divides one number by another.
pub const FLOATDIVIDE_DEPENDENCY: &'static str = "srvcs-floatdivide";

/// Dependency endpoints, handed to the request handlers so that tests can point
/// them at mock services.
#[derive(Clone)]
pub struct Deps {
    pub sum_url: String,
    pub floatdivide_url: String,
}

/// The service identity reported by `GET /`.
pub struct Info {
    pub service: &'static str,
    pub concern: &'static str,
    pub depends_on: Vec<&'static str>,
}

/// `GET /`: the service identity, naming every dependency in the order the
/// service calls them.
pub fn index() -> (info: Info)
    ensures
        info.service@ == SERVICE@,
        info.concern@ == CONCERN@,
        info.depends_on@.len() == 2,
        info.depends_on@[0]@ == SUM_DEPENDENCY@,
        info.depends_on@[1]@ == FLOATDIVIDE_DEPENDENCY@,
{
    let mut depends_on: Vec<&'static str> = Vec::new();
    depends_on.push(SUM_DEPENDENCY);
    depends_on.push(FLOATDIVIDE_DEPENDENCY);
    Info { service: SERVICE, concern: CONCERN, depends_on }
}

} // verus!
