use vstd::prelude::*;

verus! {

/// The route that reports the service identity and evaluates requests.
pub const ROOT_PATH: &'static str = "/";

/// What the `422` of `POST /` means.
pub const UNPROCESSABLE_DESCRIPTION: &'static str =
    "window out of range, or a dependency rejected an input (forwarded)";

/// What the `500` of `POST /` means.
pub const MALFORMED_DESCRIPTION: &'static str = "a dependency returned a malformed result";

/// What the `503` of `POST /` means.
pub const UNAVAILABLE_DESCRIPTION: &'static str = "a dependency is unavailable";

/// The schema of `GET /`'s body.
pub const INFO_SCHEMA: &'static str = "Info";

/// The schema of `POST /`'s request body.
pub const EVAL_REQUEST_SCHEMA: &'static str = "EvalRequest";

/// The schema of `POST /`'s `200` body.
pub const RESPONSE_SCHEMA: &'static str = "MovingAverageResponse";

/// One documented response of an operation: its status, what it means, and the
/// schema of its body where it has one.
pub struct ResponseDoc {
    pub status: u16,
    pub description: &'static str,
    pub schema: Option<&'static str>,
}

/// A documented operation: the schema of its request body, if any, and its
/// responses.
pub struct Operation {
    pub request_body: Option<&'static str>,
    pub responses: Vec<ResponseDoc>,
}

/// The operations documented on one path.
pub struct PathItem {
    pub get: Option<Operation>,
    pub post: Option<Operation>,
}

/// Documented paths, each with its operations.
pub struct PathsMap {
    entries: Vec<(&'static str, PathItem)>,
}

/// The paths part of the API document.
pub struct Paths {
    pub paths: PathsMap,
}

/// The service's API document.
pub struct OpenApi {
    pub paths: Paths,
    pub schemas: Vec<&'static str>,
}

/// The API document of the service.
pub struct ApiDoc;

/// The mathematical content of a [`ResponseDoc`].
pub struct ResponseDocView {
    pub status: u16,
    pub description: Seq<char>,
    pub schema: Option<Seq<char>>,
}

/// The mathematical content of an [`Operation`].
pub struct OperationView {
    pub request_body: Option<Seq<char>>,
    pub responses: Seq<ResponseDocView>,
}

/// The mathematical content of a [`PathItem`].
pub struct PathItemView {
    pub get: Option<OperationView>,
    pub post: Option<OperationView>,
}

/// The text of an optional string.
pub open spec fn str_option_view(s: Option<&'static str>) -> Option<Seq<char>> {
    match s {
        Some(s) => Some(s@),
        None => None,
    }
}

impl View for ResponseDoc {
    type V = ResponseDocView;

    open spec fn view(&self) -> ResponseDocView {
        ResponseDocView {
            status: self.status,
            description: self.description@,
            schema: str_option_view(self.schema),
        }
    }
}

impl View for Operation {
    type V = OperationView;

    open spec fn view(&self) -> OperationView {
        OperationView {
            request_body: str_option_view(self.request_body),
            responses: self.responses@.map_values(|r: ResponseDoc| r@),
        }
    }
}

/// The mathematical content of an optional operation.
pub open spec fn operation_option_view(op: Option<Operation>) -> Option<OperationView> {
    match op {
        Some(op) => Some(op@),
        None => None,
    }
}

impl View for PathItem {
    type V = PathItemView;

    open spec fn view(&self) -> PathItemView {
        PathItemView { get: operation_option_view(self.get), post: operation_option_view(self.post) }
    }
}

impl View for PathsMap {
    type V = Seq<(Seq<char>, PathItemView)>;

    closed spec fn view(&self) -> Seq<(Seq<char>, PathItemView)> {
        self.entries@.map_values(|e: (&'static str, PathItem)| (e.0@, e.1@))
    }
}

impl PathsMap {
    /// The operations documented on `path`: those of the first entry for it.
    pub fn get(&self, path: &str) -> (r: Option<&PathItem>)
        ensures
            match r {
                Some(item) => exists|i: int|
                    0 <= i < self@.len() && self@[i].0 == path@ && self@[i].1 == item@ && (forall|
                        j: int,
                    | 0 <= j < i ==> self@[j].0 != path@),
                None => forall|i: int| 0 <= i < self@.len() ==> self@[i].0 != path@,
            },
    {
        let wanted = path.to_owned();
        let mut i: usize = 0;
        while i < self.entries.len()
            invariant
                0 <= i <= self.entries@.len(),
                wanted@ == path@,
                forall|j: int| 0 <= j < i ==> self@[j].0 != path@,
            decreases self.entries@.len() - i,
        {
            let key = self.entries[i].0.to_owned();
            if key == wanted {
                let item = &self.entries[i].1;
                assert(self@[i as int].0 == path@ && self@[i as int].1 == item@);
                return Some(item);
            }
            i = i + 1;
        }
        None
    }
}

/// The responses of `GET /`.
pub open spec fn index_responses() -> Seq<ResponseDocView> {
    seq![ResponseDocView { status: 200, description: ""@, schema: Some(INFO_SCHEMA@) }]
}

/// The responses of `POST /`.
pub open spec fn evaluate_responses() -> Seq<ResponseDocView> {
    seq![
        ResponseDocView { status: 200, description: ""@, schema: Some(RESPONSE_SCHEMA@) },
        ResponseDocView { status: 422, description: UNPROCESSABLE_DESCRIPTION@, schema: None },
        ResponseDocView { status: 500, description: MALFORMED_DESCRIPTION@, schema: None },
        ResponseDocView { status: 503, description: UNAVAILABLE_DESCRIPTION@, schema: None },
    ]
}

/// The documented paths: `/`, with `GET` for the service identity and `POST`
/// for an evaluation.
pub open spec fn documented_paths() -> Seq<(Seq<char>, PathItemView)> {
    seq![
        (
            ROOT_PATH@,
            PathItemView {
                get: Some(OperationView { request_body: None, responses: index_responses() }),
                post: Some(
                    OperationView {
                        request_body: Some(EVAL_REQUEST_SCHEMA@),
                        responses: evaluate_responses(),
                    },
                ),
            },
        ),
    ]
}

impl ApiDoc {
    /// The API document: the paths and operations the service serves and the
    /// schemas of their bodies.
    pub fn openapi() -> (doc: OpenApi)
        ensures
            doc.paths.paths@ == documented_paths(),
            doc.paths.paths@.len() == 1,
            doc.paths.paths@[0].0 == ROOT_PATH@,
            doc.paths.paths@[0].1.get matches Some(op) && op.request_body is None
                && op.responses.len() == 1 && op.responses[0].status == 200
                && op.responses[0].schema == Some(INFO_SCHEMA@),
            doc.paths.paths@[0].1.post matches Some(op) && op.request_body == Some(
                EVAL_REQUEST_SCHEMA@,
            ) && op.responses.len() == 4 && op.responses[0].status == 200
                && op.responses[0].schema == Some(RESPONSE_SCHEMA@)
                && op.responses[1].status == 422 && op.responses[1].schema is None
                && op.responses[1].description == UNPROCESSABLE_DESCRIPTION@
                && op.responses[2].status == 500 && op.responses[2].schema is None
                && op.responses[2].description == MALFORMED_DESCRIPTION@
                && op.responses[3].status == 503 && op.responses[3].schema is None
                && op.responses[3].description == UNAVAILABLE_DESCRIPTION@,
            doc.schemas@.map_values(|s: &'static str| s@) == seq![
                INFO_SCHEMA@,
                EVAL_REQUEST_SCHEMA@,
                RESPONSE_SCHEMA@,
            ],
    {
        let mut get_responses: Vec<ResponseDoc> = Vec::new();
        get_responses.push(ResponseDoc { status: 200, description: "", schema: Some(INFO_SCHEMA) });
        let mut post_responses: Vec<ResponseDoc> = Vec::new();
        post_responses.push(
            ResponseDoc { status: 200, description: "", schema: Some(RESPONSE_SCHEMA) },
        );
        post_responses.push(
            ResponseDoc { status: 422, description: UNPROCESSABLE_DESCRIPTION, schema: None },
        );
        post_responses.push(
            ResponseDoc { status: 500, description: MALFORMED_DESCRIPTION, schema: None },
        );
        post_responses.push(
            ResponseDoc { status: 503, description: UNAVAILABLE_DESCRIPTION, schema: None },
        );
        let root = PathItem {
            get: Some(Operation { request_body: None, responses: get_responses }),
            post: Some(
                Operation { request_body: Some(EVAL_REQUEST_SCHEMA), responses: post_responses },
            ),
        };
        let mut entries: Vec<(&'static str, PathItem)> = Vec::new();
        entries.push((ROOT_PATH, root));
        let mut schemas: Vec<&'static str> = Vec::new();
        schemas.push(INFO_SCHEMA);
        schemas.push(EVAL_REQUEST_SCHEMA);
        schemas.push(RESPONSE_SCHEMA);
        let doc = OpenApi { paths: Paths { paths: PathsMap { entries } }, schemas };
        assert(doc.paths.paths@ =~= documented_paths()) by {
            assert(doc.paths.paths@[0].1.get.unwrap().responses =~= index_responses());
            assert(doc.paths.paths@[0].1.post.unwrap().responses =~= evaluate_responses());
        }
        assert(doc.schemas@.map_values(|s: &'static str| s@) =~= seq![
            INFO_SCHEMA@,
            EVAL_REQUEST_SCHEMA@,
            RESPONSE_SCHEMA@,
        ]);
        doc
    }
}

/// In the API document, `POST /` answers `200`, `422`, `500` and `503`; only
/// its `200` response has a body schema, and that schema is
/// `MovingAverageResponse`: its error responses are described without a body.
/// `GET /` answers only `200`, with an `Info` body.
pub proof fn law_only_success_responses_have_bodies()
    ensures
        documented_paths().len() == 1,
        documented_paths()[0].1.post matches Some(op) && op.responses.len() == 4 && (forall|i: int|
            0 <= i < 4 ==> (#[trigger] op.responses[i].schema is Some <==> op.responses[i].status
                == 200)) && (forall|i: int|
            0 <= i < 4 && #[trigger] op.responses[i].status == 200 ==> op.responses[i].schema
                == Some(RESPONSE_SCHEMA@)) && op.responses[0].status == 200
            && op.responses[1].status == 422 && op.responses[2].status == 500
            && op.responses[3].status == 503,
        documented_paths()[0].1.get matches Some(op) && op.responses.len() == 1
            && op.responses[0].status == 200 && op.responses[0].schema == Some(INFO_SCHEMA@),
{
    let post = evaluate_responses();
    assert(post[0].status == 200 && post[1].status == 422);
    assert(post[2].status == 500 && post[3].status == 503);
}

} // verus!
