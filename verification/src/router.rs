//! The router and middleware-chain executor: ordered handler chains
//! registered per (method, base path), resolved by exact lookup, and run in
//! order over one mutable context with fail-fast short-circuiting. The
//! whole execution of a chain is captured by the `chain_result` relation,
//! and `call_handler` is proved to satisfy it.
use crate::context::{
    extract_request_summary, spec_base_path, spec_method_of, spec_method_token, spec_path_token,
    spec_summary_valid, Context,
};
use crate::db::WGPDatabase;
use crate::http::{Method, Response, Status};
use crate::kv::KvList;
use vstd::prelude::*;

verus! {

/// One chain entry. `effect` is the entry's whole behaviour as a relation
/// between the store, the context and the response; `invoke` must realize
/// it. Chains are lists of values of one implementing type.
pub trait Handler: Sized {
    /// What invoking this handler may do.
    spec fn effect(
        &self,
        db0: WGPDatabase,
        ctx0: Context,
        db1: WGPDatabase,
        ctx1: Context,
        r: Response,
    ) -> bool;

    /// Runs the handler over the shared store and the request context.
    fn invoke(&self, db: &mut WGPDatabase, ctx: &mut Context) -> (r: Response)
        requires
            old(db).wf(),
            old(ctx).wf(),
        ensures
            final(db).wf(),
            final(ctx).wf(),
            self.effect(*old(db), *old(ctx), *final(db), *final(ctx), r),
    ;
}

/// The initial response of a chain: success with no body.
pub open spec fn resp_ok_none() -> Response {
    Response { status: Status::Okay, body: None }
}

/// How the executor steps the context after a successful handler: a present
/// body is stored into `response_body` for the handlers after it, byte for
/// byte; an absent one leaves the context alone.
pub open spec fn ctx_stepped(ctxm: Context, r: Response, ctx2: Context) -> bool {
    match r.body {
        Option::Some(b) => exists|bv: Vec<u8>|
            #![auto]
            bv@ == b@ && ctx2 == (Context { response_body: Some(bv), ..ctxm }),
        Option::None => ctx2 == ctxm,
    }
}

/// One executor step: the head handler's effect admits the transition, and
/// on success the context was stepped with the handler's body.
pub open spec fn step_rel<H: Handler>(
    h: H,
    db0: WGPDatabase,
    ctx0: Context,
    dbm: WGPDatabase,
    ctxm: Context,
    ctx2: Context,
    r: Response,
) -> bool {
    h.effect(db0, ctx0, dbm, ctxm, r) && (r.is_success() ==> ctx_stepped(ctxm, r, ctx2))
}

/// Executing `chain` from `(db0, ctx0)` with `prev` as the response so far
/// can end in `(db1, ctx1)` with final response `resp`: handlers run in
/// order; the first non-success response is final and nothing after it
/// runs; a successful handler's body is stored into the context; an
/// exhausted chain answers with the last handler's response.
pub open spec fn chain_result<H: Handler>(
    chain: Seq<H>,
    prev: Response,
    db0: WGPDatabase,
    ctx0: Context,
    db1: WGPDatabase,
    ctx1: Context,
    resp: Response,
) -> bool
    decreases chain.len(),
{
    if chain.len() == 0 {
        db1 == db0 && ctx1 == ctx0 && resp == prev
    } else {
        exists|dbm: WGPDatabase, ctxm: Context, ctx2: Context, r: Response|
            {
                &&& #[trigger] step_rel(chain[0], db0, ctx0, dbm, ctxm, ctx2, r)
                &&& if !r.is_success() {
                    db1 == dbm && ctx1 == ctxm && resp == r
                } else {
                    chain_result(chain.drop_first(), r, dbm, ctx2, db1, ctx1, resp)
                }
            }
    }
}

/// The router: one chain table per method, keyed by base path.
pub struct Router<H> {
    groups: Vec<String>,
    posts: KvList<Vec<H>>,
    gets: KvList<Vec<H>>,
    puts: KvList<Vec<H>>,
    deletes: KvList<Vec<H>>,
}

impl<H: Handler> Router<H> {
    /// The stored tables keep unique keys.
    pub closed spec fn wf(self) -> bool {
        self.posts.wf() && self.gets.wf() && self.puts.wf() && self.deletes.wf()
    }

    /// The chain table of a method; OPTIONS never consults a table.
    pub closed spec fn table(self, m: Method) -> Map<Seq<char>, Vec<H>> {
        match m {
            Method::Post => self.posts@,
            Method::Get => self.gets@,
            Method::Put => self.puts@,
            Method::Delete => self.deletes@,
            Method::Options => Map::empty(),
        }
    }

    /// An empty router.
    pub fn new() -> (r: Router<H>)
        ensures
            r.wf(),
            forall|m: Method| #[trigger] r.table(m) == Map::<Seq<char>, Vec<H>>::empty(),
            r.spec_groups() == Seq::<String>::empty(),
    {
        Router {
            groups: Vec::new(),
            posts: KvList::new(),
            gets: KvList::new(),
            puts: KvList::new(),
            deletes: KvList::new(),
        }
    }

    /// The registered group names.
    pub closed spec fn spec_groups(self) -> Seq<String> {
        self.groups@
    }

    /// Records a route-group name; kept for later use.
    pub fn group(&mut self, group: String)
        ensures
            final(self).spec_groups() == old(self).spec_groups().push(group),
            final(self).wf() == old(self).wf(),
            forall|m: Method| #[trigger] final(self).table(m) == old(self).table(m),
    {
        self.groups.push(group);
    }

    /// Registers a POST chain under the base path of `path` (any query
    /// suffix stripped), overwriting an earlier chain for that key.
    pub fn post(&mut self, path: String, handlers: Vec<H>)
        requires
            old(self).wf(),
            handlers@.len() > 0,
        ensures
            final(self).wf(),
            final(self).table(Method::Post) == old(self).table(Method::Post).insert(
                spec_base_path(path@),
                handlers,
            ),
            forall|m: Method|
                m != Method::Post ==> #[trigger] final(self).table(m) == old(self).table(m),
    {
        let key = crate::context::base_path_of(path.as_str());
        self.posts.set(key, handlers);
    }

    /// Registers a GET chain, as `post` does.
    pub fn get(&mut self, path: String, handlers: Vec<H>)
        requires
            old(self).wf(),
            handlers@.len() > 0,
        ensures
            final(self).wf(),
            final(self).table(Method::Get) == old(self).table(Method::Get).insert(
                spec_base_path(path@),
                handlers,
            ),
            forall|m: Method|
                m != Method::Get ==> #[trigger] final(self).table(m) == old(self).table(m),
    {
        let key = crate::context::base_path_of(path.as_str());
        self.gets.set(key, handlers);
    }

    /// Registers a PUT chain, as `post` does.
    pub fn put(&mut self, path: String, handlers: Vec<H>)
        requires
            old(self).wf(),
            handlers@.len() > 0,
        ensures
            final(self).wf(),
            final(self).table(Method::Put) == old(self).table(Method::Put).insert(
                spec_base_path(path@),
                handlers,
            ),
            forall|m: Method|
                m != Method::Put ==> #[trigger] final(self).table(m) == old(self).table(m),
    {
        let key = crate::context::base_path_of(path.as_str());
        self.puts.set(key, handlers);
    }

    /// Registers a DELETE chain, as `post` does.
    pub fn delete(&mut self, path: String, handlers: Vec<H>)
        requires
            old(self).wf(),
            handlers@.len() > 0,
        ensures
            final(self).wf(),
            final(self).table(Method::Delete) == old(self).table(Method::Delete).insert(
                spec_base_path(path@),
                handlers,
            ),
            forall|m: Method|
                m != Method::Delete ==> #[trigger] final(self).table(m) == old(self).table(m),
    {
        let key = crate::context::base_path_of(path.as_str());
        self.deletes.set(key, handlers);
    }

    /// Whether a chain is registered for `(method, path)`; OPTIONS is
    /// always answered without a table.
    pub fn contains(&self, method: Method, path: &String) -> (r: bool)
        requires
            self.wf(),
        ensures
            r == (method == Method::Options || self.table(method).contains_key(path@)),
    {
        match method {
            Method::Post => self.posts.contains_key(path),
            Method::Get => self.gets.contains_key(path),
            Method::Put => self.puts.contains_key(path),
            Method::Delete => self.deletes.contains_key(path),
            Method::Options => true,
        }
    }

    /// Exact lookup of the chain registered for `(method, path)`.
    fn get_handlers(&self, method: Method, path: &String) -> (r: Option<&Vec<H>>)
        requires
            self.wf(),
        ensures
            match r {
                Some(hs) => self.table(method).contains_key(path@) && *hs
                    == self.table(method)[path@],
                None => !self.table(method).contains_key(path@),
            },
    {
        match method {
            Method::Post => self.posts.get(path),
            Method::Get => self.gets.get(path),
            Method::Put => self.puts.get(path),
            Method::Delete => self.deletes.get(path),
            Method::Options => None,
        }
    }

    /// Validates a transport request summary before any body is read: a
    /// summary without two tokens or with an unknown method is "method not
    /// allowed"; a method and base path with no registered chain (OPTIONS
    /// aside) is "not found"; anything else may be dispatched.
    pub fn validate_summary(&self, summary: &str) -> (r: Status)
        requires
            self.wf(),
        ensures
            r == (if !spec_summary_valid(summary@) {
                Status::MethodNotAllowed
            } else {
                match spec_method_of(spec_method_token(summary@)) {
                    Option::None => Status::MethodNotAllowed,
                    Option::Some(m) => if m == Method::Options || self.table(m).contains_key(
                        spec_base_path(spec_path_token(summary@)),
                    ) {
                        Status::Okay
                    } else {
                        Status::NotFound
                    },
                }
            }),
    {
        match extract_request_summary(summary) {
            Err(_) => Status::MethodNotAllowed,
            Ok(rs) => {
                if self.contains(rs.method, &rs.path) {
                    Status::Okay
                } else {
                    Status::NotFound
                }
            },
        }
    }

    /// Dispatches one request: OPTIONS short-circuits to "no content"
    /// without consulting any table; an unresolvable route is "not found";
    /// otherwise the resolved chain runs with fail-fast short-circuiting,
    /// as `chain_result` describes.
    pub fn call_handler(&self, db: &mut WGPDatabase, ctx: &mut Context) -> (r: Response)
        requires
            self.wf(),
            old(db).wf(),
            old(ctx).wf(),
        ensures
            final(db).wf(),
            final(ctx).wf(),
            old(ctx).method == Method::Options ==> *final(db) == *old(db) && *final(ctx) == *old(
                ctx,
            ) && r.status == Status::NoContent && (r.body is None),
            old(ctx).method != Method::Options && !self.table(old(ctx).method).contains_key(
                old(ctx).path@,
            ) ==> *final(db) == *old(db) && *final(ctx) == *old(ctx) && r.status
                == Status::NotFound && (r.body is None),
            old(ctx).method != Method::Options && self.table(old(ctx).method).contains_key(
                old(ctx).path@,
            ) ==> chain_result(
                self.table(old(ctx).method)[old(ctx).path@]@,
                resp_ok_none(),
                *old(db),
                *old(ctx),
                *final(db),
                *final(ctx),
                r,
            ),
    {
        let method = ctx.method();
        if method == Method::Options {
            return Response::new(Status::NoContent, None);
        }
        let path = ctx.path.clone();
        let handlers = match self.get_handlers(method, &path) {
            Some(hs) => hs,
            None => {
                return Response::new(Status::NotFound, None);
            },
        };
        let ghost chain = handlers@;
        let mut response = Response::new(Status::Okay, None);
        let mut i: usize = 0;
        proof {
            assert(chain.skip(0) =~= chain);
        }
        while i < handlers.len()
            invariant
                i <= chain.len(),
                handlers@ == chain,
                db.wf(),
                ctx.wf(),
                old(ctx).method != Method::Options,
                self.table(old(ctx).method).contains_key(old(ctx).path@),
                chain == self.table(old(ctx).method)[old(ctx).path@]@,
                forall|fdb: WGPDatabase, fctx: Context, fr: Response|
                    chain_result(chain.skip(i as int), response, *db, *ctx, fdb, fctx, fr)
                        ==> #[trigger] chain_result(
                        chain,
                        resp_ok_none(),
                        *old(db),
                        *old(ctx),
                        fdb,
                        fctx,
                        fr,
                    ),
            decreases chain.len() - i,
        {
            let ghost db_b = *db;
            let ghost ctx_b = *ctx;
            let ghost resp_b = response;
            let r_i = handlers[i].invoke(db, ctx);
            let ghost db_m = *db;
            let ghost ctx_m = *ctx;
            proof {
                assert(chain.skip(i as int)[0] == chain[i as int]);
            }
            if !(r_i.status == Status::Okay) {
                proof {
                    assert(step_rel(
                        chain.skip(i as int)[0],
                        db_b,
                        ctx_b,
                        db_m,
                        ctx_m,
                        ctx_m,
                        r_i,
                    ));
                    assert(chain_result(chain.skip(i as int), resp_b, db_b, ctx_b, *db, *ctx, r_i));
                }
                return r_i;
            }
            match &r_i.body {
                Some(body) => {
                    let cloned = body.clone();
                    let ghost cl_g = cloned;
                    ctx.set_response_body(cloned);
                    proof {
                        assert(cl_g@ == r_i.body.unwrap()@);
                        assert(*ctx == (Context { response_body: Some(cl_g), ..ctx_m }));
                        assert(ctx_stepped(ctx_m, r_i, *ctx));
                    }
                },
                None => {
                    proof {
                        assert(ctx_stepped(ctx_m, r_i, *ctx));
                    }
                },
            }
            proof {
                assert(chain.skip(i as int).drop_first() =~= chain.skip(i + 1));
                assert forall|fdb: WGPDatabase, fctx: Context, fr: Response|
                    chain_result(chain.skip(i + 1), r_i, *db, *ctx, fdb, fctx, fr) implies #[trigger] chain_result(
                    chain,
                    resp_ok_none(),
                    *old(db),
                    *old(ctx),
                    fdb,
                    fctx,
                    fr,
                ) by {
                    assert(step_rel(chain.skip(i as int)[0], db_b, ctx_b, db_m, ctx_m, *ctx, r_i));
                    assert(chain_result(chain.skip(i as int), resp_b, db_b, ctx_b, fdb, fctx, fr));
                }
            }
            response = r_i;
            i += 1;
        }
        proof {
            assert(chain.skip(chain.len() as int) =~= Seq::<H>::empty());
            assert(chain_result(
                chain.skip(chain.len() as int),
                response,
                *db,
                *ctx,
                *db,
                *ctx,
                response,
            ));
        }
        response
    }
}

/// Law: registration strips the query suffix and resolution returns the
/// exact chain registered. Registering under `path` stores the chain under
/// `path`'s base path; looking that key up yields the chain; and stripping
/// is idempotent, so a path with a query suffix and its own base path
/// register and resolve identically.
pub proof fn lemma_register_resolve<H: Handler>(
    t: Map<Seq<char>, Vec<H>>,
    path: Seq<char>,
    chain: Vec<H>,
)
    ensures
        t.insert(spec_base_path(path), chain).contains_key(spec_base_path(path)),
        t.insert(spec_base_path(path), chain)[spec_base_path(path)] == chain,
        spec_base_path(spec_base_path(path)) == spec_base_path(path),
{
    let base = spec_base_path(path);
    crate::context::lemma_scan_len(path, '?', false);
    crate::context::lemma_scan_len_unique(base, '?', false, base.len() as int);
    assert(base.take(crate::context::scan_len(base, '?', false)) =~= base);
}

/// Law: a chain short-circuits. In a two-handler chain whose first handler
/// can only answer with a non-success status, the final store, context and
/// response come from that first handler alone: the second handler's
/// behaviour does not enter into the outcome at all.
pub proof fn lemma_chain_short_circuit<H: Handler>(
    h0: H,
    h1: H,
    prev: Response,
    db0: WGPDatabase,
    ctx0: Context,
    db1: WGPDatabase,
    ctx1: Context,
    resp: Response,
)
    requires
        chain_result(seq![h0, h1], prev, db0, ctx0, db1, ctx1, resp),
        forall|dbm: WGPDatabase, ctxm: Context, r: Response|
            #[trigger] h0.effect(db0, ctx0, dbm, ctxm, r) ==> !r.is_success(),
    ensures
        h0.effect(db0, ctx0, db1, ctx1, resp),
        !resp.is_success(),
{
    let chain = seq![h0, h1];
    assert(chain_result(chain, prev, db0, ctx0, db1, ctx1, resp));
    assert(chain.len() == 2);
    let (dbm, ctxm, ctx2, r) = choose|dbm: WGPDatabase, ctxm: Context, ctx2: Context, r: Response|
        {
            &&& #[trigger] step_rel(chain[0], db0, ctx0, dbm, ctxm, ctx2, r)
            &&& if !r.is_success() {
                db1 == dbm && ctx1 == ctxm && resp == r
            } else {
                chain_result(chain.drop_first(), r, dbm, ctx2, db1, ctx1, resp)
            }
        };
    assert(chain[0] == h0);
    assert(h0.effect(db0, ctx0, dbm, ctxm, r));
    assert(!r.is_success());
}

} // verus!
