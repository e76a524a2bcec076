use crate::idgen::{generate, is_base62_char};
use crate::model::{FormData, InsertOutcome, LookupOutcome, ResolveError, Row, ShortenError, Url};
use crate::store::Store;
use vstd::prelude::*;
use vstd::string::StringExecFns;

verus! {

/// Number of characters of a short identifier.
pub const SHORTURL_LEN: usize = 4;

/// Retry budget of the shortening service: how many insert attempts may
/// hit a collision before the service gives up.
pub const MAX_RETRIES: u64 = 5;

/// What the shortening service decides after one insert attempt.
pub enum StepAction {
    /// The attempt succeeded: return this row at once, no further attempts.
    Accept(Url),
    /// Abort: surface this error to the caller.
    Fail(ShortenError),
    /// The identifier collided and budget remains: draw a fresh one.
    Retry,
}

/// The decision the retry policy takes after the `attempts_made`-th
/// insert attempt (counting from 1) came back with `outcome`: a success
/// is accepted at once; a non-conflict failure aborts at once and is
/// never retried; a conflict is retried until the budget is spent, and
/// then reported as `RetriesExhausted`.
pub open spec fn step_spec(outcome: InsertOutcome, attempts_made: int, budget: int) -> StepAction {
    match outcome {
        InsertOutcome::Inserted(u) => StepAction::Accept(u),
        InsertOutcome::Failure => StepAction::Fail(ShortenError::GatewayFailure),
        InsertOutcome::Conflict => if attempts_made < budget {
            StepAction::Retry
        } else {
            StepAction::Fail(ShortenError::RetriesExhausted)
        },
    }
}

/// One decision of the bounded collision-retry policy, exactly as
/// `step_spec` says.
pub fn shorten_step(outcome: InsertOutcome, attempts_made: u64, budget: u64) -> (a: StepAction)
    requires
        1 <= attempts_made <= budget,
    ensures
        a == step_spec(outcome, attempts_made as int, budget as int),
{
    match outcome {
        InsertOutcome::Inserted(u) => StepAction::Accept(u),
        InsertOutcome::Failure => StepAction::Fail(ShortenError::GatewayFailure),
        InsertOutcome::Conflict => {
            if attempts_made < budget {
                StepAction::Retry
            } else {
                StepAction::Fail(ShortenError::RetriesExhausted)
            }
        },
    }
}

/// The result of the retry loop when the gateway would answer the
/// successive insert attempts with `outcomes`, one entry per attempt
/// the budget allows.
pub open spec fn run_result(outcomes: Seq<InsertOutcome>) -> Result<Url, ShortenError>
    decreases outcomes.len(),
{
    if outcomes.len() == 0 {
        Err(ShortenError::RetriesExhausted)
    } else {
        match outcomes[0] {
            InsertOutcome::Inserted(u) => Ok(u),
            InsertOutcome::Failure => Err(ShortenError::GatewayFailure),
            InsertOutcome::Conflict => run_result(outcomes.drop_first()),
        }
    }
}

/// How many insert attempts (and so generator calls: one per attempt)
/// the retry loop makes when the gateway would answer with `outcomes`.
pub open spec fn run_attempts(outcomes: Seq<InsertOutcome>) -> int
    decreases outcomes.len(),
{
    if outcomes.len() == 0 {
        0
    } else {
        match outcomes[0] {
            InsertOutcome::Inserted(u) => 1,
            InsertOutcome::Failure => 1,
            InsertOutcome::Conflict => 1 + run_attempts(outcomes.drop_first()),
        }
    }
}

/// Law: a gateway that answers `Conflict` to every attempt makes the
/// shortening service report `RetriesExhausted` after exactly the
/// budgeted number of attempts — one generator call and one insert per
/// attempt, and no row created.
pub proof fn lemma_conflicts_exhaust_budget(outcomes: Seq<InsertOutcome>)
    requires
        forall|i: int| 0 <= i < outcomes.len() ==> (#[trigger] outcomes[i]) is Conflict,
    ensures
        run_result(outcomes) == Err::<Url, ShortenError>(ShortenError::RetriesExhausted),
        run_attempts(outcomes) == outcomes.len(),
    decreases outcomes.len(),
{
    if outcomes.len() > 0 {
        let rest = outcomes.drop_first();
        assert forall|i: int| 0 <= i < rest.len() implies (#[trigger] rest[i]) is Conflict by {
            assert(rest[i] == outcomes[i + 1]);
        }
        lemma_conflicts_exhaust_budget(rest);
    }
}

/// Law: the run model makes exactly the decisions of the retry policy.
/// With one outcome per budgeted attempt, the first outcome decides as
/// `step_spec` says at attempt 1 of `budget`: an acceptance or an abort
/// ends the run there with that answer after exactly one attempt, and a
/// `Retry` decision continues the run on the remaining outcomes, within
/// the remaining budget.
pub proof fn lemma_run_matches_step(outcomes: Seq<InsertOutcome>, budget: int)
    requires
        outcomes.len() == budget,
        budget >= 1,
    ensures
        step_spec(outcomes[0], 1, budget) matches StepAction::Accept(u) ==> run_result(outcomes)
            == Ok::<Url, ShortenError>(u) && run_attempts(outcomes) == 1,
        step_spec(outcomes[0], 1, budget) matches StepAction::Fail(e) ==> run_result(outcomes)
            == Err::<Url, ShortenError>(e) && run_attempts(outcomes) == 1,
        step_spec(outcomes[0], 1, budget) == StepAction::Retry ==> run_result(outcomes)
            == run_result(outcomes.drop_first()) && run_attempts(outcomes) == 1 + run_attempts(
            outcomes.drop_first(),
        ),
{
    if outcomes[0] is Conflict && budget == 1 {
        assert(outcomes.drop_first().len() == 0);
        assert(run_result(outcomes.drop_first()) == Err::<Url, ShortenError>(
            ShortenError::RetriesExhausted,
        ));
        assert(run_attempts(outcomes.drop_first()) == 0);
    }
}

/// Law: a non-conflict gateway failure on the first attempt makes the
/// shortening service return that failure at once — exactly one
/// generator call and one insert attempt, nothing retried.
pub proof fn lemma_failure_aborts_at_once(outcomes: Seq<InsertOutcome>)
    requires
        outcomes.len() > 0,
        outcomes[0] is Failure,
    ensures
        run_result(outcomes) == Err::<Url, ShortenError>(ShortenError::GatewayFailure),
        run_attempts(outcomes) == 1,
{
}

/// No key of the store's content has the given length: a freshly drawn
/// identifier of that length cannot collide, so an insert with it is
/// certain to succeed.
pub open spec fn no_key_of_len(m: Map<Seq<char>, Row>, len: int) -> bool {
    forall|id: Seq<char>| #[trigger] m.dom().contains(id) ==> id.len() != len
}

/// Shortens `long_url` against the in-memory store: draws random
/// identifiers and inserts, retrying collisions within the budget.  On
/// success the returned row holds a fresh identifier of exactly
/// `SHORTURL_LEN` alphanumeric characters, and the store gained exactly
/// that row; on failure the store is unchanged.  The in-memory gateway
/// never fails, so the only error left is `RetriesExhausted` — and when
/// no stored key could collide with a fresh identifier (in particular,
/// on an empty store) success is certain.
pub fn shorten_url(store: &mut Store, long_url: String, now: i64) -> (r: Result<
    Url,
    ShortenError,
>)
    requires
        old(store).inv(),
    ensures
        final(store).inv(),
        no_key_of_len(old(store)@, SHORTURL_LEN as int) ==> r is Ok,
        r matches Ok(u) ==> {
            &&& !old(store)@.dom().contains(u@.id)
            &&& u@.long_url == long_url@
            &&& u@.created_at == now as int
            &&& u@.id.len() == SHORTURL_LEN as int
            &&& forall|i: int| 0 <= i < u@.id.len() ==> is_base62_char(u@.id[i])
            &&& final(store)@ == old(store)@.insert(u@.id, u@)
        },
        r matches Err(e) ==> final(store)@ == old(store)@ && e
            == ShortenError::RetriesExhausted,
{
    let mut attempt: u64 = 0;
    while attempt < MAX_RETRIES
        invariant
            store.inv(),
            store@ == old(store)@,
            attempt <= MAX_RETRIES,
            no_key_of_len(old(store)@, SHORTURL_LEN as int) ==> attempt == 0,
        decreases MAX_RETRIES - attempt,
    {
        let id: String = generate(SHORTURL_LEN);
        let outcome = store.insert(id, long_url.clone(), now);
        attempt = attempt + 1;
        match shorten_step(outcome, attempt, MAX_RETRIES) {
            StepAction::Accept(u) => {
                return Ok(u);
            },
            StepAction::Fail(e) => {
                return Err(e);
            },
            StepAction::Retry => {},
        }
    }
    Err(ShortenError::RetriesExhausted)
}

/// What resolution returns over the store's abstract content: the long
/// URL stored under the identifier, if any.
pub open spec fn resolve_spec(m: Map<Seq<char>, Row>, id: Seq<char>) -> Option<Seq<char>> {
    if m.dom().contains(id) {
        Some(m[id].long_url)
    } else {
        None
    }
}

/// Law (round trip): resolving the identifier of a row just minted by a
/// successful shorten yields exactly the URL that was shortened.
pub proof fn lemma_round_trip(
    pre: Map<Seq<char>, Row>,
    post: Map<Seq<char>, Row>,
    u: Row,
    url: Seq<char>,
)
    requires
        u.long_url == url,
        post == pre.insert(u.id, u),
    ensures
        resolve_spec(post, u.id) == Some(url),
{
}

/// Law: resolving an identifier never inserted finds nothing.
pub proof fn lemma_unknown_id_not_found(m: Map<Seq<char>, Row>, id: Seq<char>)
    requires
        !m.dom().contains(id),
    ensures
        resolve_spec(m, id) is None,
{
}

/// Law (uniqueness): two successful shortens never mint the same
/// identifier — the second claims an identifier that was absent from a
/// store already holding the first's row.
pub proof fn lemma_ids_unique(
    m0: Map<Seq<char>, Row>,
    m1: Map<Seq<char>, Row>,
    m2: Map<Seq<char>, Row>,
    r1: Row,
    r2: Row,
)
    requires
        !m0.dom().contains(r1.id),
        m1 == m0.insert(r1.id, r1),
        !m1.dom().contains(r2.id),
        m2 == m1.insert(r2.id, r2),
    ensures
        r1.id != r2.id,
{
}

/// Resolves a short identifier against the in-memory store: the stored
/// long URL exactly as it was inserted, or `NotFound` exactly when no
/// row carries the identifier.  The in-memory gateway never fails.
pub fn resolve_short_url(store: &Store, url: String) -> (r: Result<String, ResolveError>)
    requires
        store.inv(),
    ensures
        r matches Ok(s) ==> resolve_spec(store@, url@) == Some(s@),
        r matches Err(e) ==> e == ResolveError::NotFound && resolve_spec(store@, url@) is None,
{
    match store.lookup(&url) {
        Some(u) => Ok(u.long_url),
        None => Err(ResolveError::NotFound),
    }
}

/// Maps one gateway lookup outcome to the resolution service's answer:
/// the stored URL on a hit, `NotFound` on a miss, and the infrastructure
/// failure surfaced unchanged otherwise.
pub fn resolve_outcome(outcome: LookupOutcome) -> (r: Result<String, ResolveError>)
    ensures
        match outcome {
            LookupOutcome::Found(u) => r == Ok::<String, ResolveError>(u.long_url),
            LookupOutcome::NotFound => r == Err::<String, ResolveError>(ResolveError::NotFound),
            LookupOutcome::Failure => r == Err::<String, ResolveError>(
                ResolveError::GatewayFailure,
            ),
        },
{
    match outcome {
        LookupOutcome::Found(u) => Ok(u.long_url),
        LookupOutcome::NotFound => Err(ResolveError::NotFound),
        LookupOutcome::Failure => Err(ResolveError::GatewayFailure),
    }
}

/// Names what url's `Url::parse` accepts: whether the text is a
/// syntactically valid absolute URL, a function of the text alone.
pub uninterp spec fn url_ok(s: Seq<char>) -> bool;

/// Relies on url's `Url::parse`: it returns `Ok` exactly on the texts it
/// accepts as absolute URLs, a function of the input text alone.
#[verifier::external_body]
fn parse_ok(s: &str) -> (r: bool)
    ensures
        r == url_ok(s@),
{
    url::Url::parse(s).is_ok()
}

/// Why a form submission was refused.
#[derive(Clone, Copy, Debug, PartialEq, Eq, Structural)]
pub enum SubmitError {
    /// The submitted text is not a syntactically valid URL.
    InvalidUrl,
    /// The shortening service failed.
    Shorten(ShortenError),
}

/// The compute part of a form submission: checks that the submitted
/// text is a well-formed URL — the check the HTTP layer owes the
/// shortening service — and only then shortens it.
pub fn submit(store: &mut Store, form: FormData, now: i64) -> (r: Result<Url, SubmitError>)
    requires
        old(store).inv(),
    ensures
        final(store).inv(),
        url_ok(form.url@) && no_key_of_len(old(store)@, SHORTURL_LEN as int) ==> r is Ok,
        r == Err::<Url, SubmitError>(SubmitError::InvalidUrl) <==> !url_ok(form.url@),
        r matches Err(e) ==> final(store)@ == old(store)@ && (e == SubmitError::InvalidUrl || e
            == SubmitError::Shorten(ShortenError::RetriesExhausted)),
        r matches Ok(u) ==> {
            &&& !old(store)@.dom().contains(u@.id)
            &&& u@.long_url == form.url@
            &&& u@.created_at == now as int
            &&& u@.id.len() == SHORTURL_LEN as int
            &&& forall|i: int| 0 <= i < u@.id.len() ==> is_base62_char(u@.id[i])
            &&& final(store)@ == old(store)@.insert(u@.id, u@)
        },
{
    if !parse_ok(form.url.as_str()) {
        return Err(SubmitError::InvalidUrl);
    }
    match shorten_url(store, form.url, now) {
        Ok(u) => Ok(u),
        Err(e) => Err(SubmitError::Shorten(e)),
    }
}

/// The user-facing short URL: the hostname, a slash, the identifier.
pub fn format_short_url(host: &str, id: &str) -> (r: String)
    ensures
        r@ == host@ + "/"@ + id@,
{
    let mut s: String = host.to_owned();
    s.append("/");
    s.append(id);
    s
}

} // verus!
