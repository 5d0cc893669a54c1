//! What the OAuth 2.0 endpoints come to, whatever the state store, the providers
//! and the database answer: laws of whole runs.
use crate::config::OAuthProvider;
use crate::errors::{AppError, OAuthError};
use crate::routes::auth::{CallbackParams, OAuthAction, OAuthEvent, OAuthFlow, OAuthStep};
use crate::services::draws::Draws;
use crate::services::flow::{Outcome, Step};
use crate::services::oauth::{OAuthProfile, ProfileEndpoint, StateEntry};
use crate::services::tables::{Database, Turn};
use crate::state::AppState;
use vstd::prelude::*;

verus! {

use crate::models::AuthResponse;
use crate::outside::authorization::{consent_url, state_drawn, verifier_drawn};
use crate::routes::auth::{
    begins_authorization, begins_callback, carries, exchanges_code, oauth_resumes, signs_github_in,
    signs_in, state_taken, success_location,
};
use crate::services::auth::{follows_draws, looks_up_identity, resumes_somehow};
use crate::services::draws::{drawn, given};
use crate::services::laws::{law_oauth_login, oauth_result};
use crate::services::machine_laws::{issued_now, law_session_begins_now, recorded_now};
use crate::services::oauth::{
    asks_consent, asks_some_consent, auth_endpoint, claims_pending, holds_pending,
    is_first_primary, is_github_profile, is_google_profile, law_pending_authorization_reads_back,
    lemma_pending_reads_back, pending_in, scopes_of, state_key, AuthorizationRequest, KEY_PREFIX,
};
use crate::services::tables::{answers, coherent, runs};
use crate::text::text_of;

/// What the OAuth 2.0 flow works on: the payloads of the state store by key, and
/// the database.
#[verifier::ext_equal]
pub struct World {
    pub pending: Map<Seq<char>, Seq<char>>,
    pub db: Database,
}

/// An action goes as `event` says, and leaves the world as `after`. An entry that
/// is taken is gone. One that was there may have expired. Whether a command of
/// the state store that failed took effect is left open.
pub open spec fn happens(
    before: World,
    action: OAuthAction,
    event: OAuthEvent,
    after: World,
) -> bool {
    match action {
        OAuthAction::PutState(entry) => {
            let put = before.pending.insert(entry.key@, entry.payload@);
            &&& after.db == before.db
            &&& match event {
                OAuthEvent::StatePut => after.pending == put,
                OAuthEvent::StateStoreUnreachable(_) => after.pending == before.pending,
                OAuthEvent::StateStoreFailed(_) => after.pending == before.pending || after.pending
                    == put,
                _ => false,
            }
        },
        OAuthAction::TakeState { key } => {
            let taken = before.pending.remove(key@);
            &&& after.db == before.db
            &&& match event {
                OAuthEvent::StateTaken(Some(payload)) => {
                    &&& before.pending.contains_pair(key@, payload@)
                    &&& after.pending == taken
                },
                OAuthEvent::StateTaken(None) => after.pending == taken,
                OAuthEvent::StateStoreUnreachable(_) => after.pending == before.pending,
                OAuthEvent::StateStoreFailed(_) => after.pending == before.pending || after.pending
                    == taken,
                _ => false,
            }
        },
        OAuthAction::ExchangeCode(_) => {
            &&& event is CodeExchanged || event is ExchangeFailed
            &&& after == before
        },
        OAuthAction::FetchProfile { endpoint, .. } => {
            &&& event is ProviderFailed || match endpoint {
                ProfileEndpoint::GoogleUser => event is GoogleUser,
                ProfileEndpoint::GitHubUser => event is GitHubUser,
                ProfileEndpoint::GitHubEmails => event is GitHubEmails,
            }
            &&& after == before
        },
        OAuthAction::AskStore(request) => match event {
            OAuthEvent::StoreReplied(reply) => {
                &&& answers(before.db, request, reply, after.db)
                &&& after.pending == before.pending
            },
            _ => false,
        },
    }
}

/// One action of the flow: how it went, how the world then was, and the step that
/// followed.
pub struct OAuthTurn {
    pub event: OAuthEvent,
    pub world: World,
    pub step: OAuthStep,
}

/// The flow stands at `step` and runs to its end, in these turns: it leaves the
/// world as `end` and redirects to a location, or is refused.
pub open spec fn oauth_runs(
    state: AppState,
    step: OAuthStep,
    world: World,
    turns: Seq<OAuthTurn>,
    end: World,
    result: Result<Seq<char>, AppError>,
) -> bool
    decreases turns.len(),
{
    match step {
        OAuthStep::Redirect { location } => {
            turns.len() == 0 && end == world && result == Ok::<Seq<char>, AppError>(location@)
        },
        OAuthStep::Refuse(e) => {
            turns.len() == 0 && end == world && result == Err::<Seq<char>, AppError>(e)
        },
        OAuthStep::Perform { action, then } => {
            &&& turns.len() > 0
            &&& happens(world, action, turns[0].event, turns[0].world)
            &&& oauth_resumes(state, then, turns[0].event, turns[0].step)
            &&& oauth_runs(
                state,
                turns[0].step,
                turns[0].world,
                turns.drop_first(),
                end,
                result,
            )
        },
    }
}

/// A request for consent, by which an authorization of the provider is pending
/// in `end`.
pub open spec fn is_pending(
    state: AppState,
    slug: Seq<char>,
    request: AuthorizationRequest,
    start: World,
    end: World,
) -> bool {
    &&& OAuthProvider::named(slug) matches Some(provider)
    &&& state.config.oauth.credentials(provider) matches Some(credentials)
    &&& asks_some_consent(request, provider, credentials)
    &&& end.pending == start.pending.insert(request.entry.key@, request.entry.payload@)
    &&& end.db == start.db
}

/// A user is redirected to a consent screen only once the authorization is
/// pending, under the state that goes with the redirect.
pub proof fn law_redirect_follows_the_state(
    state: AppState,
    slug: Seq<char>,
    step: OAuthStep,
    start: World,
    turns: Seq<OAuthTurn>,
    end: World,
    location: Seq<char>,
)
    requires
        begins_authorization(state, slug, step),
        oauth_runs(state, step, start, turns, end, Ok(location)),
    ensures
        exists|request: AuthorizationRequest|
            request.url@ == location && #[trigger] is_pending(state, slug, request, start, end),
{
    reveal_with_fuel(oauth_runs, 2);
    let provider = OAuthProvider::named(slug)->Some_0;
    let credentials = state.config.oauth.credentials(provider)->Some_0;
    let request = choose|request: AuthorizationRequest|
        {
            &&& #[trigger] asks_some_consent(request, provider, credentials)
            &&& step == (OAuthStep::Perform {
                action: OAuthAction::PutState(request.entry),
                then: OAuthFlow::PuttingState { url: request.url },
            })
        };
    assert(is_pending(state, slug, request, start, end));
}

/// Every authorization has a state and a verifier of its own, drawn for it, whichever
/// the provider: the redirect carries both, and the entry that is put into the
/// state store, for ten minutes, holds the verifier under that state.
pub proof fn law_authorization_has_a_state_of_its_own(
    state: AppState,
    slug: Seq<char>,
    entry: StateEntry,
    url: String,
)
    requires
        begins_authorization(
            state,
            slug,
            OAuthStep::Perform {
                action: OAuthAction::PutState(entry),
                then: OAuthFlow::PuttingState { url },
            },
        ),
    ensures
        OAuthProvider::named(slug) matches Some(provider) && (state.config.oauth.credentials(
            provider,
        ) matches Some(credentials) && exists|csrf_state: Seq<char>, verifier: Seq<char>|
            {
                &&& #[trigger] state_drawn(csrf_state)
                &&& #[trigger] verifier_drawn(verifier)
                &&& entry.key@ == "oauth_state:"@ + csrf_state
                &&& pending_in(entry.payload@) == Some((verifier, provider))
                &&& entry.ttl_secs == 600
                &&& url@ == consent_url(
                    auth_endpoint(provider),
                    credentials.client_id,
                    credentials.redirect_uri,
                    scopes_of(provider),
                    csrf_state,
                    verifier,
                )
            }),
{
    let provider = OAuthProvider::named(slug)->Some_0;
    let credentials = state.config.oauth.credentials(provider)->Some_0;
    let request = choose|request: AuthorizationRequest|
        {
            &&& #[trigger] asks_some_consent(request, provider, credentials)
            &&& request.entry == entry
            &&& request.url == url
        };
    let verifier = choose|verifier: Seq<char>|
        {
            &&& verifier_drawn(verifier)
            &&& #[trigger] asks_consent(
                request,
                provider,
                credentials,
                request.state_key@,
                verifier,
            )
        };
    assert(state_drawn(request.state_key@));
    lemma_pending_reads_back(entry, request.state_key@, provider, verifier);
}

/// Authorizations under different states are pending side by side, whichever comes
/// first: neither replaces the other, and each callback that brings its own state
/// back finds the verifier that went with it.
pub proof fn law_authorizations_are_pending_side_by_side(
    state: AppState,
    slug: Seq<char>,
    other_slug: Seq<char>,
    request: AuthorizationRequest,
    other: AuthorizationRequest,
    start: World,
    middle: World,
    end: World,
)
    requires
        is_pending(state, slug, request, start, middle),
        is_pending(state, other_slug, other, middle, end),
        request.state_key@ != other.state_key@,
    ensures
        end.pending.contains_pair(state_key(request.state_key@), request.entry.payload@),
        end.pending.contains_pair(state_key(other.state_key@), other.entry.payload@),
        exists|verifier: Seq<char>| #[trigger]
            verifier_drawn(verifier) && pending_in(request.entry.payload@) == Some(
                (verifier, OAuthProvider::named(slug)->Some_0),
            ),
        exists|verifier: Seq<char>| #[trigger]
            verifier_drawn(verifier) && pending_in(other.entry.payload@) == Some(
                (verifier, OAuthProvider::named(other_slug)->Some_0),
            ),
{
    lemma_entry_of_request(state, slug, request, start, middle);
    lemma_entry_of_request(state, other_slug, other, middle, end);
    let a = state_key(request.state_key@);
    let b = state_key(other.state_key@);
    if a == b {
        assert(a.skip(KEY_PREFIX@.len() as int) =~= request.state_key@);
        assert(b.skip(KEY_PREFIX@.len() as int) =~= other.state_key@);
    }
}

/// The entry of a request for consent is under its state, and holds a verifier that
/// was drawn.
proof fn lemma_entry_of_request(
    state: AppState,
    slug: Seq<char>,
    request: AuthorizationRequest,
    start: World,
    end: World,
)
    requires
        is_pending(state, slug, request, start, end),
    ensures
        request.entry.key@ == state_key(request.state_key@),
        exists|verifier: Seq<char>| #[trigger]
            verifier_drawn(verifier) && pending_in(request.entry.payload@) == Some(
                (verifier, OAuthProvider::named(slug)->Some_0),
            ),
{
    let provider = OAuthProvider::named(slug)->Some_0;
    let credentials = state.config.oauth.credentials(provider)->Some_0;
    let verifier = choose|verifier: Seq<char>|
        {
            &&& verifier_drawn(verifier)
            &&& #[trigger] asks_consent(
                request,
                provider,
                credentials,
                request.state_key@,
                verifier,
            )
        };
    lemma_pending_reads_back(request.entry, request.state_key@, provider, verifier);
}

/// A request for a consent screen is refused with `404` for an unknown provider,
/// and with `503` for one that is not configured.
pub proof fn law_unavailable_provider_is_answered(
    state: AppState,
    slug: Seq<char>,
    step: OAuthStep,
)
    requires
        begins_authorization(state, slug, step),
        OAuthProvider::named(slug) matches Some(provider) ==> state.config.oauth.credentials(
            provider,
        ) is None,
    ensures
        step matches OAuthStep::Refuse(e) && e.status() == (if OAuthProvider::named(slug) is None {
            404u16
        } else {
            503u16
        }),
{
}

/// A callback that reports an error or lacks a parameter is a bad request,
/// whatever else it says.
pub proof fn law_bad_callback_is_a_bad_request(
    state: AppState,
    slug: Seq<char>,
    params: CallbackParams,
    step: OAuthStep,
)
    requires
        begins_callback(state, slug, params, step),
        params.error is Some || params.code is None || params.state is None,
    ensures
        step matches OAuthStep::Refuse(e) && e.status() == 400,
{
}

/// A state that holds no pending authorization of the provider is answered with
/// `401`.
pub proof fn law_bad_state_is_unauthorized(
    payload: Option<Seq<char>>,
    expected: OAuthProvider,
    e: OAuthError,
)
    requires
        claims_pending(payload, expected, Err(e)),
    ensures
        e.status() == 401,
{
}

/// A code is exchanged by the verifier whose challenge went to the consent
/// screen: the one that the pending authorization holds.
pub proof fn law_exchange_uses_the_pending_verifier(
    state: AppState,
    entry: StateEntry,
    csrf_state: Seq<char>,
    provider: OAuthProvider,
    verifier: Seq<char>,
    payload: String,
    code: Seq<char>,
    step: OAuthStep,
)
    requires
        holds_pending(entry, csrf_state, provider, verifier),
        payload@ == entry.payload@,
        state_taken(state, provider, code, OAuthEvent::StateTaken(Some(payload)), step),
    ensures
        exchanges_code(state, provider, code, verifier, step),
{
    let r = choose|r: Result<String, OAuthError>|
        {
            &&& #[trigger] claims_pending(text_of(Some(payload)), provider, r)
            &&& match r {
                Ok(v) => exchanges_code(state, provider, code, v@, step),
                Err(e) => step == OAuthStep::Refuse(AppError::OAuth(e)),
            }
        };
    law_pending_authorization_reads_back(entry, csrf_state, provider, verifier, provider, r);
}

/// The state that a callback brings back is not pending for that provider.
pub open spec fn not_pending(start: World, slug: Seq<char>, csrf_state: Seq<char>) -> bool {
    let key = state_key(csrf_state);
    !start.pending.contains_key(key) || match pending_in(start.pending[key]) {
        Some((_, provider)) => OAuthProvider::named(slug) != Some(provider),
        None => true,
    }
}

/// A callback whose state is not pending for that provider (it was forged, or
/// used before, or is another provider's) is refused, and touches no account.
pub proof fn law_unknown_state_is_refused(
    state: AppState,
    slug: Seq<char>,
    params: CallbackParams,
    step: OAuthStep,
    start: World,
    turns: Seq<OAuthTurn>,
    end: World,
    result: Result<Seq<char>, AppError>,
)
    requires
        begins_callback(state, slug, params, step),
        params.state matches Some(csrf_state) ==> not_pending(start, slug, csrf_state@),
        oauth_runs(state, step, start, turns, end, result),
    ensures
        result matches Err(e) && e is OAuth,
        end.db == start.db,
{
    reveal_with_fuel(oauth_runs, 2);
    if let OAuthStep::Perform { action: OAuthAction::TakeState { key }, .. } = step {
        let provider = OAuthProvider::named(slug)->Some_0;
        let first = turns[0];
        if let OAuthEvent::StateTaken(entry) = first.event {
            let r = choose|r: Result<String, OAuthError>| #[trigger]
                claims_pending(text_of(entry), provider, r) && (r matches Err(e)
                    ==> first.step == OAuthStep::Refuse(AppError::OAuth(e)));
            assert(claims_pending(text_of(entry), provider, r));
            assert(r is Err);
        }
    }
}

/// While the user is signed in, the flow runs as the login does, and leaves the
/// state store alone.
proof fn lemma_signing_in(
    state: AppState,
    inner: Step,
    step: OAuthStep,
    world: World,
    turns: Seq<OAuthTurn>,
    end: World,
    location: Seq<char>,
) -> (r: (Seq<Turn>, AuthResponse))
    requires
        carries(inner, step),
        oauth_runs(state, step, world, turns, end, Ok(location)),
    ensures
        runs(state.auth, inner, world.db, r.0, end.db.tables, Ok(Outcome::Tokens(r.1))),
        location == success_location(r.1.access_token@),
        end.pending == world.pending,
    decreases turns.len(),
{
    match inner {
        Step::Finish(Ok(Outcome::Tokens(response))) => (Seq::empty(), response),
        Step::Ask { request, then } => {
            let first = turns[0];
            let reply = first.event->StoreReplied_0;
            let next = choose|next: Step| #[trigger]
                resumes_somehow(state.auth, then, reply, next) && carries(next, first.step);
            let draws = choose|d: Draws|
                drawn(d) && given(d) && #[trigger] follows_draws(state.auth, then, reply, d, next);
            let (rest, response) = lemma_signing_in(
                state,
                next,
                first.step,
                first.world,
                turns.drop_first(),
                end,
                location,
            );
            let turn = Turn { reply, db: first.world.db, draws, step: next };
            let all = seq![turn] + rest;
            assert(all.drop_first() =~= rest);
            (all, response)
        },
        _ => (Seq::empty(), arbitrary()),
    }
}

/// A profile was signed in: the login of the profile came to `response`, whose
/// tokens were made by the clock and by chance.
pub open spec fn signed_in(
    state: AppState,
    start: World,
    profile: OAuthProfile,
    end: World,
    response: AuthResponse,
) -> bool {
    &&& oauth_result(
        state.auth,
        start.db.tables,
        profile,
        end.db.tables,
        Ok(Outcome::Tokens(response)),
    )
    &&& issued_now(state.auth, response)
    &&& recorded_now(state.auth, end.db.tables, response)
}

/// How the flow goes on once the profile is known.
proof fn lemma_profile_known(
    state: AppState,
    profile: OAuthProfile,
    step: OAuthStep,
    world: World,
    turns: Seq<OAuthTurn>,
    end: World,
    location: Seq<char>,
) -> (r: AuthResponse)
    requires
        signs_in(profile, step),
        coherent(world.db.tables),
        world.db.draft is None,
        oauth_runs(state, step, world, turns, end, Ok(location)),
    ensures
        signed_in(state, world, profile, end, r),
        location == success_location(r.access_token@),
        end.pending == world.pending,
{
    let inner = choose|inner: Step| #[trigger]
        looks_up_identity(profile, inner) && carries(inner, step);
    let (inner_turns, response) = lemma_signing_in(
        state,
        inner,
        step,
        world,
        turns,
        end,
        location,
    );
    law_oauth_login(
        state.auth,
        profile,
        inner,
        world.db.tables,
        inner_turns,
        end.db.tables,
        Ok(Outcome::Tokens(response)),
    );
    law_session_begins_now(
        state.auth,
        Seq::empty(),
        Seq::empty(),
        Seq::empty(),
        Seq::empty(),
        profile,
        inner,
        world.db.tables,
        inner_turns,
        end.db.tables,
        response,
    );
    response
}

/// `profile` is what the provider says of the user in these turns, the first of
/// which fetched the user: for Google that alone; for GitHub with the email that
/// is in it, or with the first primary verified address that was fetched next.
pub open spec fn describes(turns: Seq<OAuthTurn>, profile: OAuthProfile) -> bool {
    match turns[0].event {
        OAuthEvent::GoogleUser(info) => is_google_profile(info, profile),
        OAuthEvent::GitHubUser(info) => match info.email {
            Some(email) => is_github_profile(info, email, profile),
            None => match turns[1].event {
                OAuthEvent::GitHubEmails(emails) => exists|email: String| #[trigger]
                    is_first_primary(emails@, email) && is_github_profile(info, email, profile),
                _ => false,
            },
        },
        _ => false,
    }
}

/// How the flow goes on once the provider has given an access token.
proof fn lemma_token_given(
    state: AppState,
    provider: OAuthProvider,
    step: OAuthStep,
    world: World,
    turns: Seq<OAuthTurn>,
    end: World,
    location: Seq<char>,
) -> (r: (OAuthProfile, AuthResponse))
    requires
        coherent(world.db.tables),
        world.db.draft is None,
        match step {
            OAuthStep::Perform { action: OAuthAction::FetchProfile { endpoint, .. }, then } => {
                match provider {
                    OAuthProvider::Google => then is FetchingGoogle,
                    OAuthProvider::GitHub => then is FetchingGitHub,
                }
            },
            _ => false,
        },
        oauth_runs(state, step, world, turns, end, Ok(location)),
    ensures
        r.0.provider == provider,
        describes(turns, r.0),
        signed_in(state, world, r.0, end, r.1),
        location == success_location(r.1.access_token@),
        end.pending == world.pending,
{
    reveal_with_fuel(oauth_runs, 3);
    let first = turns[0];
    let rest = turns.drop_first();
    match provider {
        OAuthProvider::Google => {
            let info = first.event->GoogleUser_0;
            let profile = choose|profile: OAuthProfile| #[trigger]
                is_google_profile(info, profile) && signs_in(
                    profile,
                    first.step,
                );
            let response = lemma_profile_known(
                state,
                profile,
                first.step,
                first.world,
                rest,
                end,
                location,
            );
            (profile, response)
        },
        OAuthProvider::GitHub => {
            let info = first.event->GitHubUser_0;
            match info.email {
                Some(email) => {
                    let profile = choose|profile: OAuthProfile| #[trigger]
                        is_github_profile(info, email, profile)
                            && signs_in(profile, first.step);
                    let response = lemma_profile_known(
                        state,
                        profile,
                        first.step,
                        first.world,
                        rest,
                        end,
                        location,
                    );
                    (profile, response)
                },
                None => {
                    let second = rest[0];
                    let emails = second.event->GitHubEmails_0;
                    let email = choose|email: String|
                        {
                            &&& #[trigger] is_first_primary(emails@, email)
                            &&& signs_github_in(info, email, second.step)
                        };
                    let profile = choose|profile: OAuthProfile| #[trigger]
                        is_github_profile(info, email, profile)
                            && signs_in(profile, second.step);
                    let response = lemma_profile_known(
                        state,
                        profile,
                        second.step,
                        second.world,
                        rest.drop_first(),
                        end,
                        location,
                    );
                    (profile, response)
                },
            }
        },
    }
}

/// A callback that succeeded: the provider of the slug vouched for a profile, by
/// what it answered once the state was taken and the code exchanged; the profile
/// was signed in, and the user is redirected with the access token.
pub open spec fn vouched_for(
    state: AppState,
    slug: Seq<char>,
    start: World,
    turns: Seq<OAuthTurn>,
    profile: OAuthProfile,
    end: World,
    response: AuthResponse,
    location: Seq<char>,
) -> bool {
    &&& OAuthProvider::named(slug) == Some(profile.provider)
    &&& describes(turns.skip(2), profile)
    &&& signed_in(state, start, profile, end, response)
    &&& location == success_location(response.access_token@)
}

/// A callback succeeds only with a state that was pending for that provider, and
/// uses it up; the user who is redirected then was signed in by a profile of that
/// provider.
pub proof fn law_callback(
    state: AppState,
    slug: Seq<char>,
    params: CallbackParams,
    step: OAuthStep,
    start: World,
    turns: Seq<OAuthTurn>,
    end: World,
    location: Seq<char>,
)
    requires
        coherent(start.db.tables),
        start.db.draft is None,
        begins_callback(state, slug, params, step),
        oauth_runs(state, step, start, turns, end, Ok(location)),
    ensures
        params.state matches Some(csrf_state) && !not_pending(start, slug, csrf_state@)
            && end.pending == start.pending.remove(state_key(csrf_state@)),
        exists|profile: OAuthProfile, response: AuthResponse| #[trigger]
            vouched_for(state, slug, start, turns, profile, end, response, location),
{
    reveal_with_fuel(oauth_runs, 3);
    let csrf_state = params.state->Some_0;
    if not_pending(start, slug, csrf_state@) {
        law_unknown_state_is_refused(
            state,
            slug,
            params,
            step,
            start,
            turns,
            end,
            Ok(location),
        );
    }
    let provider = OAuthProvider::named(slug)->Some_0;
    let taken = turns[0];
    let rest = turns.drop_first();
    let exchanged = rest[0];
    let (profile, response) = lemma_token_given(
        state,
        provider,
        exchanged.step,
        exchanged.world,
        rest.drop_first(),
        end,
        location,
    );
    assert(rest.drop_first() =~= turns.skip(2));
    assert(vouched_for(state, slug, start, turns, profile, end, response, location));
}

/// The flow is past the state store: it does nothing there any more.
spec fn past_the_state(step: OAuthStep) -> bool {
    match step {
        OAuthStep::Perform { action, then } => {
            &&& !(action is PutState)
            &&& !(action is TakeState)
            &&& !(then is PuttingState)
            &&& !(then is TakingState)
        },
        _ => true,
    }
}

/// Once past the state store, the flow leaves it as it is.
proof fn lemma_past_the_state(
    state: AppState,
    step: OAuthStep,
    world: World,
    turns: Seq<OAuthTurn>,
    end: World,
    result: Result<Seq<char>, AppError>,
)
    requires
        past_the_state(step),
        oauth_runs(state, step, world, turns, end, result),
    ensures
        end.pending == world.pending,
    decreases turns.len(),
{
    if let OAuthStep::Perform { action, then } = step {
        let first = turns[0];
        lemma_past_the_state(state, first.step, first.world, turns.drop_first(), end, result);
    }
}

/// A callback whose state was taken uses the state up, however it ends.
pub proof fn law_callback_uses_the_state_up(
    state: AppState,
    slug: Seq<char>,
    params: CallbackParams,
    step: OAuthStep,
    start: World,
    turns: Seq<OAuthTurn>,
    end: World,
    result: Result<Seq<char>, AppError>,
)
    requires
        begins_callback(state, slug, params, step),
        oauth_runs(state, step, start, turns, end, result),
        turns.len() > 0,
        turns[0].event is StateTaken,
    ensures
        params.state matches Some(csrf_state) && end.pending == start.pending.remove(
            state_key(csrf_state@),
        ),
{
    reveal_with_fuel(oauth_runs, 2);
    let taken = turns[0];
    lemma_past_the_state(state, taken.step, taken.world, turns.drop_first(), end, result);
}

/// A callback cannot be replayed: once one has taken a state, whatever came of it,
/// another with the same state is refused, and touches no account.
pub proof fn law_callback_cannot_be_replayed(
    state: AppState,
    first_slug: Seq<char>,
    first_params: CallbackParams,
    first_step: OAuthStep,
    start: World,
    first_turns: Seq<OAuthTurn>,
    middle: World,
    first_result: Result<Seq<char>, AppError>,
    second_slug: Seq<char>,
    second_params: CallbackParams,
    second_step: OAuthStep,
    second_turns: Seq<OAuthTurn>,
    end: World,
    result: Result<Seq<char>, AppError>,
)
    requires
        begins_callback(state, first_slug, first_params, first_step),
        oauth_runs(state, first_step, start, first_turns, middle, first_result),
        first_turns.len() > 0,
        first_turns[0].event is StateTaken,
        begins_callback(state, second_slug, second_params, second_step),
        text_of(second_params.state) == text_of(first_params.state),
        oauth_runs(state, second_step, middle, second_turns, end, result),
    ensures
        result matches Err(e) && e is OAuth,
        end.db == middle.db,
{
    law_callback_uses_the_state_up(
        state,
        first_slug,
        first_params,
        first_step,
        start,
        first_turns,
        middle,
        first_result,
    );
    law_unknown_state_is_refused(
        state,
        second_slug,
        second_params,
        second_step,
        middle,
        second_turns,
        end,
        result,
    );
}

} // verus!
