//! What the flows' statements do to the refresh-token table, taken as a
//! sequence of rows: a rotation, run as the statements that the repository
//! hands out for it, keeps at most one live token per family, and logging
//! out a second time changes nothing more.

use vstd::prelude::*;

use crate::auth::controller::{refresh_failed, refresh_transition, RefreshAction, RefreshEvent, RefreshState};
use crate::auth::laws::reused_token_revokes_its_family;
use crate::error::{AuthError, RepositoryError, ServiceError};
use crate::auth::service::{logout_transition, LogoutAction, LogoutEvent, LogoutState};
use crate::model::{CreateRefreshTokenDto, RefreshTokenEntity};
use crate::repository::auth_repo::AuthRepository;
use crate::repository::query::QueryBuilder;
use crate::repository::token_repo::{lemma_store_statement_text, row_of, statement_effect, TokenRepository, TokenRow};
use crate::time::Timestamp;
use crate::token::AuthConfig;

verus! {

/// Every family has at most one token that is not revoked.
pub open spec fn at_most_one_live_per_family(rows: Seq<TokenRow>) -> bool {
    forall|i: int, j: int|
        0 <= i < j < rows.len() && #[trigger] rows[i].family_id == #[trigger] rows[j].family_id
            ==> rows[i].is_revoked || rows[j].is_revoked
}

/// The row as revoked.
pub open spec fn revoked_row(row: TokenRow) -> TokenRow {
    TokenRow { is_revoked: true, ..row }
}

/// The table after the token with id `id` is revoked.
pub open spec fn after_revoking_token(rows: Seq<TokenRow>, id: i64) -> Seq<TokenRow> {
    Seq::new(rows.len(), |i: int| if rows[i].id == id { revoked_row(rows[i]) } else { rows[i] })
}

/// The table after every token of `family_id` is revoked.
pub open spec fn after_revoking_family(rows: Seq<TokenRow>, family_id: u128) -> Seq<TokenRow> {
    Seq::new(rows.len(), |i: int| if rows[i].family_id == family_id { revoked_row(rows[i]) } else { rows[i] })
}

/// The table after `dto` is stored under the id `new_id`.
pub open spec fn after_storing(rows: Seq<TokenRow>, dto: CreateRefreshTokenDto, new_id: i64) -> Seq<TokenRow> {
    rows.push(TokenRow {
        id: new_id,
        user_id: dto.user_id,
        family_id: dto.family_id,
        token_hash: dto.token_hash@,
        is_revoked: false,
        expires_at: dto.expires_at,
    })
}

/// The table after `q` ran on `rows`, if `q` is a statement of the
/// refresh-token repository.
pub open spec fn after_statement(rows: Seq<TokenRow>, q: QueryBuilder, new_id: i64) -> Option<Seq<TokenRow>> {
    statement_effect(rows, q.sql@, q.arg_views(), new_id)
}

/// A rotation asked for by a refresh of the stored token `rows[k]`, run as
/// the two statements that `TokenRepository::rotate` hands out for it, in
/// order, on a table with at most one live token per family: the presented
/// token is revoked, the new one is stored live in its family under the
/// hash of the handed-out token, and every family still has at most one
/// live token.
pub proof fn rotation_keeps_one_live_token_per_family(
    rows: Seq<TokenRow>,
    k: int,
    record: RefreshTokenEntity,
    event: RefreshEvent,
    config: AuthConfig,
    step: (RefreshState, RefreshAction),
    statements: (QueryBuilder, QueryBuilder),
    new_id: i64,
)
    requires
        at_most_one_live_per_family(rows),
        0 <= k < rows.len(),
        row_of(record) == rows[k],
        !record.is_revoked,
        refresh_transition(RefreshState::AwaitingUserInfo { record }, event, config, step),
        step.1 matches RefreshAction::Rotate { dto, old_token_id }
            && call_ensures(TokenRepository::rotate, (&dto, old_token_id), statements),
    ensures
        step.1 matches RefreshAction::Rotate { dto, old_token_id } && {
            let revoked = after_statement(rows, statements.0, new_id);
            &&& revoked == Some(after_revoking_token(rows, old_token_id))
            &&& after_statement(revoked.unwrap(), statements.1, new_id) == Some(after_storing(revoked.unwrap(), dto, new_id))
            &&& {
                let after = after_storing(revoked.unwrap(), dto, new_id);
                &&& at_most_one_live_per_family(after)
                &&& after[k].is_revoked
                &&& after.last().family_id == record.family_id
                &&& after.last().user_id == record.user_id
                &&& after.last().token_hash == dto.token_hash@
                &&& !after.last().is_revoked
            }
        },
{
    if let RefreshAction::Rotate { dto, old_token_id } = step.1 {
        lemma_store_statement_text(dto);
        let revoked = after_revoking_token(rows, old_token_id);
        reveal_strlit("UPDATE refresh_tokens SET is_revoked = $1 WHERE id = $2 RETURNING id");
        reveal_strlit("UPDATE refresh_tokens SET is_revoked = $1 WHERE family_id = $2");
        reveal_strlit("INSERT INTO refresh_tokens (user_id, family_id, token_hash, expires_at) VALUES ($1, $2, $3, $4) RETURNING id");
        assert(after_statement(rows, statements.0, new_id).unwrap() =~= revoked);
        assert(after_statement(revoked, statements.1, new_id).unwrap() =~= after_storing(revoked, dto, new_id));
        let after = after_storing(revoked, dto, new_id);
        assert forall|i: int, j: int|
            0 <= i < j < after.len() && #[trigger] after[i].family_id == #[trigger] after[j].family_id
            implies after[i].is_revoked || after[j].is_revoked by {
            if j == rows.len() {
                // The new token is in the family of the presented one, whose
                // only live token was the presented one, now revoked.
                assert(after[i] == revoked[i]);
                if i != k && !rows[i].is_revoked && rows[i].id != old_token_id {
                    if i < k {
                        assert(rows[i].family_id == rows[k].family_id);
                    } else {
                        assert(rows[k].family_id == rows[i].family_id);
                    }
                }
            } else {
                assert(after[i] == revoked[i] && after[j] == revoked[j]);
                assert(rows[i].family_id == rows[j].family_id);
            }
        }
    }
}

/// After that rotation, the presented token, read back from its row, is
/// refused as reused: its family is revoked and the refresh answers
/// `RevokedToken` once the revocation went through.
pub proof fn rotated_token_presented_again_is_refused(
    rows: Seq<TokenRow>,
    k: int,
    record: RefreshTokenEntity,
    event: RefreshEvent,
    config: AuthConfig,
    step: (RefreshState, RefreshAction),
    statements: (QueryBuilder, QueryBuilder),
    new_id: i64,
    replayed: RefreshTokenEntity,
    now: Timestamp,
    again: (RefreshState, RefreshAction),
    revoked: Result<(), RepositoryError>,
    next: (RefreshState, RefreshAction),
)
    requires
        at_most_one_live_per_family(rows),
        0 <= k < rows.len(),
        row_of(record) == rows[k],
        !record.is_revoked,
        refresh_transition(RefreshState::AwaitingUserInfo { record }, event, config, step),
        step.1 matches RefreshAction::Rotate { dto, old_token_id }
            && call_ensures(TokenRepository::rotate, (&dto, old_token_id), statements)
            && row_of(replayed) == after_storing(after_revoking_token(rows, old_token_id), dto, new_id)[k],
        refresh_transition(
            RefreshState::AwaitingRecord,
            RefreshEvent::RecordLoaded { record: Ok(Some(replayed)), now },
            config,
            again,
        ),
        refresh_transition(again.0, RefreshEvent::FamilyRevoked(revoked), config, next),
    ensures
        again.1 == (RefreshAction::RevokeFamily { family_id: record.family_id }),
        next.1 matches RefreshAction::Finish(Err(_)),
        revoked is Ok ==> refresh_failed(next, ServiceError::Auth(AuthError::RevokedToken)),
{
    rotation_keeps_one_live_token_per_family(rows, k, record, event, config, step, statements, new_id);
    reused_token_revokes_its_family(now, replayed, config, again, revoked, next);
}

/// Logging out with the stored token `rows[k]` runs the statement that
/// `TokenRepository::revoke_family` hands out for its family, which revokes
/// that family; a second logout with the same token finds the same row, asks
/// for the same revocation, and running it again changes nothing.
pub proof fn logout_twice_changes_nothing_more(
    rows: Seq<TokenRow>,
    k: int,
    record: RefreshTokenEntity,
    step: (LogoutState, LogoutAction),
    statement: QueryBuilder,
    record_again: RefreshTokenEntity,
    again: (LogoutState, LogoutAction),
    statement_again: QueryBuilder,
    new_id: i64,
)
    requires
        0 <= k < rows.len(),
        row_of(record) == rows[k],
        logout_transition(LogoutState::AwaitingRecord, LogoutEvent::RecordLoaded(Ok(Some(record))), step),
        step.1 matches LogoutAction::RevokeFamily { family_id }
            && call_ensures(TokenRepository::revoke_family, (family_id,), statement),
        row_of(record_again) == after_revoking_family(rows, record.family_id)[k],
        logout_transition(LogoutState::AwaitingRecord, LogoutEvent::RecordLoaded(Ok(Some(record_again))), again),
        again.1 matches LogoutAction::RevokeFamily { family_id }
            && call_ensures(TokenRepository::revoke_family, (family_id,), statement_again),
    ensures
        step.1 == (LogoutAction::RevokeFamily { family_id: record.family_id }),
        after_statement(rows, statement, new_id) == Some(after_revoking_family(rows, record.family_id)),
        record_again.token_hash@ == record.token_hash@,
        again.1 == step.1,
        after_statement(after_revoking_family(rows, record.family_id), statement_again, new_id)
            == Some(after_revoking_family(rows, record.family_id)),
{
    let f = record.family_id;
    let once = after_revoking_family(rows, f);
    reveal_strlit("UPDATE refresh_tokens SET is_revoked = $1 WHERE id = $2 RETURNING id");
    reveal_strlit("UPDATE refresh_tokens SET is_revoked = $1 WHERE family_id = $2");
    // The family statement is not the statement that revokes one token.
    assert("UPDATE refresh_tokens SET is_revoked = $1 WHERE id = $2 RETURNING id"@.len()
        != "UPDATE refresh_tokens SET is_revoked = $1 WHERE family_id = $2"@.len());
    assert(after_statement(rows, statement, new_id).unwrap() =~= once);
    assert(after_statement(once, statement_again, new_id).unwrap() =~= once);
}

/// Storing the token of a login, with the statement that
/// `AuthRepository::create_token` hands out, appends one live row that holds
/// the request's user, family, keyed hash and expiry under the new id, and
/// leaves every other row as it was.
pub proof fn stored_login_token_is_one_new_live_row(
    rows: Seq<TokenRow>,
    dto: CreateRefreshTokenDto,
    statement: QueryBuilder,
    new_id: i64,
)
    requires
        call_ensures(AuthRepository::create_token, (&dto,), statement),
    ensures
        after_statement(rows, statement, new_id) == Some(after_storing(rows, dto, new_id)),
{
    lemma_store_statement_text(dto);
    reveal_strlit("UPDATE refresh_tokens SET is_revoked = $1 WHERE id = $2 RETURNING id");
    reveal_strlit("UPDATE refresh_tokens SET is_revoked = $1 WHERE family_id = $2");
    reveal_strlit("INSERT INTO refresh_tokens (user_id, family_id, token_hash, expires_at) VALUES ($1, $2, $3, $4) RETURNING id");
    assert(after_statement(rows, statement, new_id).unwrap() =~= after_storing(rows, dto, new_id));
}

} // verus!
