//! Tokens that are sent out by mail: to reset a password, and to verify an
//! address. A token is good for a limited time, and a token that resets a
//! password is good for one use.

use vstd::prelude::*;

verus! {

/// How long a token that resets a password is good: a day.
pub const PASSWORD_RESET_LIFETIME_MS: i64 = 86_400_000;

/// How long a token that verifies an address is good: seven days.
pub const EMAIL_VERIFICATION_LIFETIME_MS: i64 = 604_800_000;

/// Why a token was not taken.
#[derive(Clone, Copy, Debug, PartialEq, Eq, Structural)]
pub enum TokenError {
    /// No token of this kind verifies an address, or none that is still
    /// good.
    NotFound,
    /// No request to reset a password goes with the token any more.
    Deleted,
}

/// A request to reset a password.
#[derive(Clone, Debug, PartialEq, Eq)]
pub struct PasswordResetRequest {
    pub id: i32,
    pub local_user_id: i32,
    pub token: String,
    pub published_at: i64,
}

/// The requests to reset a password that are open.
#[derive(Clone, Debug, PartialEq, Eq)]
pub struct PasswordResetRequests {
    pub rows: Vec<PasswordResetRequest>,
    /// The id of the request that is made next.
    pub next_id: i32,
}

/// Whether the request can be redeemed with the token at `now`.
pub open spec fn redeemable(row: PasswordResetRequest, token: Seq<char>, now: i64) -> bool {
    row.token@ == token && row.published_at > now - PASSWORD_RESET_LIFETIME_MS
}

/// The first request that can be redeemed with the token at `now`.
pub open spec fn first_redeemable(rows: Seq<PasswordResetRequest>, token: Seq<char>, now: i64)
    -> Option<PasswordResetRequest>
    decreases rows.len(),
{
    if rows.len() == 0 {
        None
    } else if redeemable(rows[0], token, now) {
        Some(rows[0])
    } else {
        first_redeemable(rows.drop_first(), token, now)
    }
}

/// The requests that cannot be redeemed with the token at `now`.
pub open spec fn not_redeemed(rows: Seq<PasswordResetRequest>, token: Seq<char>, now: i64) -> Seq<
    PasswordResetRequest,
> {
    rows.filter(|row: PasswordResetRequest| !redeemable(row, token, now))
}

/// The id after `id`, as far as ids go.
pub open spec fn next_after(id: i32) -> i32 {
    if id < i32::MAX {
        (id + 1) as i32
    } else {
        i32::MAX
    }
}

impl PasswordResetRequests {
    /// No requests.
    pub fn new() -> (requests: PasswordResetRequests)
        ensures
            requests.rows@.len() == 0,
            requests.next_id == 1,
    {
        PasswordResetRequests { rows: Vec::new(), next_id: 1 }
    }
}

impl PasswordResetRequest {
    /// Enters a request for the user with the token, made at `now`.
    pub fn create(
        requests: &mut PasswordResetRequests,
        local_user_id: i32,
        token: String,
        now: i64,
    ) -> (created: PasswordResetRequest)
        ensures
            created == (PasswordResetRequest {
                id: old(requests).next_id,
                local_user_id,
                token,
                published_at: now,
            }),
            final(requests).rows@ == old(requests).rows@.push(created),
            final(requests).next_id == next_after(old(requests).next_id),
    {
        let id: i32 = requests.next_id;
        if requests.next_id < i32::MAX {
            requests.next_id = requests.next_id + 1;
        }
        let copy = PasswordResetRequest {
            id,
            local_user_id,
            token: token.clone(),
            published_at: now,
        };
        requests.rows.push(PasswordResetRequest { id, local_user_id, token, published_at: now });
        copy
    }

    /// Redeems the token: every request that can be redeemed with it at
    /// `now` is taken out, and the first of them is handed back. A token
    /// that redeems nothing is an error, and nothing changes.
    pub fn read_and_delete(requests: &mut PasswordResetRequests, token: &str, now: i64) -> (result:
        Result<PasswordResetRequest, TokenError>)
        ensures
            final(requests).rows@ == not_redeemed(old(requests).rows@, token@, now),
            final(requests).next_id == old(requests).next_id,
            result == match first_redeemable(old(requests).rows@, token@, now) {
                Some(row) => Ok::<PasswordResetRequest, TokenError>(row),
                None => Err(TokenError::Deleted),
            },
    {
        let wanted = token.to_owned();
        let mut kept: Vec<PasswordResetRequest> = Vec::new();
        let mut found: Option<PasswordResetRequest> = None;
        let mut i: usize = 0;
        assert(requests.rows@.take(0) =~= Seq::<PasswordResetRequest>::empty());
        assert(requests.rows@.skip(0) =~= requests.rows@);
        while i < requests.rows.len()
            invariant
                i <= requests.rows.len(),
                requests.rows@ == old(requests).rows@,
                requests.next_id == old(requests).next_id,
                wanted@ == token@,
                kept@ == not_redeemed(requests.rows@.take(i as int), token@, now),
                match found {
                    Some(row) => first_redeemable(requests.rows@, token@, now) == Some(row),
                    None => first_redeemable(requests.rows@, token@, now) == first_redeemable(
                        requests.rows@.skip(i as int),
                        token@,
                        now,
                    ),
                },
            decreases requests.rows.len() - i,
        {
            proof {
                let keep = |row: PasswordResetRequest| !redeemable(row, token@, now);
                assert(requests.rows@.take(i + 1) =~= requests.rows@.take(i as int).push(
                    requests.rows@[i as int],
                ));
                requests.rows@.take(i as int).lemma_filter_push(requests.rows@[i as int], keep);
                assert(requests.rows@.skip(i as int).drop_first() =~= requests.rows@.skip(i + 1));
            }
            let matches = requests.rows[i].token == wanted && requests.rows[i].published_at as i128
                > now as i128 - PASSWORD_RESET_LIFETIME_MS as i128;
            let copy = PasswordResetRequest {
                id: requests.rows[i].id,
                local_user_id: requests.rows[i].local_user_id,
                token: requests.rows[i].token.clone(),
                published_at: requests.rows[i].published_at,
            };
            assert(copy == requests.rows@[i as int]);
            if matches {
                if found.is_none() {
                    found = Some(copy);
                }
            } else {
                kept.push(copy);
            }
            i = i + 1;
        }
        assert(requests.rows@.take(i as int) =~= requests.rows@);
        requests.rows = kept;
        match found {
            Some(row) => Ok(row),
            None => Err(TokenError::Deleted),
        }
    }
}

/// A token that was sent to verify an address.
#[derive(Clone, Debug, PartialEq, Eq)]
pub struct EmailVerification {
    pub id: i32,
    pub local_user_id: i32,
    pub email: String,
    pub verification_token: String,
    pub published: i64,
}

/// What it takes to enter a token that verifies an address.
#[derive(Clone, Debug, PartialEq, Eq)]
pub struct EmailVerificationForm {
    pub local_user_id: i32,
    pub email: String,
    pub verification_token: String,
}

/// The tokens that verify an address.
#[derive(Clone, Debug, PartialEq, Eq)]
pub struct EmailVerifications {
    pub rows: Vec<EmailVerification>,
    /// The id of the token that is entered next.
    pub next_id: i32,
}

/// Whether the row holds the token and is still good at `now`.
pub open spec fn verifies(row: EmailVerification, token: Seq<char>, now: i64) -> bool {
    row.verification_token@ == token && row.published > now - EMAIL_VERIFICATION_LIFETIME_MS
}

/// The first row that holds the token and is still good at `now`.
pub open spec fn first_verifying(rows: Seq<EmailVerification>, token: Seq<char>, now: i64) -> Option<
    EmailVerification,
>
    decreases rows.len(),
{
    if rows.len() == 0 {
        None
    } else if verifies(rows[0], token, now) {
        Some(rows[0])
    } else {
        first_verifying(rows.drop_first(), token, now)
    }
}

/// The rows of other users.
pub open spec fn of_others(rows: Seq<EmailVerification>, local_user_id: i32) -> Seq<
    EmailVerification,
> {
    rows.filter(|row: EmailVerification| row.local_user_id != local_user_id)
}

impl EmailVerifications {
    /// No tokens.
    pub fn new() -> (tokens: EmailVerifications)
        ensures
            tokens.rows@.len() == 0,
            tokens.next_id == 1,
    {
        EmailVerifications { rows: Vec::new(), next_id: 1 }
    }
}

impl EmailVerification {
    /// Enters a token, sent at `now`.
    pub fn create(tokens: &mut EmailVerifications, form: EmailVerificationForm, now: i64) -> (created:
        EmailVerification)
        ensures
            created == (EmailVerification {
                id: old(tokens).next_id,
                local_user_id: form.local_user_id,
                email: form.email,
                verification_token: form.verification_token,
                published: now,
            }),
            final(tokens).rows@ == old(tokens).rows@.push(created),
            final(tokens).next_id == next_after(old(tokens).next_id),
    {
        let id: i32 = tokens.next_id;
        if tokens.next_id < i32::MAX {
            tokens.next_id = tokens.next_id + 1;
        }
        let copy = EmailVerification {
            id,
            local_user_id: form.local_user_id,
            email: form.email.clone(),
            verification_token: form.verification_token.clone(),
            published: now,
        };
        tokens.rows.push(
            EmailVerification {
                id,
                local_user_id: form.local_user_id,
                email: form.email,
                verification_token: form.verification_token,
                published: now,
            },
        );
        copy
    }

    /// The first row that holds the token and is still good at `now`.
    pub fn read_for_token(tokens: &EmailVerifications, token: &str, now: i64) -> (result: Result<
        EmailVerification,
        TokenError,
    >)
        ensures
            result == match first_verifying(tokens.rows@, token@, now) {
                Some(row) => Ok::<EmailVerification, TokenError>(row),
                None => Err(TokenError::NotFound),
            },
    {
        let wanted = token.to_owned();
        let mut i: usize = 0;
        assert(tokens.rows@.skip(0) =~= tokens.rows@);
        while i < tokens.rows.len()
            invariant
                i <= tokens.rows.len(),
                wanted@ == token@,
                first_verifying(tokens.rows@, token@, now) == first_verifying(
                    tokens.rows@.skip(i as int),
                    token@,
                    now,
                ),
            decreases tokens.rows.len() - i,
        {
            assert(tokens.rows@.skip(i as int).drop_first() =~= tokens.rows@.skip(i + 1));
            if tokens.rows[i].verification_token == wanted && tokens.rows[i].published as i128
                > now as i128 - EMAIL_VERIFICATION_LIFETIME_MS as i128 {
                let copy = EmailVerification {
                    id: tokens.rows[i].id,
                    local_user_id: tokens.rows[i].local_user_id,
                    email: tokens.rows[i].email.clone(),
                    verification_token: tokens.rows[i].verification_token.clone(),
                    published: tokens.rows[i].published,
                };
                assert(copy == tokens.rows@[i as int]);
                return Ok(copy);
            }
            i = i + 1;
        }
        Err(TokenError::NotFound)
    }

    /// Takes out all tokens of the user. Returns how many there were.
    pub fn delete_old_tokens_for_local_user(tokens: &mut EmailVerifications, local_user_id: i32) -> (deleted:
        usize)
        ensures
            final(tokens).rows@ == of_others(old(tokens).rows@, local_user_id),
            final(tokens).next_id == old(tokens).next_id,
            deleted == old(tokens).rows@.len() - final(tokens).rows@.len(),
    {
        let mut kept: Vec<EmailVerification> = Vec::new();
        let mut i: usize = 0;
        assert(tokens.rows@.take(0) =~= Seq::<EmailVerification>::empty());
        while i < tokens.rows.len()
            invariant
                i <= tokens.rows.len(),
                tokens.rows@ == old(tokens).rows@,
                tokens.next_id == old(tokens).next_id,
                kept@ == of_others(tokens.rows@.take(i as int), local_user_id),
                kept@.len() <= i,
            decreases tokens.rows.len() - i,
        {
            proof {
                let keep = |row: EmailVerification| row.local_user_id != local_user_id;
                assert(tokens.rows@.take(i + 1) =~= tokens.rows@.take(i as int).push(
                    tokens.rows@[i as int],
                ));
                tokens.rows@.take(i as int).lemma_filter_push(tokens.rows@[i as int], keep);
            }
            if tokens.rows[i].local_user_id != local_user_id {
                let copy = EmailVerification {
                    id: tokens.rows[i].id,
                    local_user_id: tokens.rows[i].local_user_id,
                    email: tokens.rows[i].email.clone(),
                    verification_token: tokens.rows[i].verification_token.clone(),
                    published: tokens.rows[i].published,
                };
                assert(copy == tokens.rows@[i as int]);
                kept.push(copy);
            }
            i = i + 1;
        }
        assert(tokens.rows@.take(i as int) =~= tokens.rows@);
        let deleted: usize = tokens.rows.len() - kept.len();
        tokens.rows = kept;
        deleted
    }
}

} // verus!
