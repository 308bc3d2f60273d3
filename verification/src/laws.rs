//! The laws the token lifecycle obeys, stated over the models that the
//! executable contracts use.

use vstd::prelude::*;

use crate::auth::bearer_prefix;
use crate::auth::has_bearer_prefix;
use crate::auth::token_of_header;
use crate::claims::ClaimsView;
use crate::claims::UserAuthInfoView;
use crate::claims::claims_for;
use crate::claims::msg_expired;
use crate::claims::msg_invalid_email;
use crate::claims::msg_invalid_expiration;
use crate::claims::msg_invalid_id;
use crate::claims::msg_invalid_public_id;
use crate::claims::valid_claims;
use crate::claims::violations;
use crate::text::blank;
use crate::text::is_space_char;
use crate::text::lemma_trim_of_padded;
use crate::token::decoded_claims;

verus! {

/// Round trip: the claims issued for identity `u` at time `t0` carry
/// exactly `u`'s fields with expiration `t0 + 3600`; and for an identity
/// with a non-blank id, a non-zero public id and a non-empty email they
/// validate at every time strictly before expiration. Together with the
/// contracts of `issue_token` and `decode_token`, a token issued at `t0`
/// and verified before `t0 + 3600` against the same secret yields these
/// claims again.
pub proof fn lemma_round_trip(u: UserAuthInfoView, t0: int, now: int)
    requires
        !blank(u.id),
        u.public_id != 0,
        u.email.len() > 0,
        0 <= t0,
        now < t0 + 3600,
    ensures
        claims_for(u, t0).id == u.id,
        claims_for(u, t0).public_id == u.public_id,
        claims_for(u, t0).email == u.email,
        claims_for(u, t0).user_type == u.user_type,
        claims_for(u, t0).exp == t0 + 3600,
        valid_claims(claims_for(u, t0), now),
{
}

/// Header parsing: a header value made of the `Bearer ` prefix, then
/// whitespace, then a piece whose first and last characters are not
/// whitespace, then whitespace, carries the prefix and yields exactly that
/// piece as its token.
pub proof fn lemma_padded_bearer_header(w1: Seq<char>, t: Seq<char>, w2: Seq<char>)
    requires
        blank(w1),
        blank(w2),
        t.len() > 0,
        !is_space_char(t[0]),
        !is_space_char(t.last()),
    ensures
        has_bearer_prefix(bearer_prefix() + w1 + t + w2),
        token_of_header(bearer_prefix() + w1 + t + w2) == t,
{
    let h = bearer_prefix() + w1 + t + w2;
    assert(h.subrange(0, 7) =~= bearer_prefix());
    assert(h.skip(7) =~= w1 + t + w2);
    lemma_trim_of_padded(w1, t, w2);
}

/// A fresh token presented in a well-formed header passes the whole check.
/// Take a header made of the `Bearer ` prefix, whitespace, a token `t`
/// issued for identity `u` at time `t0` (so `t` decodes under the secret to
/// exactly `u`'s claims; a real token is nonempty and carries no whitespace
/// at its ends), and whitespace. Before expiry the extracted token is `t`
/// and its claims validate; the contract of `extract_claims_from_header`
/// then forces the result `Ok` with exactly the issued claims.
pub proof fn lemma_gate_round_trip(
    u: UserAuthInfoView,
    t0: int,
    now: int,
    w1: Seq<char>,
    t: Seq<char>,
    w2: Seq<char>,
    secret: Seq<char>,
)
    requires
        !blank(u.id),
        u.public_id != 0,
        u.email.len() > 0,
        0 <= t0,
        now < t0 + 3600,
        blank(w1),
        blank(w2),
        t.len() > 0,
        !is_space_char(t[0]),
        !is_space_char(t.last()),
        decoded_claims(t, secret) == Some(claims_for(u, t0)),
    ensures
        has_bearer_prefix(bearer_prefix() + w1 + t + w2),
        token_of_header(bearer_prefix() + w1 + t + w2) == t,
        decoded_claims(token_of_header(bearer_prefix() + w1 + t + w2), secret) == Some(
            claims_for(u, t0),
        ),
        valid_claims(claims_for(u, t0), now),
{
    lemma_padded_bearer_header(w1, t, w2);
    lemma_round_trip(u, t0, now);
}

/// Expiry: claims whose expiration is at or before the verification time
/// never validate, whatever the other fields hold, and the expiry violation
/// is always among the reported ones.
pub proof fn lemma_expired_claims_rejected(c: ClaimsView, now: int)
    requires
        c.exp <= now,
    ensures
        !valid_claims(c, now),
        violations(c, now).contains(msg_expired()),
{
    let v = violations(c, now);
    assert(v[v.len() - 1] == msg_expired());
}

/// Aggregation: every failing condition is recorded in the violation list —
/// none shadows another.
pub proof fn lemma_violations_record_each(c: ClaimsView, now: int)
    ensures
        blank(c.id) ==> violations(c, now).contains(msg_invalid_id()),
        c.public_id == 0 ==> violations(c, now).contains(msg_invalid_public_id()),
        c.email.len() == 0 ==> violations(c, now).contains(msg_invalid_email()),
        c.exp == 0 ==> violations(c, now).contains(msg_invalid_expiration()),
        c.exp <= now ==> violations(c, now).contains(msg_expired()),
        valid_claims(c, now) <==> violations(c, now).len() == 0,
{
    let v = violations(c, now);
    let a: int = if blank(c.id) {
        1
    } else {
        0
    };
    let b: int = if c.public_id == 0 {
        1
    } else {
        0
    };
    let d: int = if c.email.len() == 0 {
        1
    } else {
        0
    };
    let e: int = if c.exp == 0 {
        1
    } else {
        0
    };
    if blank(c.id) {
        assert(v[0] == msg_invalid_id());
    }
    if c.public_id == 0 {
        assert(v[a] == msg_invalid_public_id());
    }
    if c.email.len() == 0 {
        assert(v[a + b] == msg_invalid_email());
    }
    if c.exp == 0 {
        assert(v[a + b + d] == msg_invalid_expiration());
    }
    if c.exp <= now {
        assert(v[a + b + d + e] == msg_expired());
    }
}

/// Aggregation of two independent faults: claims with a blank subject id
/// and an empty email fail validation with both descriptions reported.
pub proof fn lemma_blank_id_and_email_both_reported(c: ClaimsView, now: int)
    requires
        blank(c.id),
        c.email.len() == 0,
    ensures
        !valid_claims(c, now),
        violations(c, now).contains(msg_invalid_id()),
        violations(c, now).contains(msg_invalid_email()),
{
    lemma_violations_record_each(c, now);
}

} // verus!
